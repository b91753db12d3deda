use lead_ingest::filename::parse_filename;
use lead_ingest::schema::validate_header;

fn required_header() -> Vec<String> {
    [
        "property_address_line_1",
        "property_address_line_2",
        "property_address_city",
        "property_address_state",
        "property_address_zipcode",
        "property_lat",
        "property_lng",
        "owner_1_firstname",
        "owner_1_lastname",
        "owner_1_name",
        "owner_address_line_1",
        "owner_address_city",
        "owner_address_state",
        "owner_address_zip",
        "lead_id",
        "owner_2_firstname",
        "owner_2_lastname",
        "owner_2_name",
        "contact_1_phone1",
        "contact_1_phone2",
        "contact_1_phone3",
        "contact_2_phone1",
        "contact_2_phone2",
        "contact_2_phone3",
    ]
    .iter()
    .map(|s| s.to_string())
    .collect()
}

#[test]
fn well_formed_name_is_parsed() {
    let m = parse_filename("1712000000_skipAI_1_spring-campaign.csv").expect("name should match");
    assert_eq!(m.skip_ai, 1);
    assert_eq!(m.original, "spring-campaign.csv");
    assert_eq!(m.campaign, "spring-campaign");
}

#[test]
fn zero_flag_name_is_parsed() {
    let m = parse_filename("20240101_skipAI_0_leads.csv").expect("name should match");
    assert_eq!(m.skip_ai, 0);
    assert_eq!(m.campaign, "leads");
}

#[test]
fn inner_dots_stay_in_the_campaign_name() {
    let m = parse_filename("5_skipAI_2_a.b.csv").expect("name should match");
    assert_eq!(m.skip_ai, 2);
    assert_eq!(m.original, "a.b.csv");
    assert_eq!(m.campaign, "a.b");
}

#[test]
fn overflowing_skip_flag_defaults_to_zero() {
    let m = parse_filename("1_skipAI_99999999999999999999_x.csv").expect("name should match");
    assert_eq!(m.skip_ai, 0);
}

#[test]
fn name_without_marker_is_rejected() {
    assert!(parse_filename("superpostcard.csv").is_none());
    assert!(parse_filename("1712000000_1_spring.csv").is_none());
    assert!(parse_filename("1712000000-skipAI-1-spring.csv").is_none());
}

#[test]
fn name_with_malformed_parts_is_rejected() {
    assert!(parse_filename("_skipAI_1_x.csv").is_none());
    assert!(parse_filename("12_skipAI__x.csv").is_none());
    assert!(parse_filename("12_skipAI_3x.csv").is_none());
    assert!(parse_filename("12_skipAI_3_.csv").is_none());
    assert!(parse_filename("12_skipAI_3_x.txt").is_none());
    assert!(parse_filename("12_skipAI_3_x").is_none());
    assert!(parse_filename("").is_none());
}

#[test]
fn complete_header_validates_positionally() {
    let cols = validate_header(&required_header()).expect("header should validate");
    assert_eq!(cols.idx.len(), 24);
    for (k, i) in cols.idx.iter().enumerate() {
        assert_eq!(*i, k);
    }
}

#[test]
fn header_cells_are_trimmed_and_order_free() {
    let mut h = required_header();
    h.reverse();
    // lead_id sits at position 9 of the reversed header; padding must not hide it
    h[9] = "  lead_id ".to_string();
    let cols = validate_header(&h).expect("header should validate");
    assert_eq!(cols.idx[14], 9);
    assert_eq!(cols.idx[0], 23);
}

#[test]
fn later_duplicate_header_cell_wins() {
    let mut h = required_header();
    h.push("lead_id".to_string());
    let cols = validate_header(&h).expect("header should validate");
    assert_eq!(cols.idx[14], 24);
}

#[test]
fn missing_lead_id_is_reported() {
    let h: Vec<String> = required_header()
        .into_iter()
        .filter(|c| c != "lead_id")
        .collect();
    let missing = validate_header(&h).expect_err("header should be rejected");
    assert_eq!(missing, vec!["lead_id".to_string()]);
}

#[test]
fn all_missing_columns_are_reported_in_order() {
    let h = vec!["unrelated".to_string()];
    let missing = validate_header(&h).expect_err("header should be rejected");
    assert_eq!(missing.len(), 24);
    assert_eq!(missing[0], "property_address_line_1");
    assert_eq!(missing[23], "contact_2_phone3");
}
