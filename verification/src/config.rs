//! Run configuration, built from the values the environment supplies.
//! The store connection string is required; every other setting has a
//! default.

use vstd::prelude::*;
use crate::strutil::is_uint_string;
use crate::strutil::uint_digits;
use crate::strutil::digits_val;
use crate::strutil::parse_usize;
use crate::strutil::parse_u64;

verus! {

/// The settings one run works with.
#[derive(Debug)]
pub struct Config {
    pub database_url: String,
    pub upload_dir: String,
    pub processed_dir: String,
    pub lock_file_path: String,
    pub batch_size: usize,
    pub max_execution_seconds: u64,
}

/// Why a configuration could not be built.  Any of these aborts the run
/// before any file is touched.
#[derive(Clone, Copy, PartialEq, Eq, Structural, Debug)]
pub enum ConfigError {
    /// The store connection string is not set.
    MissingDatabaseUrl,
    /// The batch size is set but is not an unsigned decimal that fits.
    InvalidBatchSize,
    /// The per-file deadline is set but is not an unsigned decimal that
    /// fits.
    InvalidMaxExecutionSeconds,
}

/// Whether a supplied setting parses as an unsigned decimal no larger
/// than `max`; an absent setting falls back to its default.
pub open spec fn uint_setting_ok(v: Option<String>, max: int) -> bool {
    match v {
        Some(s) => is_uint_string(s@) && digits_val(uint_digits(s@)) <= max,
        None => true,
    }
}

/// The value of a supplied unsigned setting, or its default.
pub open spec fn uint_setting_val(v: Option<String>, dflt: int) -> int {
    match v {
        Some(s) => digits_val(uint_digits(s@)),
        None => dflt,
    }
}

/// The value of a supplied string setting, or its default.
pub open spec fn str_setting_val(v: Option<String>, dflt: Seq<char>) -> Seq<char> {
    match v {
        Some(s) => s@,
        None => dflt,
    }
}

/// Builds the run configuration from the raw environment values, applying
/// the documented defaults.  The connection string is required; the batch
/// size and the per-file deadline must be unsigned decimals where set.
pub fn build_config(
    database_url: Option<String>,
    upload_dir: Option<String>,
    processed_dir: Option<String>,
    lock_file_path: Option<String>,
    batch_size: Option<String>,
    max_execution_seconds: Option<String>,
) -> (r: Result<Config, ConfigError>)
    ensures
        r is Ok <==> database_url is Some && uint_setting_ok(batch_size, usize::MAX as int)
            && uint_setting_ok(max_execution_seconds, u64::MAX as int),
        r matches Err(e) ==> e == (if database_url is None {
            ConfigError::MissingDatabaseUrl
        } else if !uint_setting_ok(batch_size, usize::MAX as int) {
            ConfigError::InvalidBatchSize
        } else {
            ConfigError::InvalidMaxExecutionSeconds
        }),
        r matches Ok(c) ==> {
            &&& c.database_url@ == database_url.unwrap()@
            &&& c.upload_dir@ == str_setting_val(upload_dir, "./uploads"@)
            &&& c.processed_dir@ == str_setting_val(processed_dir, "./processed"@)
            &&& c.lock_file_path@ == str_setting_val(lock_file_path, "./process.lock"@)
            &&& c.batch_size as int == uint_setting_val(batch_size, 1000)
            &&& c.max_execution_seconds as int == uint_setting_val(max_execution_seconds, 3600)
        },
{
    let url = match database_url {
        Some(u) => u,
        None => {
            return Err(ConfigError::MissingDatabaseUrl);
        },
    };
    let batch = match batch_size {
        Some(s) => match parse_usize(s.as_str()) {
            Some(v) => v,
            None => {
                return Err(ConfigError::InvalidBatchSize);
            },
        },
        None => 1000,
    };
    let secs = match max_execution_seconds {
        Some(s) => match parse_u64(s.as_str()) {
            Some(v) => v,
            None => {
                return Err(ConfigError::InvalidMaxExecutionSeconds);
            },
        },
        None => 3600,
    };
    Ok(
        Config {
            database_url: url,
            upload_dir: match upload_dir {
                Some(d) => d,
                None => "./uploads".to_owned(),
            },
            processed_dir: match processed_dir {
                Some(d) => d,
                None => "./processed".to_owned(),
            },
            lock_file_path: match lock_file_path {
                Some(d) => d,
                None => "./process.lock".to_owned(),
            },
            batch_size: batch,
            max_execution_seconds: secs,
        },
    )
}

} // verus!
