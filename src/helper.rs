//! The directories of service descriptors and of service logs.
use vstd::prelude::*;

verus! {

/// Default directory of the service descriptors.
pub const DEFAULT_SERVICE_DIR: &'static str = "/tmp/op";

/// Default directory of the service log files.
pub const DEFAULT_SERVICE_LOG_DIR: &'static str = "/tmp/oplogs";

/// Directory where the service files are located: the value of `OP_SERVICE_DIR`
/// if it is set, else `/tmp/op`.
pub fn op_service_dir(configured: Option<String>) -> (r: String)
    ensures
        r@ == match configured {
            Some(d) => d@,
            None => DEFAULT_SERVICE_DIR@,
        },
{
    match configured {
        Some(d) => d,
        None => DEFAULT_SERVICE_DIR.to_owned(),
    }
}

/// Directory where the log files are located: the value of `OP_SERVICE_LOG_DIR`
/// if it is set, else `/tmp/oplogs`.
pub fn op_service_log_dir(configured: Option<String>) -> (r: String)
    ensures
        r@ == match configured {
            Some(d) => d@,
            None => DEFAULT_SERVICE_LOG_DIR@,
        },
{
    match configured {
        Some(d) => d,
        None => DEFAULT_SERVICE_LOG_DIR.to_owned(),
    }
}

} // verus!
