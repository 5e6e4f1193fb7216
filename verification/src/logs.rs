//! What DevDock writes to its own log. The files are written by the caller.
use vstd::prelude::*;

use crate::paths::{join, path_join};
use crate::text::concat;

verus! {

/// DevDock's own log file in the log directory.
pub const APP_LOG_FILE_NAME: &'static str = "devdock.log";

/// Where errors shown to the user are logged.
pub fn app_error_log_path(log_dir: &str) -> (r: String)
    ensures
        r@ == path_join(log_dir@, APP_LOG_FILE_NAME@),
{
    join(log_dir, APP_LOG_FILE_NAME)
}

/// The log line of an error shown to the user.
pub fn app_error_line(message: &str) -> (r: String)
    ensures
        r@ == "[ERROR] "@ + message@,
{
    concat("[ERROR] ", message)
}

/// The line written to a service's log when its output cannot be read.
pub fn output_read_error_line(error: &str) -> (r: String)
    ensures
        r@ == "[DevDock] failed to read process output: "@ + error@,
{
    concat("[DevDock] failed to read process output: ", error)
}

} // verus!
