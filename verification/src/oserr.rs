//! The operating system's description of the calling thread's most recent
//! error, for diagnostic messages.

use vstd::prelude::*;

verus! {

/// Relies on std::io::Error::last_os_error: reads the calling thread's
/// current operating-system error value; the string renders it. The value
/// depends on ambient thread state, so nothing is promised of the result.
#[verifier::external_body]
pub fn last_errno() -> String {
    std::io::Error::last_os_error().to_string()
}

} // verus!
