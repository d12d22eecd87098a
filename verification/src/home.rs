//! The home directory of the user, as the `dirs` crate finds it.

use vstd::prelude::*;

verus! {

/// Calls `dirs::home_dir`. Nothing is claimed of what comes back: it depends
/// on the environment and on the user database of the machine. A home
/// directory whose path is not valid UTF-8 comes back as `None`.
#[verifier::external_body]
pub(crate) fn home_dir() -> Option<String> {
    dirs::home_dir().and_then(|path| path.into_os_string().into_string().ok())
}

} // verus!
