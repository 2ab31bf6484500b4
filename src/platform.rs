//! Calls into outside crates that read the machine: user directories, the
//! clock and fresh identifiers. What they return depends on the environment,
//! the time or chance, so little is promised of it.
use vstd::prelude::*;

verus! {

/// Relies on dirs::home_dir: the user's home directory, where one is known.
#[verifier::external_body]
pub(crate) fn home_directory() -> (r: Option<String>) {
    dirs::home_dir().map(|p| p.to_string_lossy().into_owned())
}

/// Relies on dirs::runtime_dir: `$XDG_RUNTIME_DIR` where it is set and absolute.
#[verifier::external_body]
pub(crate) fn runtime_directory() -> (r: Option<String>) {
    dirs::runtime_dir().map(|p| p.to_string_lossy().into_owned())
}

/// Relies on dirs::cache_dir: the user's cache directory, where one is known.
#[verifier::external_body]
pub(crate) fn cache_directory() -> (r: Option<String>) {
    dirs::cache_dir().map(|p| p.to_string_lossy().into_owned())
}

/// Relies on uuid::Uuid::new_v4 and its `Display`, which writes the
/// hyphenated form: 32 hex digits and 4 hyphens.
#[verifier::external_body]
pub(crate) fn fresh_identifier() -> (r: String)
    ensures
        r@.len() == 36,
{
    uuid::Uuid::new_v4().to_string()
}

/// Relies on chrono::Utc::now: the current time as whole seconds since the
/// Unix epoch and the nanoseconds past them.
#[verifier::external_body]
pub(crate) fn current_time() -> (r: (i64, u32)) {
    let now = chrono::Utc::now();
    (now.timestamp(), now.timestamp_subsec_nanos())
}

} // verus!
