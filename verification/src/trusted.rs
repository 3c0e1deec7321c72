//! Calls into outside crates, trusted at the contracts stated here.

use vstd::prelude::*;

verus! {

/// Relies on `uuid::Uuid::new_v4` and `Uuid`'s display form: a fresh
/// random version-4 identifier rendered as the 36-character hyphenated
/// string. Nothing is assumed about which identifier comes back.
#[verifier::external_body]
pub(crate) fn new_uuid_string() -> (r: String)
    ensures
        r@.len() == 36,
{
    uuid::Uuid::new_v4().to_string()
}

/// Relies on `sanitize_filename::sanitize`: removes characters that are
/// unsafe in file names (path separators, control characters, reserved
/// names) and truncates over-long results, so the result is never longer
/// than the input. Which characters survive depends on the host platform,
/// so nothing more is assumed; callers validate the result.
#[verifier::external_body]
pub(crate) fn sanitize_name(name: &str) -> (r: String)
    ensures
        r@.len() <= name@.len(),
{
    sanitize_filename::sanitize(name)
}

} // verus!
