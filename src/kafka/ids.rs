use vstd::prelude::*;

verus! {

/// Relies on uuid::Uuid::new_v4 and its Display: a fresh random identifier in
/// hyphenated form, 36 characters. It panics only where the operating system
/// cannot supply random bytes.
#[verifier::external_body]
pub(crate) fn random_uuid() -> (r: String)
    ensures
        r@.len() == 36,
{
    uuid::Uuid::new_v4().to_string()
}

} // verus!
