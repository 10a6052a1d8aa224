use vstd::prelude::*;

verus! {

/// Relies on str's PartialEq: two string slices compare equal exactly when
/// their character sequences are equal.
#[verifier::external_body]
pub(crate) fn str_eq(a: &str, b: &str) -> (r: bool)
    ensures
        r == (a@ == b@),
{
    a == b
}

/// Relies on u32::to_ne_bytes: the bytes of 1u32 in native order hold a
/// single 1 at one end, so the leading byte is 0 or 1, and it is 0 exactly
/// on big-endian targets.
#[verifier::external_body]
fn leading_native_byte_of_one() -> (r: u8)
    ensures
        r == 0 || r == 1,
{
    u32::to_ne_bytes(1)[0]
}

/// Reports whether the running machine stores integers big-endian.  The
/// answer depends on the target, so nothing more can be promised of it.
pub fn is_big_endian() -> bool {
    leading_native_byte_of_one() == 0
}

} // verus!
