use vstd::prelude::*;

verus! {

/// Length of a UUID written with hyphens.
pub const UUID_TEXT_LEN: usize = 36;

/// Calls `uuid::Uuid::new_v4` and writes the result with `to_string`.
/// Trusted: the identifier is random, so only its shape is stated, which is
/// the same for every outcome: the hyphenated form has 36 characters.
#[verifier::external_body]
pub(crate) fn uuid_v4_text() -> (r: String)
    ensures
        r@.len() == UUID_TEXT_LEN,
{
    uuid::Uuid::new_v4().to_string()
}

/// Whether `bits` can be the low half of a version-4 UUID: that half starts
/// with the two variant bits, one and zero, and is random below them.
pub open spec fn is_uuid_v4_low_half(bits: u64) -> bool {
    0x8000_0000_0000_0000 <= bits < 0xC000_0000_0000_0000
}

/// Calls `uuid::Uuid::new_v4` and keeps the low 64 bits of `as_u128`.
/// Trusted: the value is random, so only what holds of every outcome is
/// stated: `new_v4` sets the variant bits, which are the two highest bits of
/// the low half.
#[verifier::external_body]
pub(crate) fn uuid_v4_low_bits() -> (r: u64)
    ensures
        is_uuid_v4_low_half(r),
{
    uuid::Uuid::new_v4().as_u128() as u64
}

/// Calls `random_range` on `rand::rng()` with the closed range from `low` to
/// `high`. Trusted: the value is random; every outcome lies in the range. An
/// empty range would panic, so it is left out.
#[verifier::external_body]
pub(crate) fn random_in_range(low: u32, high: u32) -> (r: u32)
    requires
        low <= high,
    ensures
        low <= r <= high,
{
    rand::Rng::random_range(&mut rand::rng(), low..=high)
}

} // verus!
