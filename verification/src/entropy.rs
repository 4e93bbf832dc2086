//! Random operands and fresh correlation IDs.
use rand::rngs::ThreadRng;
use rand::Rng;
use uuid::Uuid;
use vstd::prelude::*;

verus! {

/// `rand::rngs::ThreadRng`, carried as an opaque value.
#[verifier::external_type_specification]
#[verifier::external_body]
pub struct ExThreadRng(ThreadRng);

/// The bits of a UUID that hold its version and its variant.
pub const UUID_VERSION_AND_VARIANT_MASK: u128 = 0x0000_0000_0000_f000_c000_0000_0000_0000;

/// Version 4 (random) with the RFC 4122 variant.
pub const UUID_RANDOM_VERSION_AND_VARIANT: u128 = 0x0000_0000_0000_4000_8000_0000_0000_0000;

/// `id` is a version 4 UUID of the RFC 4122 variant, read as a big-endian number.
pub open spec fn is_random_uuid(id: u128) -> bool {
    id & UUID_VERSION_AND_VARIANT_MASK == UUID_RANDOM_VERSION_AND_VARIANT
}

/// `rand::Rng::gen::<u8>` on the thread-local generator: one random byte.
/// Every byte can come back, so nothing is claimed of it. The generator
/// panics when its reseeding from the operating system fails.
#[verifier::external_body]
pub(crate) fn random_operand(rng: &mut ThreadRng) -> (operand: u8) {
    rng.gen::<u8>()
}

/// `uuid::Uuid::new_v4` followed by `uuid::Uuid::as_u128`: a random UUID as a
/// number. Claimed: the version and variant bits are those that `new_v4` sets.
/// `new_v4` panics when the operating system hands out no random bytes.
#[verifier::external_body]
pub(crate) fn fresh_correlation_id() -> (id: u128)
    ensures
        is_random_uuid(id),
{
    Uuid::new_v4().as_u128()
}

} // verus!
