//! The calls this library makes into Substrate's primitives crates, each with
//! the contract that the crates' source shows.
use vstd::prelude::*;

verus! {

/// The Blake2b-256 digest of `data`.
pub uninterp spec fn blake2_256_of(data: Seq<u8>) -> Seq<u8>;

/// Hashes `data` with `sp_runtime::traits::BlakeTwo256` (the runtime's
/// `Hashing`), which hands it to `sp_io::hashing::blake2_256` and so to
/// `sp_core::hashing::blake2_256`. Claimed: the 32 bytes returned are
/// `blake2_256_of(data)`; nothing more is said of the digest.
#[verifier::external_body]
pub(crate) fn blake_two_256(data: &[u8]) -> (digest: [u8; 32])
    ensures
        digest@ == blake2_256_of(data@),
{
    <sp_runtime::traits::BlakeTwo256 as sp_runtime::traits::Hash>::hash(data).to_fixed_bytes()
}

/// The bytes of `":child_storage:"`.
pub open spec fn child_storage_prefix() -> Seq<u8> {
    seq![58u8, 99, 104, 105, 108, 100, 95, 115, 116, 111, 114, 97, 103, 101, 58]
}

/// `sp_core::storage::well_known_keys::CHILD_STORAGE_KEY_PREFIX`, copied into a
/// vector. Claimed: it holds the bytes of `":child_storage:"`, as the constant
/// is written in `sp-storage`.
#[verifier::external_body]
pub(crate) fn child_storage_key_prefix() -> (prefix: Vec<u8>)
    ensures
        prefix@ == child_storage_prefix(),
{
    sp_core::storage::well_known_keys::CHILD_STORAGE_KEY_PREFIX.to_vec()
}

/// The parts per billion of `Perbill::from_percent(percent)`.
pub open spec fn perbill_parts_of_percent(percent: u32) -> u32 {
    ((if percent > 100 { 100 } else { percent }) * 10_000_000) as u32
}

/// `sp_runtime::Perbill::from_percent(percent)`, taken apart with
/// `deconstruct`. Claimed: the parts are `min(percent, 100) * 10_000_000`, as
/// the inherent `from_percent` of `sp-arithmetic` computes them.
#[verifier::external_body]
pub(crate) fn perbill_from_percent(percent: u32) -> (parts: u32)
    ensures
        parts == perbill_parts_of_percent(percent),
{
    sp_runtime::Perbill::from_percent(percent).deconstruct()
}

/// The bytes of `"dumy"`.
pub open spec fn dummy_key_type() -> Seq<u8> {
    seq![100u8, 117, 109, 121]
}

/// `sp_core::crypto::key_types::DUMMY`, the key type of test session keys.
/// Claimed: its four bytes are `"dumy"`, as the constant is written in
/// `sp-core`.
#[verifier::external_body]
pub(crate) fn dummy_key_type_id() -> (id: [u8; 4])
    ensures
        id@ == dummy_key_type(),
{
    sp_core::crypto::key_types::DUMMY.0
}

} // verus!
