//! The dummy address and trie-id generators that the test runtime plugs into
//! the contracts pallet.
use vstd::prelude::*;
use crate::substrate::{child_storage_key_prefix, child_storage_prefix};

verus! {

/// How far a contract's address lies from the account that instantiates it.
pub const CONTRACT_ADDRESS_OFFSET: u64 = 10;

/// Derives a contract's address from the account that instantiates it.
pub struct DummyContractAddressFor;

impl DummyContractAddressFor {
    /// The address of a contract instantiated by `origin`: `origin + 10`,
    /// whatever the code hash and the input data.
    pub fn contract_address_for(code_hash: &[u8; 32], data: &[u8], origin: &u64) -> (address: u64)
        requires
            *origin + CONTRACT_ADDRESS_OFFSET <= u64::MAX,
        ensures
            address == *origin + CONTRACT_ADDRESS_OFFSET,
    {
        *origin + CONTRACT_ADDRESS_OFFSET
    }
}

/// Two different origins never get the same contract address.
pub proof fn lemma_contract_address_injective(a: u64, b: u64)
    requires
        a + CONTRACT_ADDRESS_OFFSET <= u64::MAX,
        b + CONTRACT_ADDRESS_OFFSET <= u64::MAX,
        a + CONTRACT_ADDRESS_OFFSET == b + CONTRACT_ADDRESS_OFFSET,
    ensures
        a == b,
{
}

/// The eight bytes of `x`, least significant first.
pub open spec fn le_bytes(x: u64) -> Seq<u8> {
    seq![
        (x & 0xff) as u8,
        ((x >> 8u64) & 0xff) as u8,
        ((x >> 16u64) & 0xff) as u8,
        ((x >> 24u64) & 0xff) as u8,
        ((x >> 32u64) & 0xff) as u8,
        ((x >> 40u64) & 0xff) as u8,
        ((x >> 48u64) & 0xff) as u8,
        ((x >> 56u64) & 0xff) as u8,
    ]
}

/// The bytes of `"default:"`.
pub open spec fn default_tag() -> Seq<u8> {
    seq![100u8, 101, 102, 97, 117, 108, 116, 58]
}

/// The trie id of a contract of `account` created when the account counter
/// reached `seed`.
pub open spec fn trie_id_bytes(seed: u64, account: u64) -> Seq<u8> {
    child_storage_prefix() + default_tag() + le_bytes(seed) + le_bytes(account)
}

/// Appends the little-endian bytes of `x` to `out`.
fn push_le_bytes(out: &mut Vec<u8>, x: u64)
    ensures
        final(out)@ == old(out)@ + le_bytes(x),
{
    out.push((x & 0xff) as u8);
    out.push(((x >> 8u64) & 0xff) as u8);
    out.push(((x >> 16u64) & 0xff) as u8);
    out.push(((x >> 24u64) & 0xff) as u8);
    out.push(((x >> 32u64) & 0xff) as u8);
    out.push(((x >> 40u64) & 0xff) as u8);
    out.push(((x >> 48u64) & 0xff) as u8);
    out.push(((x >> 56u64) & 0xff) as u8);
    assert(final(out)@ =~= old(out)@ + le_bytes(x));
}

/// Hands out a fresh child-trie id for each contract.
pub struct DummyTrieIdGenerator;

impl DummyTrieIdGenerator {
    /// Bumps the account counter (wrapping at `u64::MAX`) and builds the trie id
    /// `":child_storage:" ++ "default:" ++ le(counter) ++ le(account_id)` from
    /// its new value.
    pub fn trie_id(account_counter: &mut u64, account_id: &u64) -> (id: Vec<u8>)
        ensures
            *final(account_counter) == vstd::wrapping::u64_specs::wrapping_add(*old(account_counter), 1),
            id@ == trie_id_bytes(*final(account_counter), *account_id),
            id@.len() == 39,
            id@.subrange(0, 15) == child_storage_prefix(),
            id@.subrange(15, 23) == default_tag(),
            id@.subrange(23, 31) == le_bytes(*final(account_counter)),
            id@.subrange(31, 39) == le_bytes(*account_id),
    {
        *account_counter = account_counter.wrapping_add(1);
        let new_seed = *account_counter;
        let mut res: Vec<u8> = child_storage_key_prefix();
        let mut tag: Vec<u8> = vec![100u8, 101, 102, 97, 117, 108, 116, 58];
        res.append(&mut tag);
        push_le_bytes(&mut res, new_seed);
        push_le_bytes(&mut res, *account_id);
        assert(res@ =~= trie_id_bytes(new_seed, *account_id));
        proof {
            lemma_trie_id_layout(new_seed, *account_id);
        }
        res
    }
}

/// A `u64`'s little-endian encoding is eight bytes, and reading them back,
/// least significant first, gives the number again.
pub proof fn lemma_le_bytes_decode(x: u64)
    ensures
        le_bytes(x).len() == 8,
        x == (le_bytes(x)[0] as u64) | ((le_bytes(x)[1] as u64) << 8u64) | ((le_bytes(x)[2] as u64)
            << 16u64) | ((le_bytes(x)[3] as u64) << 24u64) | ((le_bytes(x)[4] as u64) << 32u64) | ((
        le_bytes(x)[5] as u64) << 40u64) | ((le_bytes(x)[6] as u64) << 48u64) | ((le_bytes(x)[7] as u64)
            << 56u64),
{
    let b = le_bytes(x);
    let b0 = b[0];
    let b1 = b[1];
    let b2 = b[2];
    let b3 = b[3];
    let b4 = b[4];
    let b5 = b[5];
    let b6 = b[6];
    let b7 = b[7];
    assert(x == (b0 as u64) | ((b1 as u64) << 8u64) | ((b2 as u64) << 16u64) | ((b3 as u64)
        << 24u64) | ((b4 as u64) << 32u64) | ((b5 as u64) << 40u64) | ((b6 as u64) << 48u64) | ((
    b7 as u64) << 56u64)) by (bit_vector)
        requires
            b0 == (x & 0xff) as u8,
            b1 == ((x >> 8u64) & 0xff) as u8,
            b2 == ((x >> 16u64) & 0xff) as u8,
            b3 == ((x >> 24u64) & 0xff) as u8,
            b4 == ((x >> 32u64) & 0xff) as u8,
            b5 == ((x >> 40u64) & 0xff) as u8,
            b6 == ((x >> 48u64) & 0xff) as u8,
            b7 == ((x >> 56u64) & 0xff) as u8,
    ;
}

/// Every trie id is 39 bytes: the 15 bytes of `":child_storage:"`, the 8 bytes
/// of `"default:"`, then the counter and the account, 8 bytes each, least
/// significant first.
pub proof fn lemma_trie_id_layout(seed: u64, account: u64)
    ensures
        trie_id_bytes(seed, account).len() == 39,
        trie_id_bytes(seed, account).subrange(0, 15) == child_storage_prefix(),
        trie_id_bytes(seed, account).subrange(15, 23) == default_tag(),
        trie_id_bytes(seed, account).subrange(23, 31) == le_bytes(seed),
        trie_id_bytes(seed, account).subrange(31, 39) == le_bytes(account),
        trie_id_bytes(seed, account).subrange(0, 23) =~= seq![
            58u8, 99, 104, 105, 108, 100, 95, 115, 116, 111, 114, 97, 103, 101, 58,
            100, 101, 102, 97, 117, 108, 116, 58,
        ],
{
    let t = trie_id_bytes(seed, account);
    assert(t.subrange(0, 15) =~= child_storage_prefix());
    assert(t.subrange(15, 23) =~= default_tag());
    assert(t.subrange(23, 31) =~= le_bytes(seed));
    assert(t.subrange(31, 39) =~= le_bytes(account));
}

/// The little-endian bytes of a `u64` determine it.
pub proof fn lemma_le_bytes_injective(x: u64, y: u64)
    requires
        le_bytes(x) == le_bytes(y),
    ensures
        x == y,
{
    assert(le_bytes(x)[0] == le_bytes(y)[0]);
    assert(le_bytes(x)[1] == le_bytes(y)[1]);
    assert(le_bytes(x)[2] == le_bytes(y)[2]);
    assert(le_bytes(x)[3] == le_bytes(y)[3]);
    assert(le_bytes(x)[4] == le_bytes(y)[4]);
    assert(le_bytes(x)[5] == le_bytes(y)[5]);
    assert(le_bytes(x)[6] == le_bytes(y)[6]);
    assert(le_bytes(x)[7] == le_bytes(y)[7]);
    assert(x == y) by (bit_vector)
        requires
            (x & 0xff) as u8 == (y & 0xff) as u8,
            ((x >> 8u64) & 0xff) as u8 == ((y >> 8u64) & 0xff) as u8,
            ((x >> 16u64) & 0xff) as u8 == ((y >> 16u64) & 0xff) as u8,
            ((x >> 24u64) & 0xff) as u8 == ((y >> 24u64) & 0xff) as u8,
            ((x >> 32u64) & 0xff) as u8 == ((y >> 32u64) & 0xff) as u8,
            ((x >> 40u64) & 0xff) as u8 == ((y >> 40u64) & 0xff) as u8,
            ((x >> 48u64) & 0xff) as u8 == ((y >> 48u64) & 0xff) as u8,
            ((x >> 56u64) & 0xff) as u8 == ((y >> 56u64) & 0xff) as u8,
    ;
}

/// Different counter values or different accounts give different trie ids, so
/// no two contracts share a child trie until the counter wraps around.
pub proof fn lemma_trie_id_injective(s1: u64, a1: u64, s2: u64, a2: u64)
    requires
        trie_id_bytes(s1, a1) == trie_id_bytes(s2, a2),
    ensures
        s1 == s2,
        a1 == a2,
{
    let head = child_storage_prefix() + default_tag();
    assert(head.len() == 23);
    let t1 = trie_id_bytes(s1, a1);
    let t2 = trie_id_bytes(s2, a2);
    assert(t1.subrange(23, 31) =~= le_bytes(s1));
    assert(t2.subrange(23, 31) =~= le_bytes(s2));
    assert(t1.subrange(31, 39) =~= le_bytes(a1));
    assert(t2.subrange(31, 39) =~= le_bytes(a2));
    lemma_le_bytes_injective(s1, s2);
    lemma_le_bytes_injective(a1, a2);
}

/// Two trie ids handed out one after the other, for any accounts, differ: the
/// counter moves on by one between them.
pub proof fn lemma_consecutive_trie_ids_differ(counter: u64, a1: u64, a2: u64)
    ensures
        trie_id_bytes(vstd::wrapping::u64_specs::wrapping_add(counter, 1), a1) != trie_id_bytes(
            vstd::wrapping::u64_specs::wrapping_add(
                vstd::wrapping::u64_specs::wrapping_add(counter, 1),
                1,
            ),
            a2,
        ),
{
    let s1 = vstd::wrapping::u64_specs::wrapping_add(counter, 1);
    let s2 = vstd::wrapping::u64_specs::wrapping_add(s1, 1);
    if trie_id_bytes(s1, a1) == trie_id_bytes(s2, a2) {
        lemma_trie_id_injective(s1, a1, s2, a2);
    }
}

} // verus!
