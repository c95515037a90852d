//! Values shared by every module: addresses and 32-byte hashes.
use vstd::prelude::*;

verus! {

/// Whether an address names an account or a contract.
#[derive(Clone, Copy, Debug, PartialEq, Eq, Structural)]
pub enum AddressKind {
    Account,
    Contract,
}

/// An account or contract address: its kind and its 32-byte key (an
/// account's Ed25519 public key or a contract's id hash), as two big-endian
/// 128-bit halves. Two addresses are the same exactly when all three agree.
#[derive(Clone, Copy, Debug, PartialEq, Eq, Structural)]
pub struct Address {
    pub kind: AddressKind,
    pub hi: u128,
    pub lo: u128,
}

impl Address {
    /// The account address whose key is `hi` followed by `lo`.
    pub fn account(hi: u128, lo: u128) -> (a: Address)
        ensures
            a == (Address { kind: AddressKind::Account, hi, lo }),
    {
        Address { kind: AddressKind::Account, hi, lo }
    }

    /// The contract address whose key is `hi` followed by `lo`.
    pub fn contract(hi: u128, lo: u128) -> (a: Address)
        ensures
            a == (Address { kind: AddressKind::Contract, hi, lo }),
    {
        Address { kind: AddressKind::Contract, hi, lo }
    }
}

/// A 32-byte hash as two big-endian 128-bit halves: `hi` holds bytes 0..16.
#[derive(Clone, Copy, Debug, PartialEq, Eq, Structural)]
pub struct Hash32 {
    pub hi: u128,
    pub lo: u128,
}

/// Byte order of hashes: lexicographic on the 32 bytes, which is the order
/// of `(hi, lo)`.
pub open spec fn hash_le(a: Hash32, b: Hash32) -> bool {
    a.hi < b.hi || (a.hi == b.hi && a.lo <= b.lo)
}

/// The 16 big-endian bytes of `x`.
pub open spec fn be16(x: u128) -> Seq<u8> {
    Seq::new(16, |i: int| ((x >> ((8 * (15 - i)) as u128)) & 0xff) as u8)
}

/// The 32 bytes of a hash, most significant first.
pub open spec fn hash_bytes(h: Hash32) -> Seq<u8> {
    be16(h.hi) + be16(h.lo)
}

/// Appends the 16 big-endian bytes of `x` to `out`.
pub fn push_be16(out: &mut Vec<u8>, x: u128)
    ensures
        final(out)@ == old(out)@ + be16(x),
{
    let ghost start = out@;
    let mut i: usize = 0;
    while i < 16
        invariant
            i <= 16,
            out@ == start + be16(x).subrange(0, i as int),
        decreases 16 - i,
    {
        let shift: u128 = (8 * (15 - i)) as u128;
        #[verifier::truncate]
        let b = ((x >> shift) & 0xff) as u8;
        out.push(b);
        assert(be16(x).subrange(0, i + 1) == be16(x).subrange(0, i as int).push(b));
        i = i + 1;
    }
    assert(be16(x).subrange(0, 16) == be16(x));
}

/// Appends the 32 bytes of `h` to `out`.
pub fn push_hash_bytes(out: &mut Vec<u8>, h: Hash32)
    ensures
        final(out)@ == old(out)@ + hash_bytes(h),
{
    push_be16(out, h.hi);
    push_be16(out, h.lo);
    assert(old(out)@ + be16(h.hi) + be16(h.lo) == old(out)@ + hash_bytes(h));
}

} // verus!
