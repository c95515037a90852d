//! The calls this library makes into the Soroban SDK: SHA-256 hashing and
//! the canonical XDR encodings of a vouch and of a relay attestation, all
//! computed by the host behind an `Env`.
use vstd::prelude::*;
use soroban_sdk::xdr::ToXdr;
use soroban_sdk::address_payload::AddressPayload;
use soroban_sdk::{Bytes, BytesN, Env, IntoVal, Symbol, Val};
use crate::types::{Address, AddressKind, Hash32};

verus! {

/// The Soroban environment, carried through opaquely.
#[verifier::external_type_specification]
#[verifier::external_body]
pub struct ExEnv(soroban_sdk::Env);

/// What `Crypto::sha256` returns for `data`, as a `Hash32`.
pub uninterp spec fn spec_sha256(data: Seq<u8>) -> Hash32;

/// What `ToXdr::to_xdr` returns for the tuple
/// `(voucher, stake, token, vouch_timestamp)`, the addresses made from
/// their payload.
pub uninterp spec fn spec_vouch_xdr(voucher: Address, stake: i128, token: Address, vouch_timestamp: u64) -> Seq<u8>;

/// What `ToXdr::to_xdr` returns for `(event, nonce, timestamp)`, the relay
/// event given as the map from its field names (`dest_chain`, `event_type`,
/// `payload`, `seq`, `source_chain`) to its fields, the event type as a
/// symbol and the payload as bytes.
pub uninterp spec fn spec_relay_xdr(
    source_chain: u32,
    dest_chain: u32,
    event_type: Seq<char>,
    payload: Seq<u8>,
    seq: u64,
    nonce: u64,
    timestamp: u64,
) -> Seq<u8>;

/// Whether `s` can be a Soroban symbol: at most 32 characters, each an
/// ASCII letter, digit or underscore.
pub open spec fn is_symbol(s: Seq<char>) -> bool {
    &&& s.len() <= 32
    &&& forall|i: int|
        0 <= i < s.len() ==> {
            let c = #[trigger] s[i];
            ('a' <= c && c <= 'z') || ('A' <= c && c <= 'Z') || ('0' <= c && c <= '9') || c == '_'
        }
}

/// Calls `ToXdr::to_xdr` on `(event, nonce, timestamp)`, the event built as
/// a `Map<Symbol, Val>` of its fields by name (the host map a contract type
/// with these fields converts to), its type with `Symbol::new`, which
/// panics unless the type is a valid symbol. The contract claims only that
/// the bytes depend on these values alone.
#[verifier::external_body]
pub(crate) fn relay_xdr(
    env: &Env,
    source_chain: u32,
    dest_chain: u32,
    event_type: &String,
    payload: &Vec<u8>,
    seq: u64,
    nonce: u64,
    timestamp: u64,
) -> (b: Vec<u8>)
    requires
        is_symbol(event_type@),
    ensures
        b@ == spec_relay_xdr(source_chain, dest_chain, event_type@, payload@, seq, nonce, timestamp),
{
    let k = |name: &str| Symbol::new(env, name);
    let event: soroban_sdk::Map<Symbol, Val> = soroban_sdk::Map::from_array(env, [
        (k("dest_chain"), dest_chain.into_val(env)),
        (k("event_type"), Symbol::new(env, event_type.as_str()).into_val(env)),
        (k("payload"), Bytes::from_slice(env, payload).into_val(env)),
        (k("seq"), seq.into_val(env)),
        (k("source_chain"), source_chain.into_val(env)),
    ]);
    (event, nonce, timestamp).to_xdr(env).iter().collect()
}

/// Calls `env.crypto().sha256` on `data`; the 32-byte digest is returned
/// as its big-endian halves. The contract claims only that the result is
/// the digest of exactly these bytes.
#[verifier::external_body]
pub(crate) fn sha256(env: &Env, data: &Vec<u8>) -> (h: Hash32)
    ensures
        h == spec_sha256(data@),
{
    let d = env.crypto().sha256(&Bytes::from_slice(env, data)).to_array();
    let mut hi = [0u8; 16];
    let mut lo = [0u8; 16];
    hi.copy_from_slice(&d[..16]);
    lo.copy_from_slice(&d[16..]);
    Hash32 { hi: u128::from_be_bytes(hi), lo: u128::from_be_bytes(lo) }
}

/// Calls `ToXdr::to_xdr` on `(voucher, stake, token, vouch_timestamp)`,
/// the addresses built with `Address::from_payload` from their kind and
/// key. The contract claims only that the bytes depend on these values alone.
#[verifier::external_body]
pub(crate) fn vouch_xdr(env: &Env, voucher: Address, stake: i128, token: Address, vouch_timestamp: u64) -> (b: Vec<u8>)
    ensures
        b@ == spec_vouch_xdr(voucher, stake, token, vouch_timestamp),
{
    let addr = |a: Address| {
        let mut key = [0u8; 32];
        key[..16].copy_from_slice(&a.hi.to_be_bytes());
        key[16..].copy_from_slice(&a.lo.to_be_bytes());
        let key = BytesN::from_array(env, &key);
        let payload = match a.kind {
            AddressKind::Account => AddressPayload::AccountIdPublicKeyEd25519(key),
            AddressKind::Contract => AddressPayload::ContractIdHash(key),
        };
        soroban_sdk::Address::from_payload(env, payload)
    };
    (addr(voucher), stake, addr(token), vouch_timestamp).to_xdr(env).iter().collect()
}

} // verus!
