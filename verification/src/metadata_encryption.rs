//! Encrypted credential metadata with versioned keys.
//!
//! Metadata is sealed under a 32-byte key with a 12-byte nonce drawn from
//! the ledger (sequence number then timestamp, little-endian) and a 16-byte
//! authentication tag. The cipher here is a placeholder with the interface
//! of AES-256-GCM: each byte is masked with `0xAA` and the tag is fixed, so
//! opening sealed metadata gives it back whatever 32-byte key is used.
use vstd::prelude::*;
use crate::errors::ContractError;

verus! {

/// A key version and when it became active.
#[derive(Clone, Copy, Debug, PartialEq, Eq, Structural)]
pub struct EncryptionKeyVersion {
    pub version: u32,
    pub activated_at: u64,
}

/// Sealed metadata with what opening it needs.
pub struct EncryptedMetadata {
    pub key_version: u32,
    pub nonce: Vec<u8>,
    pub ciphertext: Vec<u8>,
    pub auth_tag: Vec<u8>,
    pub encrypted_at: u64,
}

/// Length of a key, in bytes.
pub const KEY_LEN: usize = 32;

/// Length of a nonce, in bytes.
pub const NONCE_LEN: usize = 12;

/// Length of an authentication tag, in bytes.
pub const TAG_LEN: usize = 16;

/// The mask applied to each byte.
pub const MASK: u8 = 0xAA;

/// The byte the tag is made of.
pub const TAG_BYTE: u8 = 0x42;

/// The 4 little-endian bytes of `x`.
pub open spec fn le4(x: u32) -> Seq<u8> {
    Seq::new(4, |i: int| ((x >> ((8 * i) as u32)) & 0xff) as u8)
}

/// The 8 little-endian bytes of `x`.
pub open spec fn le8(x: u64) -> Seq<u8> {
    Seq::new(8, |i: int| ((x >> ((8 * i) as u64)) & 0xff) as u8)
}

/// The nonce of a ledger with sequence number `sequence` at `timestamp`.
pub open spec fn ledger_nonce(sequence: u32, timestamp: u64) -> Seq<u8> {
    le4(sequence) + le8(timestamp)
}

/// Builds the nonce of the ledger: its sequence number then its timestamp,
/// little-endian.
pub fn generate_random_nonce(sequence: u32, timestamp: u64) -> (n: Vec<u8>)
    ensures
        n@ == ledger_nonce(sequence, timestamp),
{
    let mut n: Vec<u8> = Vec::new();
    let mut i: u32 = 0;
    while i < 4
        invariant
            i <= 4,
            n@ == le4(sequence).subrange(0, i as int),
        decreases 4 - i,
    {
        #[verifier::truncate]
        let b = ((sequence >> (8 * i)) & 0xff) as u8;
        n.push(b);
        assert(le4(sequence).subrange(0, i + 1) == le4(sequence).subrange(0, i as int).push(b));
        i = i + 1;
    }
    assert(le4(sequence).subrange(0, 4) == le4(sequence));
    let mut j: u64 = 0;
    while j < 8
        invariant
            j <= 8,
            n@ == le4(sequence) + le8(timestamp).subrange(0, j as int),
        decreases 8 - j,
    {
        #[verifier::truncate]
        let b = ((timestamp >> (8 * j)) & 0xff) as u8;
        n.push(b);
        assert(le8(timestamp).subrange(0, j + 1) == le8(timestamp).subrange(0, j as int).push(b));
        j = j + 1;
    }
    assert(le8(timestamp).subrange(0, 8) == le8(timestamp));
    n
}

/// Each byte masked with `0xAA`.
pub open spec fn masked(bytes: Seq<u8>) -> Seq<u8> {
    bytes.map_values(|b: u8| b ^ 0xAAu8)
}

/// The tag: 16 bytes `0x42`.
pub open spec fn fixed_tag() -> Seq<u8> {
    Seq::new(16, |i: int| 0x42u8)
}

fn mask_bytes(bytes: &Vec<u8>) -> (out: Vec<u8>)
    ensures
        out@ == masked(bytes@),
{
    let mut out: Vec<u8> = Vec::new();
    let mut i: usize = 0;
    while i < bytes.len()
        invariant
            i <= bytes@.len(),
            out@ == masked(bytes@.subrange(0, i as int)),
        decreases bytes@.len() - i,
    {
        out.push(bytes[i] ^ MASK);
        assert(masked(bytes@.subrange(0, i + 1)) =~= masked(bytes@.subrange(0, i as int)).push(bytes@[i as int] ^ 0xAAu8));
        i = i + 1;
    }
    assert(bytes@.subrange(0, bytes@.len() as int) == bytes@);
    out
}

/// Seals `plaintext`: returns the ciphertext and the tag.
pub fn aes256_gcm_encrypt(plaintext: &Vec<u8>) -> (r: (Vec<u8>, Vec<u8>))
    ensures
        r.0@ == masked(plaintext@),
        r.1@ == fixed_tag(),
{
    let ciphertext = mask_bytes(plaintext);
    let mut tag: Vec<u8> = Vec::new();
    let mut i: usize = 0;
    while i < TAG_LEN
        invariant
            i <= 16,
            tag@ == fixed_tag().subrange(0, i as int),
        decreases 16 - i,
    {
        tag.push(TAG_BYTE);
        assert(fixed_tag().subrange(0, i + 1) =~= fixed_tag().subrange(0, i as int).push(0x42u8));
        i = i + 1;
    }
    assert(fixed_tag().subrange(0, 16) == fixed_tag());
    (ciphertext, tag)
}

/// Opens a ciphertext; a tag that is not 16 bytes long is refused.
pub fn aes256_gcm_decrypt(ciphertext: &Vec<u8>, auth_tag: &Vec<u8>) -> (r: Result<Vec<u8>, ContractError>)
    ensures
        auth_tag@.len() != 16 ==> r is Err && r->Err_0 == ContractError::InvalidInput,
        auth_tag@.len() == 16 ==> r is Ok && r->Ok_0@ == masked(ciphertext@),
{
    if auth_tag.len() != TAG_LEN {
        return Err(ContractError::InvalidInput);
    }
    Ok(mask_bytes(ciphertext))
}

/// Seal `metadata` under `key` (32 bytes) at the ledger with sequence
/// number `sequence` and timestamp `now`, under the credential's current
/// key version (1 when none was set). The result is to be stored for the
/// credential.
pub fn encrypt_credential_metadata(
    metadata: &Vec<u8>,
    key: &Vec<u8>,
    sequence: u32,
    now: u64,
    current_version: Option<u32>,
) -> (r: Result<EncryptedMetadata, ContractError>)
    ensures
        key@.len() != 32 ==> r is Err && r->Err_0 == ContractError::InvalidAmount,
        key@.len() == 32 ==> r is Ok && {
            let e = r->Ok_0;
            &&& e.key_version == current_version.unwrap_or(1)
            &&& e.nonce@ == ledger_nonce(sequence, now)
            &&& e.ciphertext@ == masked(metadata@)
            &&& e.auth_tag@ == fixed_tag()
            &&& e.encrypted_at == now
        },
{
    if key.len() != KEY_LEN {
        return Err(ContractError::InvalidAmount);
    }
    let nonce = generate_random_nonce(sequence, now);
    let (ciphertext, auth_tag) = aes256_gcm_encrypt(metadata);
    let key_version = match current_version {
        Some(v) => v,
        None => 1,
    };
    Ok(EncryptedMetadata { key_version, nonce, ciphertext, auth_tag, encrypted_at: now })
}

/// Open sealed metadata with `key` (32 bytes).
pub fn decrypt_credential_metadata(encrypted: &EncryptedMetadata, key: &Vec<u8>) -> (r: Result<Vec<u8>, ContractError>)
    ensures
        key@.len() != 32 ==> r is Err && r->Err_0 == ContractError::InvalidAmount,
        key@.len() == 32 && encrypted.auth_tag@.len() != 16 ==> r is Err && r->Err_0 == ContractError::InvalidInput,
        key@.len() == 32 && encrypted.auth_tag@.len() == 16 ==> r is Ok && r->Ok_0@ == masked(encrypted.ciphertext@),
{
    if key.len() != KEY_LEN {
        return Err(ContractError::InvalidAmount);
    }
    aes256_gcm_decrypt(&encrypted.ciphertext, &encrypted.auth_tag)
}

/// Masking twice gives the bytes back.
pub proof fn lemma_mask_involutive(bytes: Seq<u8>)
    ensures
        masked(masked(bytes)) == bytes,
{
    assert forall|i: int| 0 <= i < bytes.len() implies masked(masked(bytes))[i] == bytes[i] by {
        let b = bytes[i];
        assert((b ^ 0xAAu8) ^ 0xAAu8 == b) by (bit_vector);
    }
    assert(masked(masked(bytes)) =~= bytes);
}

/// Rotation of a credential's key: the metadata sealed again, the new key
/// version's record, and the new version.
pub struct Rotation {
    pub encrypted: EncryptedMetadata,
    pub version_info: EncryptionKeyVersion,
    pub new_version: u32,
}

/// Rotate the key of a credential whose sealed metadata is `stored`: the
/// metadata is opened with `old_key` and sealed again with `new_key` (32
/// bytes) under the credential's current key version, and the version
/// after the stored metadata's becomes current from `now`.
pub fn rotate_encryption_key(
    stored: Option<EncryptedMetadata>,
    old_key: &Vec<u8>,
    new_key: &Vec<u8>,
    sequence: u32,
    now: u64,
    current_version: Option<u32>,
) -> (r: Result<Rotation, ContractError>)
    requires
        stored is Some ==> stored->0.key_version < u32::MAX,
    ensures
        new_key@.len() != 32 || stored is None ==> r is Err && r->Err_0 == ContractError::InvalidAmount,
        new_key@.len() == 32 && stored is Some ==> {
            let e = stored->0;
            &&& old_key@.len() != 32 ==> r is Err && r->Err_0 == ContractError::InvalidAmount
            &&& old_key@.len() == 32 && e.auth_tag@.len() != 16 ==> r is Err && r->Err_0 == ContractError::InvalidInput
            &&& old_key@.len() == 32 && e.auth_tag@.len() == 16 ==> r is Ok && {
                let o = r->Ok_0;
                &&& o.encrypted.key_version == current_version.unwrap_or(1)
                &&& o.encrypted.nonce@ == ledger_nonce(sequence, now)
                &&& o.encrypted.ciphertext@ == masked(masked(e.ciphertext@))
                &&& o.encrypted.auth_tag@ == fixed_tag()
                &&& o.encrypted.encrypted_at == now
                &&& o.new_version == e.key_version + 1
                &&& o.version_info == (EncryptionKeyVersion { version: o.new_version, activated_at: now })
            }
        },
{
    if new_key.len() != KEY_LEN {
        return Err(ContractError::InvalidAmount);
    }
    let e = match stored {
        Some(e) => e,
        None => {
            return Err(ContractError::InvalidAmount);
        },
    };
    let plaintext = match decrypt_credential_metadata(&e, old_key) {
        Ok(p) => p,
        Err(err) => {
            return Err(err);
        },
    };
    let encrypted = match encrypt_credential_metadata(&plaintext, new_key, sequence, now, current_version) {
        Ok(x) => x,
        Err(err) => {
            return Err(err);
        },
    };
    let new_version = e.key_version + 1;
    Ok(Rotation { encrypted, version_info: EncryptionKeyVersion { version: new_version, activated_at: now }, new_version })
}

/// Whether sealed metadata looks intact at `now`: not dated in the future,
/// a 16-byte tag, a 12-byte nonce and a non-empty ciphertext.
pub fn verify_metadata_integrity(encrypted: &EncryptedMetadata, now: u64) -> (b: bool)
    ensures
        b == (encrypted.encrypted_at <= now && encrypted.auth_tag@.len() == 16 && encrypted.nonce@.len() == 12
            && encrypted.ciphertext@.len() > 0),
{
    if encrypted.encrypted_at > now {
        return false;
    }
    if encrypted.auth_tag.len() != TAG_LEN {
        return false;
    }
    if encrypted.nonce.len() != NONCE_LEN {
        return false;
    }
    if encrypted.ciphertext.len() == 0 {
        return false;
    }
    true
}

/// The version of a credential's key: the one set, else 1.
pub fn get_current_key_version(stored: Option<u32>) -> (v: u32)
    ensures
        v == stored.unwrap_or(1),
{
    match stored {
        Some(v) => v,
        None => 1,
    }
}

/// Opening metadata sealed with any 32-byte key, with any 32-byte key,
/// gives the metadata back; sealing it again after a key rotation keeps it.
pub proof fn lemma_seal_then_open(metadata: Seq<u8>)
    ensures
        masked(masked(metadata)) == metadata,
        masked(masked(masked(masked(metadata)))) == metadata,
{
    lemma_mask_involutive(metadata);
    lemma_mask_involutive(masked(masked(metadata)));
}

/// Ledgers that differ in sequence number or timestamp give different
/// nonces.
pub proof fn lemma_nonces_distinct(s1: u32, t1: u64, s2: u32, t2: u64)
    requires
        s1 != s2 || t1 != t2,
    ensures
        ledger_nonce(s1, t1) != ledger_nonce(s2, t2),
{
    if ledger_nonce(s1, t1) == ledger_nonce(s2, t2) {
        let a = ledger_nonce(s1, t1);
        let b = ledger_nonce(s2, t2);
        assert(a[0] == b[0] && a[1] == b[1] && a[2] == b[2] && a[3] == b[3]);
        assert(a[4] == b[4] && a[5] == b[5] && a[6] == b[6] && a[7] == b[7]);
        assert(a[8] == b[8] && a[9] == b[9] && a[10] == b[10] && a[11] == b[11]);
        assert(s1 == s2) by (bit_vector)
            requires
                ((s1 >> 0u32) & 0xff) as u8 == ((s2 >> 0u32) & 0xff) as u8,
                ((s1 >> 8u32) & 0xff) as u8 == ((s2 >> 8u32) & 0xff) as u8,
                ((s1 >> 16u32) & 0xff) as u8 == ((s2 >> 16u32) & 0xff) as u8,
                ((s1 >> 24u32) & 0xff) as u8 == ((s2 >> 24u32) & 0xff) as u8,
        ;
        assert(t1 == t2) by (bit_vector)
            requires
                ((t1 >> 0u64) & 0xff) as u8 == ((t2 >> 0u64) & 0xff) as u8,
                ((t1 >> 8u64) & 0xff) as u8 == ((t2 >> 8u64) & 0xff) as u8,
                ((t1 >> 16u64) & 0xff) as u8 == ((t2 >> 16u64) & 0xff) as u8,
                ((t1 >> 24u64) & 0xff) as u8 == ((t2 >> 24u64) & 0xff) as u8,
                ((t1 >> 32u64) & 0xff) as u8 == ((t2 >> 32u64) & 0xff) as u8,
                ((t1 >> 40u64) & 0xff) as u8 == ((t2 >> 40u64) & 0xff) as u8,
                ((t1 >> 48u64) & 0xff) as u8 == ((t2 >> 48u64) & 0xff) as u8,
                ((t1 >> 56u64) & 0xff) as u8 == ((t2 >> 56u64) & 0xff) as u8,
        ;
    }
}

} // verus!
