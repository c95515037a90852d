use quorum_credit::errors::ContractError;
use quorum_credit::metadata_encryption::{
    decrypt_credential_metadata, encrypt_credential_metadata, generate_random_nonce, get_current_key_version,
    rotate_encryption_key, verify_metadata_integrity,
};

fn key(n: u8) -> Vec<u8> {
    vec![n; 32]
}

#[test]
fn test_encryption_key_validation() {
    let meta = b"score=812".to_vec();
    assert!(encrypt_credential_metadata(&meta, &key(1), 5, 100, None).is_ok());
    assert_eq!(encrypt_credential_metadata(&meta, &vec![1; 31], 5, 100, None).err(), Some(ContractError::InvalidAmount));
    assert_eq!(encrypt_credential_metadata(&meta, &vec![1; 33], 5, 100, None).err(), Some(ContractError::InvalidAmount));
    let sealed = encrypt_credential_metadata(&meta, &key(1), 5, 100, None).unwrap();
    assert_eq!(decrypt_credential_metadata(&sealed, &vec![0; 16]).err(), Some(ContractError::InvalidAmount));
}

#[test]
fn test_nonce_uniqueness() {
    let a = generate_random_nonce(5, 100);
    let b = generate_random_nonce(6, 100);
    let c = generate_random_nonce(5, 101);
    assert_eq!(a.len(), 12);
    assert_ne!(a, b);
    assert_ne!(a, c);
    assert_eq!(a, vec![5, 0, 0, 0, 100, 0, 0, 0, 0, 0, 0, 0]);
}

#[test]
fn test_key_rotation() {
    let meta = b"region=west".to_vec();
    let sealed = encrypt_credential_metadata(&meta, &key(1), 5, 100, None).unwrap();
    let rotated = rotate_encryption_key(Some(sealed), &key(1), &key(2), 6, 200, None).unwrap();
    assert_eq!(rotated.new_version, 2);
    assert_eq!(rotated.version_info.version, 2);
    assert_eq!(rotated.version_info.activated_at, 200);
    // The metadata is preserved through the rotation.
    assert_eq!(decrypt_credential_metadata(&rotated.encrypted, &key(2)).unwrap(), meta);
    assert_eq!(rotate_encryption_key(None, &key(1), &key(2), 6, 200, None).err(), Some(ContractError::InvalidAmount));
}

#[test]
fn test_metadata_integrity_verification() {
    let meta = b"x".to_vec();
    let mut sealed = encrypt_credential_metadata(&meta, &key(1), 5, 100, None).unwrap();
    assert!(verify_metadata_integrity(&sealed, 100));
    assert!(!verify_metadata_integrity(&sealed, 99));
    sealed.auth_tag.pop();
    assert!(!verify_metadata_integrity(&sealed, 100));
    assert_eq!(decrypt_credential_metadata(&sealed, &key(1)).err(), Some(ContractError::InvalidInput));
}

#[test]
fn test_version_tracking() {
    assert_eq!(get_current_key_version(None), 1);
    assert_eq!(get_current_key_version(Some(3)), 3);
    let sealed = encrypt_credential_metadata(&b"m".to_vec(), &key(1), 1, 1, Some(3)).unwrap();
    assert_eq!(sealed.key_version, 3);
    let rotated = rotate_encryption_key(Some(sealed), &key(1), &key(2), 2, 2, Some(3)).unwrap();
    assert_eq!(rotated.new_version, 4);
}
