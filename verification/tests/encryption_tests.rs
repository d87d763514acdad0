use kr1_core::encryption::{
    generate_encryption_key, store_encryption_key, get_encryption_key,
    generate_and_store_encryption_key, delete_encryption_key, encryption_key_exists,
    initialize_encryption, store_key_windows, get_key_windows, delete_key_windows,
    wide_to_string, CredentialVault, KEY_LENGTH,
};
use std::collections::HashSet;

#[test]
fn test_generate_encryption_key() {
    let key = generate_encryption_key();
    assert_eq!(key.len(), KEY_LENGTH);
    assert!(key.chars().all(|c| c.is_ascii_hexdigit()));
}

#[test]
fn test_key_validation() {
    let valid_key = "a".repeat(KEY_LENGTH);
    let invalid_key_length = "a".repeat(KEY_LENGTH - 1);
    let invalid_key_format = "g".repeat(KEY_LENGTH);

    assert_eq!(valid_key.len(), KEY_LENGTH);
    assert!(valid_key.chars().all(|c| c.is_ascii_hexdigit()));

    assert_ne!(invalid_key_length.len(), KEY_LENGTH);
    assert!(!invalid_key_format.chars().all(|c| c.is_ascii_hexdigit()));
}

#[test]
fn generated_keys_are_lowercase_hex_and_distinct() {
    let mut seen: HashSet<String> = HashSet::new();
    for _ in 0..1000 {
        let key = generate_encryption_key();
        assert_eq!(key.len(), 64);
        assert!(key.chars().all(|c| c.is_ascii_digit() || ('a'..='f').contains(&c)));
        assert!(seen.insert(key), "two generated keys collided");
    }
    assert_eq!(seen.len(), 1000);
}

#[test]
fn store_rejects_wrong_length_before_the_vault() {
    let mut vault = CredentialVault::new_supported();
    let short = "a".repeat(63);
    let long = "a".repeat(65);
    let err = store_encryption_key(&mut vault, &short).unwrap_err();
    assert_eq!(err, "Invalid key length. Expected 64 characters, got 63");
    let err = store_encryption_key(&mut vault, &long).unwrap_err();
    assert_eq!(err, "Invalid key length. Expected 64 characters, got 65");
    let err = store_encryption_key(&mut vault, "").unwrap_err();
    assert_eq!(err, "Invalid key length. Expected 64 characters, got 0");
    // the vault was never touched
    assert_eq!(encryption_key_exists(&vault), Ok(false));
}

#[test]
fn store_rejects_non_hex_before_the_vault() {
    let mut vault = CredentialVault::new_supported();
    let mut mutated = "a".repeat(63);
    mutated.push('g');
    let err = store_encryption_key(&mut vault, &mutated).unwrap_err();
    assert_eq!(err, "Invalid key format. Key must be hexadecimal");
    let err = store_encryption_key(&mut vault, &"!".repeat(64)).unwrap_err();
    assert_eq!(err, "Invalid key format. Key must be hexadecimal");
    assert_eq!(encryption_key_exists(&vault), Ok(false));
}

#[test]
fn store_accepts_either_hex_case() {
    let mut vault = CredentialVault::new_supported();
    let upper = "ABCDEF0123456789".repeat(4);
    assert_eq!(store_encryption_key(&mut vault, &upper), Ok(()));
    assert_eq!(get_encryption_key(&vault), Ok(upper));
}

#[test]
fn store_on_unsupported_platform_fails_for_valid_key() {
    let mut vault = CredentialVault::new_unsupported();
    let valid = "a".repeat(64);
    let err = store_encryption_key(&mut vault, &valid).unwrap_err();
    assert_eq!(err, "Windows Credential Manager not available on this platform");
}

#[test]
fn get_surfaces_not_found_unmasked() {
    let vault = CredentialVault::new_supported();
    let err = get_encryption_key(&vault).unwrap_err();
    assert_eq!(err, "Encryption key not found in Windows Credential Manager");
}

#[test]
fn generate_and_store_replaces_the_entry() {
    let mut vault = CredentialVault::new_supported();
    let first = generate_and_store_encryption_key(&mut vault).unwrap();
    let second = generate_and_store_encryption_key(&mut vault).unwrap();
    assert_ne!(first, second);
    assert_eq!(get_encryption_key(&vault), Ok(second));
}

#[test]
fn delete_fails_on_missing_entry_and_clears_a_present_one() {
    let mut vault = CredentialVault::new_supported();
    let err = delete_encryption_key(&mut vault).unwrap_err();
    assert_eq!(err, "Failed to delete encryption key from Windows Credential Manager");
    let valid = "0123456789abcdef".repeat(4);
    store_encryption_key(&mut vault, &valid).unwrap();
    assert_eq!(delete_encryption_key(&mut vault), Ok(()));
    assert_eq!(encryption_key_exists(&vault), Ok(false));
}

#[test]
fn key_exists_maps_not_found_to_false_and_keeps_other_errors() {
    let mut vault = CredentialVault::new_supported();
    assert_eq!(encryption_key_exists(&vault), Ok(false));
    let valid = "0123456789abcdef".repeat(4);
    store_encryption_key(&mut vault, &valid).unwrap();
    assert_eq!(encryption_key_exists(&vault), Ok(true));

    let unsupported = CredentialVault::new_unsupported();
    let err = encryption_key_exists(&unsupported).unwrap_err();
    assert_eq!(err, "Windows Credential Manager not available on this platform");
}

#[test]
fn initialize_is_idempotent_on_an_empty_vault() {
    let mut vault = CredentialVault::new_supported();
    let first = initialize_encryption(&mut vault).unwrap();
    assert_eq!(first.len(), 64);
    assert!(first.chars().all(|c| c.is_ascii_hexdigit()));
    let second = initialize_encryption(&mut vault).unwrap();
    assert_eq!(first, second);
    assert_eq!(get_encryption_key(&vault), Ok(first));
}

#[test]
fn initialize_returns_a_stored_key_unchanged() {
    let mut vault = CredentialVault::new_supported();
    let valid = "deadbeef".repeat(8);
    store_encryption_key(&mut vault, &valid).unwrap();
    assert_eq!(initialize_encryption(&mut vault), Ok(valid));
}

#[test]
fn initialize_propagates_other_vault_errors() {
    let mut vault = CredentialVault::new_unsupported();
    let err = initialize_encryption(&mut vault).unwrap_err();
    assert_eq!(err, "Windows Credential Manager not available on this platform");
}

#[test]
fn platform_entry_points_report_unsupported() {
    let e = store_key_windows(&"a".repeat(64)).unwrap_err();
    assert_eq!(e.code, "PLATFORM_NOT_SUPPORTED");
    assert_eq!(e.message, "Windows Credential Manager not available on this platform");
    let e = get_key_windows().unwrap_err();
    assert_eq!(e.code, "PLATFORM_NOT_SUPPORTED");
    let e = delete_key_windows().unwrap_err();
    assert_eq!(e.code, "PLATFORM_NOT_SUPPORTED");
}

#[test]
fn wide_to_string_stops_at_the_first_nul() {
    let wide: Vec<u16> = vec![0x48, 0x69, 0, 0x41];
    assert_eq!(wide_to_string(&wide), "Hi");
    let no_nul: Vec<u16> = vec![0x4b, 0x52, 0x31];
    assert_eq!(wide_to_string(&no_nul), "KR1");
    let empty: Vec<u16> = vec![];
    assert_eq!(wide_to_string(&empty), "");
}
