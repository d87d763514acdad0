//! Encryption-key lifecycle: generation, validation, and storage in a
//! credential vault.
//!
//! The vault holds one entry, named by `CREDENTIAL_TARGET`.  A
//! `CredentialVault` value models that entry as data, so the sequencing rules
//! (validate before storing, initialize only when absent) are verified; a
//! platform without a credential store is the vault whose every operation
//! fails with the unsupported-platform error, as `store_key_windows` and its
//! companions report.

use vstd::prelude::*;
use rand::Rng;
use crate::strutil::{
    is_ascii_hex_digit, is_lower_hex_digit, char_is_hex_digit, decimal_string, spec_decimal,
};
use vstd::slice::{slice_index_get, slice_subrange};

verus! {

/// Logical name of the one credential-store entry this crate uses.
pub const CREDENTIAL_TARGET: &'static str = "KR1_EncryptionKey";

/// A key is 32 random bytes, kept as 64 hexadecimal characters.
pub const KEY_LENGTH: usize = 64;

/// A failure of the credential vault or of key validation, with a
/// human-readable message and a stable code.
#[derive(Debug)]
pub struct EncryptionKeyError {
    pub message: String,
    pub code: String,
}

pub open spec fn platform_text() -> Seq<char> {
    "Windows Credential Manager not available on this platform"@
}

pub open spec fn not_found_text() -> Seq<char> {
    "Encryption key not found in Windows Credential Manager"@
}

pub open spec fn delete_failed_text() -> Seq<char> {
    "Failed to delete encryption key from Windows Credential Manager"@
}

pub open spec fn invalid_format_text() -> Seq<char> {
    "Invalid key format. Key must be hexadecimal"@
}

pub open spec fn invalid_length_text(n: int) -> Seq<char> {
    "Invalid key length. Expected 64 characters, got "@ + spec_decimal(n)
}

/// The unsupported-platform error, reported by every vault operation on a
/// platform without a credential store.
pub open spec fn is_platform_error(e: EncryptionKeyError) -> bool {
    e.message@ == platform_text() && e.code@ == "PLATFORM_NOT_SUPPORTED"@
}

/// The missing-entry error of `read`, the one vault error that callers treat
/// as a normal state.
pub open spec fn is_not_found_error(e: EncryptionKeyError) -> bool {
    e.message@ == not_found_text() && e.code@ == "KEY_NOT_FOUND"@
}

pub open spec fn is_delete_failed_error(e: EncryptionKeyError) -> bool {
    e.message@ == delete_failed_text() && e.code@ == "DELETE_FAILED"@
}

fn platform_error() -> (e: EncryptionKeyError)
    ensures
        is_platform_error(e),
{
    EncryptionKeyError {
        message: String::from_str("Windows Credential Manager not available on this platform"),
        code: String::from_str("PLATFORM_NOT_SUPPORTED"),
    }
}

fn not_found_error() -> (e: EncryptionKeyError)
    ensures
        is_not_found_error(e),
{
    EncryptionKeyError {
        message: String::from_str("Encryption key not found in Windows Credential Manager"),
        code: String::from_str("KEY_NOT_FOUND"),
    }
}

fn delete_failed_error() -> (e: EncryptionKeyError)
    ensures
        is_delete_failed_error(e),
{
    EncryptionKeyError {
        message: String::from_str("Failed to delete encryption key from Windows Credential Manager"),
        code: String::from_str("DELETE_FAILED"),
    }
}

/// A valid key: exactly 64 characters, each a hexadecimal digit of either
/// case.
pub open spec fn spec_valid_key(k: Seq<char>) -> bool {
    k.len() == 64 && forall|i: int| 0 <= i < k.len() ==> is_ascii_hex_digit(k[i])
}

/// The credential vault, reduced to what the lifecycle reads of it: whether
/// the platform store exists, and the one entry named `CREDENTIAL_TARGET`.
pub struct CredentialVault {
    supported: bool,
    entry: Option<String>,
}

impl CredentialVault {
    /// Whether the platform offers a credential store at all.
    pub closed spec fn is_supported(self) -> bool {
        self.supported
    }

    /// The stored secret, when one is present.
    pub closed spec fn entry_view(self) -> Option<Seq<char>> {
        match self.entry {
            Some(k) => Some(k@),
            None => None,
        }
    }

    /// A vault backed by a working credential store, with no entry yet.
    pub fn new_supported() -> (v: Self)
        ensures
            v.is_supported(),
            v.entry_view() is None,
    {
        CredentialVault { supported: true, entry: None }
    }

    /// The vault of a platform without a credential store.
    pub fn new_unsupported() -> (v: Self)
        ensures
            !v.is_supported(),
            v.entry_view() is None,
    {
        CredentialVault { supported: false, entry: None }
    }

    /// Writes the entry, replacing any present one.
    pub fn store(&mut self, secret: &str) -> (r: Result<(), EncryptionKeyError>)
        ensures
            !old(self).is_supported() ==> (r matches Err(e) && is_platform_error(e)) && *final(self)
                == *old(self),
            old(self).is_supported() ==> r is Ok && final(self).is_supported()
                && final(self).entry_view() == Some(secret@),
    {
        if !self.supported {
            return Err(platform_error());
        }
        self.entry = Some(secret.to_owned());
        Ok(())
    }

    /// Reads the entry; a missing entry is the `KEY_NOT_FOUND` failure,
    /// distinguished from every other one.
    pub fn read(&self) -> (r: Result<String, EncryptionKeyError>)
        ensures
            !self.is_supported() ==> (r matches Err(e) && is_platform_error(e)),
            self.is_supported() && self.entry_view() is None ==> (r matches Err(e)
                && is_not_found_error(e)),
            self.is_supported() ==> (self.entry_view() matches Some(k) ==> (r matches Ok(s) && s@
                == k)),
    {
        if !self.supported {
            return Err(platform_error());
        }
        match &self.entry {
            Some(k) => Ok(k.clone()),
            None => Err(not_found_error()),
        }
    }

    /// Deletes the entry; deleting an absent entry fails, as the platform
    /// store's delete does.
    pub fn delete(&mut self) -> (r: Result<(), EncryptionKeyError>)
        ensures
            !old(self).is_supported() ==> (r matches Err(e) && is_platform_error(e)) && *final(self)
                == *old(self),
            old(self).is_supported() && old(self).entry_view() is None ==> (r matches Err(e)
                && is_delete_failed_error(e)) && *final(self) == *old(self),
            old(self).is_supported() && old(self).entry_view() is Some ==> r is Ok
                && final(self).is_supported() && final(self).entry_view() is None,
    {
        if !self.supported {
            return Err(platform_error());
        }
        match &self.entry {
            Some(_) => {
                self.entry = None;
                Ok(())
            },
            None => Err(delete_failed_error()),
        }
    }
}

/// Relies on rand::thread_rng and Rng::gen: a byte from a cryptographically
/// secure source; nothing is promised of its value.
#[verifier::external_body]
fn random_byte() -> u8 {
    rand::thread_rng().gen()
}

/// The lowercase hexadecimal rendering of a byte sequence, two digits a byte,
/// high nibble first.
pub open spec fn hex_of(b: Seq<u8>) -> Seq<char> {
    Seq::new(
        b.len() * 2,
        |i: int|
            if i % 2 == 0 {
                hex_digit_char(b[i / 2] as int / 16)
            } else {
                hex_digit_char(b[i / 2] as int % 16)
            },
    )
}

/// The lowercase hexadecimal digit characters.
pub open spec fn hex_digit_char(n: int) -> char {
    if n < 10 {
        crate::strutil::digit_char(n)
    } else if n == 10 {
        'a'
    } else if n == 11 {
        'b'
    } else if n == 12 {
        'c'
    } else if n == 13 {
        'd'
    } else if n == 14 {
        'e'
    } else {
        'f'
    }
}

pub proof fn lemma_hex_of_charset(b: Seq<u8>)
    ensures
        hex_of(b).len() == b.len() * 2,
        forall|i: int| 0 <= i < hex_of(b).len() ==> is_lower_hex_digit(#[trigger] hex_of(b)[i]),
        forall|i: int| 0 <= i < hex_of(b).len() ==> is_ascii_hex_digit(#[trigger] hex_of(b)[i]),
{
    assert forall|i: int| 0 <= i < hex_of(b).len() implies is_lower_hex_digit(
        #[trigger] hex_of(b)[i],
    ) && is_ascii_hex_digit(hex_of(b)[i]) by {
        let v = b[i / 2] as int;
        assert(0 <= v < 256);
        if i % 2 == 0 {
            assert(0 <= v / 16 < 16);
        } else {
            assert(0 <= v % 16 < 16);
        }
    }
}

/// Relies on hex::encode: each byte becomes two lowercase hexadecimal digits,
/// high nibble first.
#[verifier::external_body]
fn hex_encode(bytes: &Vec<u8>) -> (r: String)
    ensures
        r@ == hex_of(bytes@),
{
    hex::encode(bytes.as_slice())
}

/// Generates a fresh key: 32 bytes from a cryptographically secure source,
/// hex-encoded to 64 lowercase characters.
pub fn generate_encryption_key() -> (r: String)
    ensures
        spec_valid_key(r@),
        r@.len() == 64,
        forall|i: int| 0 <= i < r@.len() ==> is_lower_hex_digit(r@[i]),
{
    let mut bytes: Vec<u8> = Vec::new();
    let mut i: usize = 0;
    while i < 32
        invariant
            bytes@.len() == i,
            i <= 32,
        decreases 32 - i,
    {
        bytes.push(random_byte());
        i = i + 1;
    }
    let r = hex_encode(&bytes);
    proof {
        lemma_hex_of_charset(bytes@);
    }
    r
}

/// Decides `spec_valid_key`: exactly 64 characters, all hexadecimal digits.
pub fn is_valid_key(key: &str) -> (r: bool)
    ensures
        r == spec_valid_key(key@),
{
    let n = key.unicode_len();
    if n != 64 {
        return false;
    }
    let mut i: usize = 0;
    while i < n
        invariant
            0 <= i <= n,
            n == key@.len(),
            n == 64,
            forall|j: int| 0 <= j < i ==> is_ascii_hex_digit(key@[j]),
        decreases n - i,
    {
        if !char_is_hex_digit(key.get_char(i)) {
            return false;
        }
        i = i + 1;
    }
    true
}

/// Validates the key, then stores it.  An invalid key is rejected before the
/// vault is touched: the vault is unchanged on every validation failure.
pub fn store_encryption_key(vault: &mut CredentialVault, key: &str) -> (r: Result<(), String>)
    ensures
        key@.len() != 64 ==> (r matches Err(m) && m@ == invalid_length_text(key@.len() as int))
            && *final(vault) == *old(vault),
        key@.len() == 64 && !spec_valid_key(key@) ==> (r matches Err(m) && m@
            == invalid_format_text()) && *final(vault) == *old(vault),
        spec_valid_key(key@) && !old(vault).is_supported() ==> (r matches Err(m) && m@
            == platform_text()) && *final(vault) == *old(vault),
        spec_valid_key(key@) && old(vault).is_supported() ==> r is Ok
            && final(vault).is_supported() && final(vault).entry_view() == Some(key@),
{
    let n = key.unicode_len();
    if n != 64 {
        let mut m = String::from_str("Invalid key length. Expected 64 characters, got ");
        m.append(decimal_string(n as u64).as_str());
        return Err(m);
    }
    if !is_valid_key(key) {
        return Err(String::from_str("Invalid key format. Key must be hexadecimal"));
    }
    match vault.store(key) {
        Ok(()) => Ok(()),
        Err(e) => Err(e.message),
    }
}

/// Reads the stored key; a missing entry surfaces as the not-found message,
/// unmasked.
pub fn get_encryption_key(vault: &CredentialVault) -> (r: Result<String, String>)
    ensures
        !vault.is_supported() ==> (r matches Err(m) && m@ == platform_text()),
        vault.is_supported() && vault.entry_view() is None ==> (r matches Err(m) && m@
            == not_found_text()),
        vault.is_supported() ==> (vault.entry_view() matches Some(k) ==> (r matches Ok(s) && s@
            == k)),
{
    match vault.read() {
        Ok(k) => Ok(k),
        Err(e) => Err(e.message),
    }
}

/// Generates a fresh key and stores it, replacing any present entry.
pub fn generate_and_store_encryption_key(vault: &mut CredentialVault) -> (r: Result<
    String,
    String,
>)
    ensures
        !old(vault).is_supported() ==> (r matches Err(m) && m@ == platform_text()) && *final(vault)
            == *old(vault),
        old(vault).is_supported() ==> (r matches Ok(k) && spec_valid_key(k@)
            && final(vault).is_supported() && final(vault).entry_view() == Some(k@)),
{
    let key = generate_encryption_key();
    match vault.store(key.as_str()) {
        Ok(()) => Ok(key),
        Err(e) => Err(e.message),
    }
}

/// Deletes the stored key, propagating vault failures.
pub fn delete_encryption_key(vault: &mut CredentialVault) -> (r: Result<(), String>)
    ensures
        !old(vault).is_supported() ==> (r matches Err(m) && m@ == platform_text()) && *final(vault)
            == *old(vault),
        old(vault).is_supported() && old(vault).entry_view() is None ==> (r matches Err(m) && m@
            == delete_failed_text()) && *final(vault) == *old(vault),
        old(vault).is_supported() && old(vault).entry_view() is Some ==> r is Ok
            && final(vault).is_supported() && final(vault).entry_view() is None,
{
    match vault.delete() {
        Ok(()) => Ok(()),
        Err(e) => Err(e.message),
    }
}

/// Whether a key is stored.  `false` exactly when the vault's read would fail
/// with the not-found error; every other read failure propagates as an error,
/// never as `false`.
pub fn encryption_key_exists(vault: &CredentialVault) -> (r: Result<bool, String>)
    ensures
        vault.is_supported() ==> r == Result::<bool, String>::Ok(vault.entry_view() is Some),
        !vault.is_supported() ==> (r matches Err(m) && m@ == platform_text()),
{
    proof {
        reveal_strlit("PLATFORM_NOT_SUPPORTED");
        reveal_strlit("KEY_NOT_FOUND");
        assert("PLATFORM_NOT_SUPPORTED"@ != "KEY_NOT_FOUND"@) by {
            assert("PLATFORM_NOT_SUPPORTED"@.len() != "KEY_NOT_FOUND"@.len());
        }
    }
    match vault.read() {
        Ok(_) => Ok(true),
        Err(e) => {
            if crate::strutil::str_eq(e.code.as_str(), "KEY_NOT_FOUND") {
                Ok(false)
            } else {
                Err(e.message)
            }
        },
    }
}

/// Idempotent bootstrap: returns the stored key unchanged when one exists,
/// and only when the entry is absent generates, stores and returns a fresh
/// one.  Safe to call on every startup: a present key is never overwritten.
pub fn initialize_encryption(vault: &mut CredentialVault) -> (r: Result<String, String>)
    ensures
        !old(vault).is_supported() ==> (r matches Err(m) && m@ == platform_text()) && *final(vault)
            == *old(vault),
        old(vault).is_supported() ==> (old(vault).entry_view() matches Some(k) ==> (r matches Ok(s)
            && s@ == k) && *final(vault) == *old(vault)),
        old(vault).is_supported() && old(vault).entry_view() is None ==> (r matches Ok(s)
            && spec_valid_key(s@) && final(vault).is_supported() && final(vault).entry_view()
            == Some(s@)),
{
    proof {
        reveal_strlit("PLATFORM_NOT_SUPPORTED");
        reveal_strlit("KEY_NOT_FOUND");
        assert("PLATFORM_NOT_SUPPORTED"@ != "KEY_NOT_FOUND"@) by {
            assert("PLATFORM_NOT_SUPPORTED"@.len() != "KEY_NOT_FOUND"@.len());
        }
    }
    match vault.read() {
        Ok(key) => Ok(key),
        Err(e) => {
            if crate::strutil::str_eq(e.code.as_str(), "KEY_NOT_FOUND") {
                let key = generate_encryption_key();
                match vault.store(key.as_str()) {
                    Ok(()) => Ok(key),
                    Err(e2) => Err(e2.message),
                }
            } else {
                Err(e.message)
            }
        },
    }
}

/// Stores a key in the platform credential store.  This build targets a
/// platform without one, so the call always reports the unsupported-platform
/// failure rather than aborting.
pub fn store_key_windows(_key: &str) -> (r: Result<(), EncryptionKeyError>)
    ensures
        r matches Err(e) && is_platform_error(e),
{
    Err(platform_error())
}

/// Reads the key from the platform credential store; see `store_key_windows`.
pub fn get_key_windows() -> (r: Result<String, EncryptionKeyError>)
    ensures
        r matches Err(e) && is_platform_error(e),
{
    Err(platform_error())
}

/// Deletes the key from the platform credential store; see
/// `store_key_windows`.
pub fn delete_key_windows() -> (r: Result<(), EncryptionKeyError>)
    ensures
        r matches Err(e) && is_platform_error(e),
{
    Err(platform_error())
}

/// What `String::from_utf16_lossy` yields: a function of the code units
/// alone.
pub uninterp spec fn utf16_lossy(w: Seq<u16>) -> Seq<char>;

/// Relies on String::from_utf16_lossy: the decoding depends on the code units
/// alone.
#[verifier::external_body]
fn decode_utf16_lossy(w: &[u16]) -> (r: String)
    ensures
        r@ == utf16_lossy(w@),
{
    String::from_utf16_lossy(w)
}

/// Index of the first zero code unit, or the length when none occurs.
pub open spec fn spec_first_nul(w: Seq<u16>) -> int
    decreases w.len(),
{
    if w.len() == 0 {
        0
    } else if w[0] == 0 {
        0
    } else {
        1 + spec_first_nul(w.drop_first())
    }
}

pub proof fn lemma_first_nul_at(w: Seq<u16>, i: int)
    requires
        0 <= i <= w.len(),
        forall|j: int| 0 <= j < i ==> w[j] != 0,
        i < w.len() ==> w[i] == 0,
    ensures
        spec_first_nul(w) == i,
    decreases i,
{
    if i == 0 {
    } else {
        lemma_first_nul_at(w.drop_first(), i - 1);
    }
}

/// Decodes a nul-terminated UTF-16 buffer, as the platform credential store
/// hands names back: everything before the first zero code unit, decoded
/// lossily.
pub fn wide_to_string(wide: &[u16]) -> (r: String)
    ensures
        r@ == utf16_lossy(wide@.take(spec_first_nul(wide@))),
{
    let n = wide.len();
    let mut i: usize = 0;
    while i < n && *slice_index_get(wide, i) != 0
        invariant
            0 <= i <= n,
            n == wide@.len(),
            forall|j: int| 0 <= j < i ==> wide@[j] != 0,
        decreases n - i,
    {
        i = i + 1;
    }
    let prefix = slice_subrange(wide, 0, i);
    proof {
        lemma_first_nul_at(wide@, i as int);
        assert(wide@.subrange(0, i as int) =~= wide@.take(spec_first_nul(wide@)));
    }
    decode_utf16_lossy(prefix)
}

} // verus!
