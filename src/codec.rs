//! Authenticated encryption of chat messages with AES-256-GCM.
//!
//! A message is sealed under a 32-byte key and a fresh 12-byte nonce; the
//! ciphertext carries the 16-byte authentication tag at its end.

use vstd::prelude::*;

verus! {

/// Length in bytes of an AES-256 key.
pub const KEY_LEN: usize = 32;

/// Length in bytes of a GCM nonce.
pub const NONCE_LEN: usize = 12;

/// Length in bytes of the authentication tag appended to every ciphertext.
pub const TAG_LEN: usize = 16;

/// Longest plaintext that AES-GCM accepts (2^36 bytes).
pub const MAX_PLAINTEXT_LEN: u64 = 68719476736;

/// The ciphertext (tag included) that AES-256-GCM produces for `msg` under
/// `key` and `nonce`, with no associated data.
pub uninterp spec fn aes256gcm_seal(key: Seq<u8>, nonce: Seq<u8>, msg: Seq<u8>) -> Seq<u8>;

/// What AES-256-GCM decryption of `ct` under `key` and `nonce` yields: the
/// plaintext when the tag verifies, `None` otherwise.
pub uninterp spec fn aes256gcm_open(key: Seq<u8>, nonce: Seq<u8>, ct: Seq<u8>) -> Option<Seq<u8>>;

/// Decryption failed: the tag did not verify for this key and nonce.
#[derive(Debug, Clone, Copy, PartialEq, Eq, Structural)]
pub struct AuthenticationError;

/// The error of `aes_gcm` (`aead::Error`), carried opaque: it holds nothing.
#[verifier::external_type_specification]
#[verifier::external_body]
pub struct ExAeadError(aes_gcm::Error);

/// Relies on `Aead::encrypt` of `aes_gcm::Aes256Gcm` (no associated data):
/// it fails only on a message longer than `P_MAX` (2^36 bytes), and otherwise
/// returns the encrypted message followed by the 16-byte tag.
#[verifier::external_body]
fn aead_seal(key: &[u8; 32], nonce: &[u8; 12], msg: &[u8]) -> (r: Result<Vec<u8>, aes_gcm::Error>)
    ensures
        r is Ok <==> msg@.len() <= MAX_PLAINTEXT_LEN,
        r matches Ok(c) ==> c@ == aes256gcm_seal(key@, nonce@, msg@),
        r matches Ok(c) ==> c@.len() == msg@.len() + TAG_LEN,
{
    let key = aes_gcm::Key::<aes_gcm::Aes256Gcm>::from_slice(key);
    let cipher = <aes_gcm::Aes256Gcm as aes_gcm::KeyInit>::new(key);
    aes_gcm::aead::Aead::encrypt(&cipher, aes_gcm::Nonce::from_slice(nonce), msg)
}

/// Relies on `Aead::decrypt` of `aes_gcm::Aes256Gcm` (no associated data):
/// it recomputes the tag over the ciphertext and returns the decrypted bytes
/// only when the tag matches, so a ciphertext that `Aead::encrypt` produced
/// under the same key and nonce comes back as the original message.
#[verifier::external_body]
fn aead_open(key: &[u8; 32], nonce: &[u8; 12], ct: &[u8]) -> (r: Result<Vec<u8>, aes_gcm::Error>)
    ensures
        match r {
            Ok(p) => aes256gcm_open(key@, nonce@, ct@) == Some(p@),
            Err(_) => aes256gcm_open(key@, nonce@, ct@) is None,
        },
        r matches Ok(p) ==> p@.len() + TAG_LEN == ct@.len(),
        forall|m: Seq<u8>|
            m.len() <= MAX_PLAINTEXT_LEN && ct@ == #[trigger] aes256gcm_seal(key@, nonce@, m)
                ==> (r is Ok && r->Ok_0@ == m),
{
    let key = aes_gcm::Key::<aes_gcm::Aes256Gcm>::from_slice(key);
    let cipher = <aes_gcm::Aes256Gcm as aes_gcm::KeyInit>::new(key);
    aes_gcm::aead::Aead::decrypt(&cipher, aes_gcm::Nonce::from_slice(nonce), ct)
}

/// Relies on rand's `thread_rng()` and `Rng::fill`: twelve bytes from the
/// thread-local cryptographically secure generator. Nothing is known of them.
#[verifier::external_body]
pub(crate) fn random_nonce() -> (r: [u8; 12]) {
    let mut nonce = [0u8; 12];
    rand::Rng::fill(&mut rand::thread_rng(), &mut nonce);
    nonce
}

/// Seals `msg` under `key_bytes` with the given nonce. Deterministic: the
/// same key, nonce and message always give the same ciphertext.
pub fn encrypt_with_nonce(msg: &[u8], nonce: &[u8; 12], key_bytes: &[u8; 32]) -> (r: Vec<u8>)
    requires
        msg@.len() <= MAX_PLAINTEXT_LEN,
    ensures
        r@ == aes256gcm_seal(key_bytes@, nonce@, msg@),
        r@.len() == msg@.len() + TAG_LEN,
{
    match aead_seal(key_bytes, nonce, msg) {
        Ok(c) => c,
        Err(_) => {
            proof {
                assert(false);
            }
            Vec::new()
        },
    }
}

/// Encrypts `msg` under `key_bytes` with a freshly drawn random nonce, and
/// returns the ciphertext (tag included) together with that nonce.
pub fn encrypt_message(msg: &[u8], key_bytes: &[u8; 32]) -> (r: (Vec<u8>, [u8; 12]))
    requires
        msg@.len() <= MAX_PLAINTEXT_LEN,
    ensures
        r.0@ == aes256gcm_seal(key_bytes@, r.1@, msg@),
        r.0@.len() == msg@.len() + TAG_LEN,
{
    let nonce = random_nonce();
    let ciphertext = encrypt_with_nonce(msg, &nonce, key_bytes);
    (ciphertext, nonce)
}

/// Decrypts `ciphertext` under `key_bytes` and `nonce`. Fails with
/// `AuthenticationError` exactly when the tag does not verify; a ciphertext
/// that `encrypt_with_nonce` produced under the same key and nonce always
/// decrypts to the original message.
pub fn decrypt_message(ciphertext: &[u8], nonce: [u8; 12], key_bytes: &[u8; 32]) -> (r: Result<
    Vec<u8>,
    AuthenticationError,
>)
    ensures
        r is Ok <==> aes256gcm_open(key_bytes@, nonce@, ciphertext@) is Some,
        r matches Ok(p) ==> aes256gcm_open(key_bytes@, nonce@, ciphertext@) == Some(p@),
        r matches Ok(p) ==> p@.len() + TAG_LEN == ciphertext@.len(),
        forall|m: Seq<u8>|
            m.len() <= MAX_PLAINTEXT_LEN && ciphertext@ == #[trigger] aes256gcm_seal(
                key_bytes@,
                nonce@,
                m,
            ) ==> (r is Ok && r->Ok_0@ == m),
{
    match aead_open(key_bytes, &nonce, ciphertext) {
        Ok(p) => Ok(p),
        Err(_) => Err(AuthenticationError),
    }
}

} // verus!
