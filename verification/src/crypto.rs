//! Encryption of cached payloads with AES-256-GCM under a key derived from
//! the configured secret by SHA-256.

use vstd::prelude::*;

use aes_gcm::aead::rand_core::RngCore;
use aes_gcm::aead::{Aead, KeyInit, OsRng};
use aes_gcm::{Aes256Gcm, Key, Nonce};

use crate::digest::{sha256_compute, sha256_digest};

verus! {

/// Length of an AES-GCM nonce, in bytes.
pub const NONCE_LEN: usize = 12;

/// Length of the authentication tag that AES-GCM appends, in bytes.
pub const TAG_LEN: usize = 16;

/// Longest plaintext AES-GCM encrypts, in bytes (`aes_gcm::P_MAX`).
pub const PLAINTEXT_MAX: u64 = 68719476736;

/// The ciphertext (with its tag) that AES-256-GCM gives for the key, the
/// nonce and the plaintext, with no associated data; none when it refuses.
pub uninterp spec fn aes256gcm_encrypt(key: Seq<u8>, nonce: Seq<u8>, plaintext: Seq<u8>) -> Option<
    Seq<u8>,
>;

/// The plaintext AES-256-GCM recovers from the ciphertext (with its tag),
/// with no associated data; none when authentication fails.
pub uninterp spec fn aes256gcm_decrypt(key: Seq<u8>, nonce: Seq<u8>, ciphertext: Seq<u8>) -> Option<
    Seq<u8>,
>;

/// The bytes of an optional byte vector.
pub open spec fn opt_bytes(o: Option<Vec<u8>>) -> Option<Seq<u8>> {
    match o {
        Some(v) => Some(v@),
        None => None,
    }
}

/// Calls `Aead::encrypt` of `aes_gcm::Aes256Gcm` built from `key`, with no
/// associated data. Trusted: the result is `aes256gcm_encrypt` of the
/// arguments; it is refused exactly when the plaintext is longer than
/// `PLAINTEXT_MAX` (the crate's `P_MAX` check); otherwise it is the
/// plaintext's length plus the 16-byte tag, and decrypting it with the same
/// key and nonce gives the plaintext back (the AEAD's correctness).
#[verifier::external_body]
fn aes_gcm_seal(key: &[u8], nonce: &[u8], plaintext: &[u8]) -> (r: Option<Vec<u8>>)
    requires
        key@.len() == 32,
        nonce@.len() == NONCE_LEN,
    ensures
        opt_bytes(r) == aes256gcm_encrypt(key@, nonce@, plaintext@),
        r is Some <==> plaintext@.len() <= PLAINTEXT_MAX,
        r matches Some(c) ==> c@.len() == plaintext@.len() + TAG_LEN,
        r matches Some(c) ==> aes256gcm_decrypt(key@, nonce@, c@) == Some(plaintext@),
{
    let cipher = Aes256Gcm::new(Key::<Aes256Gcm>::from_slice(key));
    cipher.encrypt(Nonce::from_slice(nonce), plaintext).ok()
}

/// Calls `Aead::decrypt` of `aes_gcm::Aes256Gcm` built from `key`, with no
/// associated data. Trusted: the result is `aes256gcm_decrypt` of the
/// arguments, and a ciphertext shorter than the 16-byte tag is refused.
#[verifier::external_body]
fn aes_gcm_open(key: &[u8], nonce: &[u8], ciphertext: &[u8]) -> (r: Option<Vec<u8>>)
    requires
        key@.len() == 32,
        nonce@.len() == NONCE_LEN,
    ensures
        opt_bytes(r) == aes256gcm_decrypt(key@, nonce@, ciphertext@),
        ciphertext@.len() < TAG_LEN ==> r is None,
{
    let cipher = Aes256Gcm::new(Key::<Aes256Gcm>::from_slice(key));
    cipher.decrypt(Nonce::from_slice(nonce), ciphertext).ok()
}

/// Fills a 12-byte AES-GCM nonce with `RngCore::try_fill_bytes` of the
/// operating system's random source (`OsRng`, from `rand_core`). Trusted:
/// when it succeeds the nonce has 12 bytes; nothing is said of their
/// values, nor of when the operating system fails to supply them (then the
/// result is none).
#[verifier::external_body]
fn random_nonce() -> (n: Option<Vec<u8>>)
    ensures
        n matches Some(v) ==> v@.len() == NONCE_LEN,
{
    let mut nonce = aes_gcm::aead::Nonce::<Aes256Gcm>::default();
    match OsRng.try_fill_bytes(&mut nonce) {
        Ok(()) => Some(nonce.to_vec()),
        Err(_) => None,
    }
}

/// The 256-bit key derived from the configured secret: SHA-256 of its UTF-8 bytes.
pub open spec fn cipher_key(secret: Seq<char>) -> Seq<u8> {
    sha256_digest(vstd::utf8::encode_utf8(secret))
}

/// Derives the encryption key from the configured secret.
pub fn derive_key(secret: &str) -> (k: Vec<u8>)
    ensures
        k@ == cipher_key(secret@),
        k@.len() == 32,
{
    sha256_compute(secret.as_bytes())
}

/// What decrypting a stored blob (nonce followed by ciphertext) gives: none
/// for a blob too short to hold the nonce and the tag.
pub open spec fn decrypt_blob(secret: Seq<char>, blob: Seq<u8>) -> Option<Seq<u8>> {
    if blob.len() < NONCE_LEN + TAG_LEN {
        None
    } else {
        aes256gcm_decrypt(
            cipher_key(secret),
            blob.subrange(0, NONCE_LEN as int),
            blob.subrange(NONCE_LEN as int, blob.len() as int),
        )
    }
}

/// Decrypts a stored blob: its first 12 bytes are the nonce, the rest the
/// ciphertext with its tag. A blob too short to hold a nonce and a tag, or one that fails
/// authentication, gives none.
pub fn decrypt(secret: &str, blob: &[u8]) -> (r: Option<Vec<u8>>)
    ensures
        opt_bytes(r) == decrypt_blob(secret@, blob@),
        blob@.len() < NONCE_LEN + TAG_LEN ==> r is None,
{
    if blob.len() < NONCE_LEN {
        return None;
    }
    let key = derive_key(secret);
    let (nonce, ciphertext) = blob.split_at(NONCE_LEN);
    aes_gcm_open(key.as_slice(), nonce, ciphertext)
}

/// The blob that encrypting `plaintext` under `secret` with `nonce` gives:
/// the nonce followed by the AES-256-GCM ciphertext with its tag; none when
/// AES-GCM refuses the plaintext.
pub open spec fn sealed_blob(secret: Seq<char>, nonce: Seq<u8>, plaintext: Seq<u8>) -> Option<
    Seq<u8>,
> {
    match aes256gcm_encrypt(cipher_key(secret), nonce, plaintext) {
        Some(ct) => Some(nonce + ct),
        None => None,
    }
}

/// Encrypts a payload with the given 12-byte nonce; the blob is the nonce
/// followed by the ciphertext with its tag. It fails exactly when the
/// payload is too long for AES-GCM. Decrypting the blob with the same secret
/// gives the payload back.
pub fn encrypt_with_nonce(secret: &str, nonce: &[u8], plaintext: &[u8]) -> (r: Option<Vec<u8>>)
    requires
        nonce@.len() == NONCE_LEN,
    ensures
        r is Some <==> plaintext@.len() <= PLAINTEXT_MAX,
        opt_bytes(r) == sealed_blob(secret@, nonce@, plaintext@),
        r matches Some(blob) ==> {
            &&& blob@.len() == NONCE_LEN + plaintext@.len() + TAG_LEN
            &&& decrypt_blob(secret@, blob@) == Some(plaintext@)
        },
{
    let key = derive_key(secret);
    match aes_gcm_seal(key.as_slice(), nonce, plaintext) {
        Some(ciphertext) => {
            let ghost ct = ciphertext@;
            let mut result: Vec<u8> = Vec::new();
            result.extend_from_slice(nonce);
            assert(result@ =~= nonce@);
            let mut ciphertext = ciphertext;
            result.append(&mut ciphertext);
            assert(result@ =~= nonce@ + ct);
            assert(result@.subrange(0, NONCE_LEN as int) =~= nonce@);
            assert(result@.subrange(NONCE_LEN as int, result@.len() as int) =~= ct);
            Some(result)
        },
        None => None,
    }
}

/// A fresh random nonce when a secret is configured (none without one).
/// With a secret, nothing comes back only when the operating system cannot
/// supply random bytes.
pub fn nonce_for(encryption_key: &Option<String>) -> (n: Option<Vec<u8>>)
    ensures
        encryption_key is None ==> n is None,
        n matches Some(v) ==> v@.len() == NONCE_LEN,
{
    match encryption_key {
        Some(_) => random_nonce(),
        None => None,
    }
}

/// Encrypts a payload under a fresh random nonce (see
/// [`encrypt_with_nonce`]). Nothing comes back when the payload is too long
/// for AES-GCM, or when no random nonce can be had.
pub fn encrypt(secret: &str, plaintext: &[u8]) -> (r: Option<Vec<u8>>)
    ensures
        plaintext@.len() > PLAINTEXT_MAX ==> r is None,
        r matches Some(blob) ==> {
            &&& blob@.len() == NONCE_LEN + plaintext@.len() + TAG_LEN
            &&& opt_bytes(r) == sealed_blob(
                secret@,
                blob@.subrange(0, NONCE_LEN as int),
                plaintext@,
            )
            &&& decrypt_blob(secret@, blob@) == Some(plaintext@)
        },
{
    match random_nonce() {
        Some(nonce) => {
            let r = encrypt_with_nonce(secret, nonce.as_slice(), plaintext);
            proof {
                if r is Some {
                    assert(r->0@.subrange(0, NONCE_LEN as int) =~= nonce@);
                }
            }
            r
        },
        None => None,
    }
}

} // verus!
