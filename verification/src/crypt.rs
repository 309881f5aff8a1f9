use vstd::prelude::*;
use aes_gcm::aead::{Aead, KeyInit};
use rand::RngCore;

use crate::chars::{chars_to_string, str_to_chars};

verus! {

/// The size of an AES-GCM nonce, in bytes.
pub const NONCE_LEN: usize = 12;

/// The size of an AES-GCM authentication tag, in bytes.
pub const TAG_LEN: usize = 16;

/// The ciphertext, tag appended, that AES-256-GCM makes of `plaintext` under `key` and
/// `nonce`, with no associated data.
pub uninterp spec fn aes256gcm_seal(key: Seq<u8>, nonce: Seq<u8>, plaintext: Seq<u8>) -> Seq<u8>;

/// Encrypts with `Aes256Gcm::encrypt` (no associated data).
/// Trusted: as the crate's source shows, encryption fails exactly when the plaintext is
/// longer than 2^36 bytes; otherwise the result is the ciphertext, as long as the
/// plaintext, followed by the 16-byte tag (named, not spelled out).
#[verifier::external_body]
fn aes256gcm_encrypt(key: &[u8; 32], nonce: &[u8; 12], plaintext: &[u8]) -> (r: Option<Vec<u8>>)
    ensures
        r is Some <==> plaintext@.len() <= 0x10_0000_0000,
        r is Some ==> r->Some_0@ == aes256gcm_seal(key@, nonce@, plaintext@),
        r is Some ==> r->Some_0@.len() == plaintext@.len() + 16,
{
    let cipher = aes_gcm::Aes256Gcm::new(aes_gcm::Key::<aes_gcm::Aes256Gcm>::from_slice(key));
    cipher.encrypt(aes_gcm::Nonce::from_slice(nonce), plaintext).ok()
}

/// Fills a 32-byte array from the thread's random generator (`RngCore::fill_bytes`).
/// Trusted; the bytes depend on chance and nothing is stated of them.
#[verifier::external_body]
fn random_32() -> [u8; 32] {
    let mut b = [0u8; 32];
    rand::thread_rng().fill_bytes(&mut b);
    b
}

/// Fills a 12-byte array from the thread's random generator (`RngCore::fill_bytes`).
/// Trusted; the bytes depend on chance and nothing is stated of them.
#[verifier::external_body]
fn random_12() -> [u8; 12] {
    let mut b = [0u8; 12];
    rand::thread_rng().fill_bytes(&mut b);
    b
}

/// A fresh random key.
pub fn new_key() -> [u8; 32] {
    random_32()
}

/// What is written for a file: the nonce, then the ciphertext with its tag.
pub open spec fn sealed_file(key: Seq<u8>, nonce: Seq<u8>, content: Seq<u8>) -> Seq<u8> {
    nonce + aes256gcm_seal(key, nonce, content)
}

/// The file written for a content is its nonce followed by the content encrypted under
/// that same nonce, so it decrypts with its own first 12 bytes as the nonce.
pub proof fn lemma_sealed_file_carries_its_nonce(key: Seq<u8>, nonce: Seq<u8>, content: Seq<u8>)
    requires
        nonce.len() == NONCE_LEN,
    ensures
        sealed_file(key, nonce, content).take(12) == nonce,
        sealed_file(key, nonce, content).skip(12) == aes256gcm_seal(
            key,
            sealed_file(key, nonce, content).take(12),
            content,
        ),
{
    let f = sealed_file(key, nonce, content);
    assert(f.take(12) =~= nonce);
    assert(f.skip(12) =~= aes256gcm_seal(key, nonce, content));
}

/// Encrypts `content` under `key` and `nonce` and frames it as the nonce followed by the
/// ciphertext; `None` where the content is too long for AES-GCM.
pub fn seal_with_nonce(key: &[u8; 32], nonce: [u8; 12], content: &[u8]) -> (r: Option<Vec<u8>>)
    ensures
        r is Some <==> content@.len() <= 0x10_0000_0000,
        r is Some ==> r->Some_0@ == sealed_file(key@, nonce@, content@),
        r is Some ==> r->Some_0@.len() == NONCE_LEN + content@.len() + TAG_LEN,
        r is Some ==> r->Some_0@.take(12) == nonce@,
        r is Some ==> r->Some_0@.skip(12) == aes256gcm_seal(key@, r->Some_0@.take(12), content@),
{
    let ct = aes256gcm_encrypt(key, &nonce, content)?;
    let mut out: Vec<u8> = Vec::new();
    let mut i: usize = 0;
    while i < 12
        invariant
            i <= 12,
            out@ == nonce@.take(i as int),
        decreases 12 - i,
    {
        out.push(nonce[i]);
        assert(nonce@.take(i + 1) == nonce@.take(i as int).push(nonce@[i as int]));
        i = i + 1;
    }
    let mut j: usize = 0;
    while j < ct.len()
        invariant
            j <= ct@.len(),
            out@ == nonce@ + ct@.take(j as int),
        decreases ct.len() - j,
    {
        out.push(ct[j]);
        assert(ct@.take(j + 1) == ct@.take(j as int).push(ct@[j as int]));
        j = j + 1;
    }
    assert(nonce@.take(12) == nonce@);
    assert(ct@.take(ct@.len() as int) == ct@);
    assert(out@.take(12) == nonce@);
    assert(out@.skip(12) == ct@);
    Some(out)
}

/// Encrypts a file's content under `key` with a fresh random nonce; the result is the
/// nonce followed by the ciphertext and tag, `None` where the content is too long.
pub fn encrypt_content(key: &[u8; 32], content: &[u8]) -> (r: Option<Vec<u8>>)
    ensures
        r is Some <==> content@.len() <= 0x10_0000_0000,
        r is Some ==> exists|nonce: Seq<u8>|
            nonce.len() == NONCE_LEN && r->Some_0@ == #[trigger] sealed_file(key@, nonce, content@),
        r is Some ==> r->Some_0@.len() == NONCE_LEN + content@.len() + TAG_LEN,
        r is Some ==> r->Some_0@.skip(12) == aes256gcm_seal(key@, r->Some_0@.take(12), content@),
{
    let nonce = random_12();
    seal_with_nonce(key, nonce, content)
}

/// The name of the encrypted copy of a file: its name with `.data` appended.
pub fn encrypted_file_name(name: &str) -> (r: String)
    ensures
        r@ == name@ + ".data"@,
{
    let mut v = str_to_chars(name);
    let ext = str_to_chars(".data");
    let ghost start = v@;
    let mut i: usize = 0;
    while i < ext.len()
        invariant
            i <= ext@.len(),
            v@ == start + ext@.take(i as int),
        decreases ext.len() - i,
    {
        v.push(ext[i]);
        assert(ext@.take(i + 1) == ext@.take(i as int).push(ext@[i as int]));
        i = i + 1;
    }
    assert(ext@.take(ext@.len() as int) == ext@);
    chars_to_string(&v)
}

} // verus!
