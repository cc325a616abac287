use aes_gcm::aead::{Aead, KeyInit};
use vstd::prelude::*;
use vstd::utf8::*;

use crate::hexcode::{hex_decoded, hex_lower, lemma_hex_round_trip};

verus! {

/// Length in bytes of a master key (256 bits).
pub const KEY_LEN: usize = 32;

/// Length in bytes of the nonce that leads every stored ciphertext.
pub const NONCE_LEN: usize = 12;

/// Length in bytes of the authentication tag that AES-GCM appends.
pub const TAG_LEN: usize = 16;

/// The longest plaintext, in bytes, that AES-GCM seals.
pub const MAX_PLAINTEXT_LEN: u64 = 68719476736;

/// What AES-256-GCM produces for a key, a nonce and a plaintext (tag appended).
pub uninterp spec fn gcm_sealed(key: Seq<u8>, nonce: Seq<u8>, plaintext: Seq<u8>) -> Seq<u8>;

/// What AES-256-GCM recovers from a key, a nonce and a ciphertext, if it authenticates.
pub uninterp spec fn gcm_opened(key: Seq<u8>, nonce: Seq<u8>, ciphertext: Seq<u8>) -> Option<
    Seq<u8>,
>;

/// The single symmetric secret under which stored credentials are encrypted.
#[derive(Clone, Copy)]
pub struct MasterKey {
    pub bytes: [u8; 32],
}

impl View for MasterKey {
    type V = Seq<u8>;

    open spec fn view(&self) -> Seq<u8> {
        self.bytes@
    }
}

/// Why a stored value could not be decrypted.
#[derive(Debug, Clone, Copy, PartialEq, Eq, Structural)]
pub enum CryptoError {
    /// The value is not hexadecimal text framing a nonce and a ciphertext.
    NotCiphertext,
    /// The ciphertext does not authenticate under the key.
    Rejected,
    /// The recovered plaintext is not UTF-8 text.
    NotText,
    /// The plaintext is longer than the cipher accepts.
    TooLong,
}

/// The text stored for `plaintext` sealed under `key` with `nonce`:
/// the nonce followed by the sealed bytes, in lower-case hexadecimal.
pub open spec fn ciphertext_for(key: Seq<u8>, nonce: Seq<u8>, plaintext: Seq<char>) -> Seq<char> {
    hex_lower(nonce + gcm_sealed(key, nonce, encode_utf8(plaintext)))
}

/// What decrypting the stored text `s` under `key` gives.
pub open spec fn decryption(key: Seq<u8>, s: Seq<char>) -> Result<Seq<char>, CryptoError> {
    match hex_decoded(s) {
        None => Err(CryptoError::NotCiphertext),
        Some(b) => if b.len() < NONCE_LEN {
            Err(CryptoError::NotCiphertext)
        } else {
            match gcm_opened(key, b.subrange(0, NONCE_LEN as int), b.subrange(NONCE_LEN as int, b.len() as int)) {
                None => Err(CryptoError::Rejected),
                Some(p) => if valid_utf8(p) {
                    Ok(decode_utf8(p))
                } else {
                    Err(CryptoError::NotText)
                },
            }
        },
    }
}

/// The length of the stored text for a plaintext: two hexadecimal digits for
/// each byte of the nonce, the UTF-8 encoded plaintext and the tag.
pub open spec fn stored_len(plaintext: Seq<char>) -> nat {
    2 * (NONCE_LEN + encode_utf8(plaintext).len() + TAG_LEN) as nat
}

/// A text takes at least as many UTF-8 bytes as it has characters.
pub proof fn lemma_utf8_len(chars: Seq<char>)
    ensures
        encode_utf8(chars).len() >= chars.len(),
    decreases chars.len(),
{
    if chars.len() > 0 {
        lemma_utf8_len(chars.drop_first());
    }
}

/// Whether `s` decrypts under `key`.
pub open spec fn decrypts(key: Seq<u8>, s: Seq<char>) -> bool {
    decryption(key, s) is Ok
}

/// Whether `plaintext` is short enough to be sealed.
pub open spec fn sealable(plaintext: Seq<char>) -> bool {
    encode_utf8(plaintext).len() <= MAX_PLAINTEXT_LEN
}

/// Relies on rand::random: a value drawn from the thread-local generator, of which
/// nothing is promised.
pub assume_specification<T>[ rand::random::<T> ]() -> (r: T)
    where
        rand::distributions::Standard: rand::distributions::Distribution<T>,
;

/// Relies on hex::encode: two lower-case digits per byte, high nibble first.
#[verifier::external_body]
pub(crate) fn hex_encode(b: &[u8]) -> (r: String)
    ensures
        r@ == hex_lower(b@),
{
    hex::encode(b)
}

/// Relies on hex::decode: accepts exactly the texts of an even number of
/// hexadecimal digits of either case, and gives the bytes they stand for.
#[verifier::external_body]
fn hex_decode(s: &str) -> (r: Option<Vec<u8>>)
    ensures
        match r {
            Some(v) => hex_decoded(s@) == Some(v@),
            None => hex_decoded(s@) is None,
        },
{
    hex::decode(s).ok()
}

/// Relies on Aes256Gcm::encrypt (aead::Aead) with no associated data: it fails only
/// for a plaintext over 2^36 bytes, what it gives is the plaintext's length plus a
/// 16-byte tag, and it opens again under the same key and nonce to the plaintext.
#[verifier::external_body]
fn gcm_seal(key: &[u8; 32], nonce: &[u8], plaintext: &[u8]) -> (r: Option<Vec<u8>>)
    requires
        nonce@.len() == NONCE_LEN,
    ensures
        r is Some <==> plaintext@.len() <= MAX_PLAINTEXT_LEN,
        r matches Some(c) ==> c@ == gcm_sealed(key@, nonce@, plaintext@),
        r matches Some(c) ==> c@.len() == plaintext@.len() + TAG_LEN,
        r matches Some(c) ==> gcm_opened(key@, nonce@, c@) == Some(plaintext@),
{
    let cipher = aes_gcm::Aes256Gcm::new(aes_gcm::Key::<aes_gcm::Aes256Gcm>::from_slice(key));
    cipher.encrypt(aes_gcm::Nonce::from_slice(nonce), plaintext).ok()
}

/// Relies on Aes256Gcm::decrypt (aead::Aead) with no associated data.
#[verifier::external_body]
fn gcm_open(key: &[u8; 32], nonce: &[u8], ciphertext: &[u8]) -> (r: Option<Vec<u8>>)
    requires
        nonce@.len() == NONCE_LEN,
    ensures
        match r {
            Some(p) => gcm_opened(key@, nonce@, ciphertext@) == Some(p@),
            None => gcm_opened(key@, nonce@, ciphertext@) is None,
        },
{
    let cipher = aes_gcm::Aes256Gcm::new(aes_gcm::Key::<aes_gcm::Aes256Gcm>::from_slice(key));
    cipher.decrypt(aes_gcm::Nonce::from_slice(nonce), ciphertext).ok()
}

/// Relies on String::from_utf8: it accepts exactly the valid UTF-8 byte strings.
#[verifier::external_body]
fn utf8_text(b: Vec<u8>) -> (r: Option<String>)
    ensures
        match r {
            Some(s) => valid_utf8(b@) && s@ == decode_utf8(b@),
            None => !valid_utf8(b@),
        },
{
    String::from_utf8(b).ok()
}

/// The bytes of `src` from `start` up to `end`, as a new vector.
fn copy_range(src: &[u8], start: usize, end: usize) -> (r: Vec<u8>)
    requires
        start <= end <= src@.len(),
    ensures
        r@ == src@.subrange(start as int, end as int),
{
    let mut r: Vec<u8> = Vec::new();
    let mut i: usize = start;
    while i < end
        invariant
            start <= i <= end <= src@.len(),
            r@ == src@.subrange(start as int, i as int),
        decreases end - i,
    {
        r.push(src[i]);
        i = i + 1;
        assert(r@ =~= src@.subrange(start as int, i as int));
    }
    r
}

/// Seals `plaintext` under `key` with `nonce` and frames the result as stored text.
pub fn seal_with_nonce(key: &MasterKey, nonce: &Vec<u8>, plaintext: &str) -> (r: Result<
    String,
    CryptoError,
>)
    requires
        nonce@.len() == NONCE_LEN,
    ensures
        r is Ok <==> sealable(plaintext@),
        r matches Err(e) ==> e == CryptoError::TooLong,
        r matches Ok(c) ==> c@ == ciphertext_for(key@, nonce@, plaintext@),
        r matches Ok(c) ==> c@.len() == stored_len(plaintext@),
        r matches Ok(c) ==> c@ != plaintext@,
        r matches Ok(c) ==> decryption(key@, c@) == Ok::<Seq<char>, CryptoError>(plaintext@),
{
    let bytes = plaintext.as_bytes();
    match gcm_seal(&key.bytes, nonce.as_slice(), bytes) {
        None => Err(CryptoError::TooLong),
        Some(sealed) => {
            let mut framed: Vec<u8> = Vec::new();
            let mut i: usize = 0;
            while i < nonce.len()
                invariant
                    i <= nonce@.len(),
                    framed@ == nonce@.subrange(0, i as int),
                decreases nonce@.len() - i,
            {
                framed.push(nonce[i]);
                i = i + 1;
                assert(framed@ =~= nonce@.subrange(0, i as int));
            }
            let mut j: usize = 0;
            while j < sealed.len()
                invariant
                    j <= sealed@.len(),
                    framed@ == nonce@ + sealed@.subrange(0, j as int),
                decreases sealed@.len() - j,
            {
                framed.push(sealed[j]);
                j = j + 1;
                assert(framed@ =~= nonce@ + sealed@.subrange(0, j as int));
            }
            assert(sealed@.subrange(0, sealed@.len() as int) =~= sealed@);
            let s = hex_encode(framed.as_slice());
            proof {
                let f = framed@;
                lemma_hex_round_trip(f);
                assert(f.subrange(0, NONCE_LEN as int) =~= nonce@);
                assert(f.subrange(NONCE_LEN as int, f.len() as int) =~= sealed@);
                encode_utf8_valid_utf8(plaintext@);
                encode_utf8_decode_utf8(plaintext@);
                lemma_utf8_len(plaintext@);
            }
            Ok(s)
        },
    }
}

/// Encrypts `plaintext` under `key` with a fresh random nonce.
///
/// Succeeds for every plaintext the cipher accepts, and what it returns
/// decrypts under the same key to `plaintext`.
pub fn encrypt(key: &MasterKey, plaintext: &str) -> (r: Result<String, CryptoError>)
    ensures
        r is Ok <==> sealable(plaintext@),
        r matches Err(e) ==> e == CryptoError::TooLong,
        r matches Ok(c) ==> exists|n: Seq<u8>|
            n.len() == NONCE_LEN && c@ == #[trigger] ciphertext_for(key@, n, plaintext@),
        r matches Ok(c) ==> c@.len() == stored_len(plaintext@),
        r matches Ok(c) ==> c@ != plaintext@,
        r matches Ok(c) ==> decryption(key@, c@) == Ok::<Seq<char>, CryptoError>(plaintext@),
{
    let drawn: [u8; 12] = rand::random();
    let nonce = copy_range(drawn.as_slice(), 0, NONCE_LEN);
    seal_with_nonce(key, &nonce, plaintext)
}

/// Decrypts the stored text `ciphertext` under `key`.
pub fn decrypt(key: &MasterKey, ciphertext: &str) -> (r: Result<String, CryptoError>)
    ensures
        match r {
            Ok(p) => decryption(key@, ciphertext@) == Ok::<Seq<char>, CryptoError>(p@),
            Err(e) => decryption(key@, ciphertext@) == Err::<Seq<char>, CryptoError>(e),
        },
{
    let framed = match hex_decode(ciphertext) {
        None => {
            return Err(CryptoError::NotCiphertext);
        },
        Some(b) => b,
    };
    if framed.len() < NONCE_LEN {
        return Err(CryptoError::NotCiphertext);
    }
    let nonce = copy_range(framed.as_slice(), 0, NONCE_LEN);
    let sealed = copy_range(framed.as_slice(), NONCE_LEN, framed.len());
    match gcm_open(&key.bytes, nonce.as_slice(), sealed.as_slice()) {
        None => Err(CryptoError::Rejected),
        Some(p) => match utf8_text(p) {
            None => Err(CryptoError::NotText),
            Some(s) => Ok(s),
        },
    }
}

/// Draws a fresh random master key; nothing ties it to any other key.
pub fn generate_master_key() -> (r: MasterKey) {
    MasterKey { bytes: rand::random() }
}

impl MasterKey {
    /// The key as lower-case hexadecimal text, the form in which it is kept
    /// in the credential store.
    pub fn to_hex(&self) -> (r: String)
        ensures
            r@ == hex_lower(self@),
    {
        hex_encode(self.bytes.as_slice())
    }

    /// Reads a key back from hexadecimal text; `None` unless the text stands
    /// for exactly 32 bytes.
    pub fn from_hex(s: &str) -> (r: Option<MasterKey>)
        ensures
            match r {
                Some(k) => hex_decoded(s@) == Some(k@),
                None => !(hex_decoded(s@) matches Some(b) && b.len() == KEY_LEN),
            },
    {
        let b = match hex_decode(s) {
            None => {
                return None;
            },
            Some(b) => b,
        };
        if b.len() != KEY_LEN {
            return None;
        }
        let mut bytes: [u8; 32] = [0u8; 32];
        let mut i: usize = 0;
        while i < KEY_LEN
            invariant
                i <= KEY_LEN,
                b@.len() == KEY_LEN,
                forall|j: int| 0 <= j < i ==> bytes@[j] == b@[j],
            decreases KEY_LEN - i,
        {
            bytes[i] = b[i];
            i = i + 1;
        }
        let k = MasterKey { bytes };
        assert(k@ =~= b@);
        Some(k)
    }
}

} // verus!
