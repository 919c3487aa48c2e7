//! Sealing of credentials: key material, and the text form of a sealed secret.
//!
//! A secret is sealed with AES-256-GCM under a fresh nonce of twelve bytes.
//! The nonce is written in front of the sealed bytes and the whole is encoded
//! in base64. Opening undoes this and fails with a `CryptoError`, never with a
//! panic, on anything that was not sealed under the same key.

use aes_gcm::aead::{Aead, KeyInit};
use base64::Engine;
use rand::RngCore;
use vstd::prelude::*;
use vstd::slice::slice_subrange;
use vstd::utf8::{decode_utf8, encode_utf8, encode_utf8_decode_utf8, encode_utf8_valid_utf8, valid_utf8};
use crate::text::{is_space, trim, trimmed};

verus! {

/// The length of a key in bytes.
pub const KEY_LEN: usize = 32;

/// The length of a nonce in bytes.
pub const NONCE_LEN: usize = 12;

/// The length in bytes of the tag at the end of sealed bytes.
pub const TAG_LEN: usize = 16;

/// The longest plaintext, in bytes, that one sealing accepts.
pub const MAX_PLAIN: u64 = 0x10_0000_0000;

/// Why a secret could not be sealed or opened.
#[derive(Clone, Copy, Debug, PartialEq, Eq, Structural)]
pub enum CryptoError {
    /// The key material is not 32 bytes long.
    BadKeyLength,
    /// The nonce is not 12 bytes long.
    BadNonceLength,
    /// The text is not base64.
    Malformed,
    /// The decoded bytes are too few to hold a nonce.
    TooShort,
    /// The sealed bytes were not sealed under this key and nonce.
    Rejected,
    /// The opened bytes are not UTF-8.
    NotText,
    /// The secret is too long to be sealed.
    TooLong,
}

/// The base64 text, in the standard alphabet with padding, of `bytes`: what
/// `Engine::encode` of `base64::engine::general_purpose::STANDARD` returns.
pub uninterp spec fn base64_encoded(bytes: Seq<u8>) -> Seq<char>;

/// The bytes that the base64 text `text` stands for, if it is base64 in the
/// standard alphabet with padding: what `Engine::decode` of
/// `base64::engine::general_purpose::STANDARD` returns, without its error.
pub uninterp spec fn base64_decoded(text: Seq<char>) -> Option<Seq<u8>>;

/// The sealed form of `plain` under `key` and `nonce`, the tag at its end:
/// what `Aead::encrypt` of `aes_gcm::Aes256Gcm` returns.
pub uninterp spec fn aes_gcm_sealed(key: Seq<u8>, nonce: Seq<u8>, plain: Seq<u8>) -> Seq<u8>;

/// The plaintext of `sealed` under `key` and `nonce`, if the tag at its end
/// fits: what `Aead::decrypt` of `aes_gcm::Aes256Gcm` returns, without its
/// error.
pub uninterp spec fn aes_gcm_opened(key: Seq<u8>, nonce: Seq<u8>, sealed: Seq<u8>) -> Option<
    Seq<u8>,
>;

/// Calls `Engine::encode` of base64's `STANDARD` engine. Trusted: the result
/// is the encoding, four characters for every three bytes begun; it decodes to
/// the bytes that were put in, and it holds no whitespace. The call panics where the length of the text would not fit in
/// `usize`; the precondition leaves those inputs out.
#[verifier::external_body]
fn base64_encode(bytes: &[u8]) -> (r: String)
    requires
        bytes@.len() / 3 < usize::MAX / 4,
    ensures
        r@ == base64_encoded(bytes@),
        r@.len() == (bytes@.len() + 2) / 3 * 4,
        base64_decoded(r@) == Some(bytes@),
        forall|i: int| 0 <= i < r@.len() ==> !is_space(#[trigger] r@[i]),
{
    base64::engine::general_purpose::STANDARD.encode(bytes)
}

/// Calls `Engine::decode` of base64's `STANDARD` engine. Trusted: the result
/// is the decoding, and `None` stands for the crate's error.
#[verifier::external_body]
fn base64_decode(text: &str) -> (r: Option<Vec<u8>>)
    ensures
        match r {
            Some(bytes) => base64_decoded(text@) == Some(bytes@),
            None => base64_decoded(text@) is None,
        },
{
    base64::engine::general_purpose::STANDARD.decode(text).ok()
}

/// Calls `Aead::encrypt` of `aes_gcm::Aes256Gcm`. Trusted: the call succeeds
/// exactly on a plaintext of at most `MAX_PLAIN` bytes; the result is the
/// sealed form, sixteen bytes longer than the plaintext, and it opens under
/// the same key and nonce to the plaintext. The crate panics on a key or a
/// nonce of another length; the precondition leaves those out.
#[verifier::external_body]
fn aes_gcm_seal(key: &[u8], nonce: &[u8], plain: &[u8]) -> (r: Option<Vec<u8>>)
    requires
        key@.len() == KEY_LEN,
        nonce@.len() == NONCE_LEN,
    ensures
        r is Some <==> plain@.len() <= MAX_PLAIN,
        r matches Some(sealed) ==> {
            &&& sealed@ == aes_gcm_sealed(key@, nonce@, plain@)
            &&& sealed@.len() == plain@.len() + TAG_LEN
            &&& aes_gcm_opened(key@, nonce@, sealed@) == Some(plain@)
        },
{
    let cipher = aes_gcm::Aes256Gcm::new(aes_gcm::Key::<aes_gcm::Aes256Gcm>::from_slice(key));
    cipher.encrypt(aes_gcm::Nonce::from_slice(nonce), plain).ok()
}

/// Calls `Aead::decrypt` of `aes_gcm::Aes256Gcm`. Trusted: the result is the
/// opened form, and `None` stands for the crate's error; sealed bytes too few
/// to hold the tag of sixteen bytes are not opened, and what is opened is
/// sixteen bytes shorter than the sealed bytes. The crate panics on a
/// key or a nonce of another length; the precondition leaves those out.
#[verifier::external_body]
fn aes_gcm_open(key: &[u8], nonce: &[u8], sealed: &[u8]) -> (r: Option<Vec<u8>>)
    requires
        key@.len() == KEY_LEN,
        nonce@.len() == NONCE_LEN,
    ensures
        match r {
            Some(plain) => aes_gcm_opened(key@, nonce@, sealed@) == Some(plain@) && plain@.len()
                + TAG_LEN == sealed@.len(),
            None => aes_gcm_opened(key@, nonce@, sealed@) is None,
        },
        sealed@.len() < TAG_LEN ==> r is None,
{
    let cipher = aes_gcm::Aes256Gcm::new(aes_gcm::Key::<aes_gcm::Aes256Gcm>::from_slice(key));
    cipher.decrypt(aes_gcm::Nonce::from_slice(nonce), sealed).ok()
}

/// Calls `RngCore::fill_bytes` on `rand::rng()`. Trusted: the result has the
/// length asked for. Nothing is said of the bytes.
#[verifier::external_body]
fn random_bytes(n: usize) -> (r: Vec<u8>)
    ensures
        r@.len() == n,
{
    let mut bytes = vec![0u8; n];
    rand::rng().fill_bytes(&mut bytes);
    bytes
}

/// Calls `String::from_utf8`. Trusted: the call succeeds exactly on valid
/// UTF-8, with the text that the bytes encode.
#[verifier::external_body]
fn string_from_utf8(bytes: Vec<u8>) -> (r: Option<String>)
    ensures
        match r {
            Some(s) => valid_utf8(bytes@) && s@ == decode_utf8(bytes@),
            None => !valid_utf8(bytes@),
        },
{
    String::from_utf8(bytes).ok()
}

/// The text that opened bytes stand for.
pub open spec fn text_of(plain: Seq<u8>) -> Result<Seq<char>, CryptoError> {
    if valid_utf8(plain) {
        Ok(decode_utf8(plain))
    } else {
        Err(CryptoError::NotText)
    }
}

/// A nonce and sealed bytes as one frame: the nonce first.
pub open spec fn framed(nonce: Seq<u8>, sealed: Seq<u8>) -> Seq<u8> {
    nonce + sealed
}

/// What the frame `raw` opens to under `key`.
pub open spec fn opened_frame(key: Seq<u8>, raw: Seq<u8>) -> Result<Seq<char>, CryptoError> {
    if raw.len() < NONCE_LEN {
        Err(CryptoError::TooShort)
    } else {
        match aes_gcm_opened(key, raw.take(NONCE_LEN as int), raw.skip(NONCE_LEN as int)) {
            None => Err(CryptoError::Rejected),
            Some(plain) => text_of(plain),
        }
    }
}

/// What the stored text `text` opens to under `key`.
pub open spec fn opened_text(key: Seq<u8>, text: Seq<char>) -> Result<Seq<char>, CryptoError> {
    match base64_decoded(text) {
        None => Err(CryptoError::Malformed),
        Some(raw) => opened_frame(key, raw),
    }
}

/// The frame of `data` sealed under `key` and `nonce`: the nonce, then the
/// sealed bytes of the UTF-8 form of `data`.
pub open spec fn sealed_frame(key: Seq<u8>, nonce: Seq<u8>, data: Seq<char>) -> Seq<u8> {
    framed(nonce, aes_gcm_sealed(key, nonce, encode_utf8(data)))
}

/// The stored text of `data` sealed under `key` and `nonce`.
pub open spec fn sealed_text(key: Seq<u8>, nonce: Seq<u8>, data: Seq<char>) -> Seq<char> {
    base64_encoded(sealed_frame(key, nonce, data))
}

/// The length of the stored text of `data`: four characters for every three
/// bytes begun of the nonce, the bytes of `data` and the tag.
pub open spec fn sealed_text_len(data: Seq<char>) -> int {
    (NONCE_LEN + encode_utf8(data).len() + TAG_LEN + 2) / 3 * 4
}

/// Whether `data` is short enough to be sealed and written as text.
pub open spec fn can_seal(data: Seq<char>) -> bool {
    let n = encode_utf8(data).len();
    n <= MAX_PLAIN && (n + NONCE_LEN + TAG_LEN) / 3 < usize::MAX / 4
}

/// The key that the content `text` of a key file holds: the text is trimmed
/// and decoded, and must give 32 bytes.
pub open spec fn key_of_text(text: Seq<char>) -> Result<Seq<u8>, CryptoError> {
    match base64_decoded(trimmed(text)) {
        None => Err(CryptoError::Malformed),
        Some(bytes) => if bytes.len() == KEY_LEN {
            Ok(bytes)
        } else {
            Err(CryptoError::BadKeyLength)
        },
    }
}

/// Text that is not base64 is refused as malformed, and text that decodes to
/// fewer bytes than a nonce as too short, whatever the key.
pub proof fn lemma_open_refuses(key: Seq<u8>, text: Seq<char>)
    ensures
        base64_decoded(text) is None ==> opened_text(key, text) == Err::<Seq<char>, CryptoError>(
            CryptoError::Malformed,
        ),
        base64_decoded(text) matches Some(raw) && raw.len() < NONCE_LEN ==> opened_text(key, text)
            == Err::<Seq<char>, CryptoError>(CryptoError::TooShort),
{
}

/// Two texts whose frames begin with different nonces are different texts:
/// a sealing under a new nonce never gives the text of an earlier one.
pub proof fn lemma_nonces_tell_texts_apart(
    first: Seq<char>,
    second: Seq<char>,
    nonce1: Seq<u8>,
    nonce2: Seq<u8>,
    sealed1: Seq<u8>,
    sealed2: Seq<u8>,
)
    requires
        nonce1.len() == NONCE_LEN,
        nonce2.len() == NONCE_LEN,
        nonce1 != nonce2,
        base64_decoded(first) == Some(framed(nonce1, sealed1)),
        base64_decoded(second) == Some(framed(nonce2, sealed2)),
    ensures
        first != second,
{
    if first == second {
        assert(framed(nonce1, sealed1).take(NONCE_LEN as int) =~= nonce1);
        assert(framed(nonce2, sealed2).take(NONCE_LEN as int) =~= nonce2);
    }
}

/// Text without whitespace anywhere is its own trimmed form.
pub proof fn lemma_trimmed_fixed(s: Seq<char>)
    requires
        forall|i: int| 0 <= i < s.len() ==> !is_space(#[trigger] s[i]),
    ensures
        trimmed(s) == s,
{
}

/// Key material: 32 bytes.
pub struct KeyMaterial {
    bytes: Vec<u8>,
}

impl View for KeyMaterial {
    type V = Seq<u8>;

    closed spec fn view(&self) -> Seq<u8> {
        self.bytes@
    }
}

impl KeyMaterial {
    #[verifier::type_invariant]
    spec fn well_formed(self) -> bool {
        self.bytes@.len() == KEY_LEN
    }

    /// Key material from its bytes, which must be 32.
    pub fn from_bytes(bytes: Vec<u8>) -> (r: Result<KeyMaterial, CryptoError>)
        ensures
            match r {
                Ok(key) => bytes@.len() == KEY_LEN && key@ == bytes@,
                Err(e) => bytes@.len() != KEY_LEN && e == CryptoError::BadKeyLength,
            },
    {
        if bytes.len() == KEY_LEN {
            Ok(KeyMaterial { bytes })
        } else {
            Err(CryptoError::BadKeyLength)
        }
    }

    /// New key material from the random number generator.
    pub fn generate() -> (r: KeyMaterial)
        ensures
            r@.len() == KEY_LEN,
    {
        KeyMaterial { bytes: random_bytes(KEY_LEN) }
    }

    /// The key material that the content of a key file holds.
    pub fn decode(text: &str) -> (r: Result<KeyMaterial, CryptoError>)
        ensures
            match r {
                Ok(key) => key_of_text(text@) == Ok::<Seq<u8>, CryptoError>(key@),
                Err(e) => key_of_text(text@) == Err::<Seq<u8>, CryptoError>(e),
            },
    {
        let t = trim(text);
        match base64_decode(t.as_str()) {
            None => Err(CryptoError::Malformed),
            Some(bytes) => KeyMaterial::from_bytes(bytes),
        }
    }

    /// The content of the key file for this key material. Read back, it gives
    /// the same key.
    pub fn encode(&self) -> (r: String)
        ensures
            r@ == base64_encoded(self@),
            r@.len() == 44,
            key_of_text(r@) == Ok::<Seq<u8>, CryptoError>(self@),
    {
        proof {
            use_type_invariant(self);
        }
        let r = base64_encode(self.bytes.as_slice());
        proof {
            lemma_trimmed_fixed(r@);
        }
        r
    }

    /// The bytes of the key.
    pub fn as_bytes(&self) -> (r: &[u8])
        ensures
            r@ == self@,
            r@.len() == KEY_LEN,
    {
        proof {
            use_type_invariant(self);
        }
        self.bytes.as_slice()
    }
}

/// The key to work with, and what is to be written to the key file. Where the
/// key file exists, `stored` is its content: the key is read from it and
/// nothing is written. Where it does not, a new key is made, and its text is
/// to be written.
pub fn get_or_create_key(stored: Option<&str>) -> (r: Result<
    (KeyMaterial, Option<String>),
    CryptoError,
>)
    ensures
        match stored {
            Some(text) => match r {
                Ok((key, write)) => key_of_text(text@) == Ok::<Seq<u8>, CryptoError>(key@)
                    && write is None,
                Err(e) => key_of_text(text@) == Err::<Seq<u8>, CryptoError>(e),
            },
            None => r matches Ok((key, Some(text))) && text@ == base64_encoded(key@)
                && key_of_text(text@) == Ok::<Seq<u8>, CryptoError>(key@),
        },
{
    match stored {
        Some(text) => match KeyMaterial::decode(text) {
            Ok(key) => Ok((key, None)),
            Err(e) => Err(e),
        },
        None => {
            let key = KeyMaterial::generate();
            let text = key.encode();
            Ok((key, Some(text)))
        },
    }
}

/// A nonce and sealed bytes as one frame.
pub fn frame(nonce: &[u8], sealed: &[u8]) -> (r: Vec<u8>)
    ensures
        r@ == framed(nonce@, sealed@),
{
    let mut out: Vec<u8> = Vec::new();
    let n = nonce.len();
    let mut i: usize = 0;
    while i < n
        invariant
            i <= n,
            n == nonce@.len(),
            out@ == nonce@.take(i as int),
        decreases n - i,
    {
        out.push(nonce[i]);
        i += 1;
    }
    let m = sealed.len();
    let mut j: usize = 0;
    while j < m
        invariant
            j <= m,
            m == sealed@.len(),
            out@ == nonce@ + sealed@.take(j as int),
        decreases m - j,
    {
        out.push(sealed[j]);
        j += 1;
    }
    out
}

/// The nonce and the sealed bytes of a frame, which must hold a nonce at
/// least.
pub fn split_frame(raw: &[u8]) -> (r: Result<(&[u8], &[u8]), CryptoError>)
    ensures
        match r {
            Ok((nonce, sealed)) => raw@.len() >= NONCE_LEN && nonce@ == raw@.take(NONCE_LEN as int)
                && sealed@ == raw@.skip(NONCE_LEN as int),
            Err(e) => raw@.len() < NONCE_LEN && e == CryptoError::TooShort,
        },
{
    if raw.len() < NONCE_LEN {
        return Err(CryptoError::TooShort);
    }
    let nonce = slice_subrange(raw, 0, NONCE_LEN);
    let sealed = slice_subrange(raw, NONCE_LEN, raw.len());
    Ok((nonce, sealed))
}

/// The text that opened bytes stand for.
pub fn plaintext_text(plain: Vec<u8>) -> (r: Result<String, CryptoError>)
    ensures
        match r {
            Ok(s) => text_of(plain@) == Ok::<Seq<char>, CryptoError>(s@),
            Err(e) => text_of(plain@) == Err::<Seq<char>, CryptoError>(e),
        },
{
    match string_from_utf8(plain) {
        Some(s) => Ok(s),
        None => Err(CryptoError::NotText),
    }
}

/// Opens the frame `raw` under `key`. A frame too short to hold a nonce and
/// a tag is never opened.
pub fn open_frame(key: &KeyMaterial, raw: &[u8]) -> (r: Result<String, CryptoError>)
    ensures
        match r {
            Ok(s) => opened_frame(key@, raw@) == Ok::<Seq<char>, CryptoError>(s@),
            Err(e) => opened_frame(key@, raw@) == Err::<Seq<char>, CryptoError>(e),
        },
        raw@.len() < NONCE_LEN + TAG_LEN ==> r is Err,
{
    match split_frame(raw) {
        Err(e) => Err(e),
        Ok((nonce, sealed)) => match aes_gcm_open(key.as_bytes(), nonce, sealed) {
            None => Err(CryptoError::Rejected),
            Some(plain) => plaintext_text(plain),
        },
    }
}

/// Seals `data` under `key` and the given nonce, which must be 12 bytes, and
/// writes the result as text: the base64 form of the nonce followed by the
/// sealed bytes, which are 16 more than the bytes of `data`. The text opens
/// under `key` to `data`.
pub fn encrypt_with_nonce(key: &KeyMaterial, nonce: &[u8], data: &str) -> (r: Result<
    String,
    CryptoError,
>)
    ensures
        match r {
            Ok(text) => {
                &&& can_seal(data@)
                &&& nonce@.len() == NONCE_LEN
                &&& text@ == sealed_text(key@, nonce@, data@)
                &&& text@.len() == sealed_text_len(data@)
                &&& base64_decoded(text@) == Some(
                    framed(nonce@, aes_gcm_sealed(key@, nonce@, encode_utf8(data@))),
                )
                &&& aes_gcm_sealed(key@, nonce@, encode_utf8(data@)).len() == encode_utf8(
                    data@,
                ).len() + TAG_LEN
                &&& opened_text(key@, text@) == Ok::<Seq<char>, CryptoError>(data@)
            },
            Err(e) => if nonce@.len() != NONCE_LEN {
                e == CryptoError::BadNonceLength
            } else {
                e == CryptoError::TooLong && !can_seal(data@)
            },
        },
{
    if nonce.len() != NONCE_LEN {
        return Err(CryptoError::BadNonceLength);
    }
    let plain = data.as_bytes();
    let n = plain.len();
    if n as u64 > MAX_PLAIN || n > usize::MAX - 28 {
        return Err(CryptoError::TooLong);
    }
    if (n + 28) / 3 >= usize::MAX / 4 {
        return Err(CryptoError::TooLong);
    }
    match aes_gcm_seal(key.as_bytes(), nonce, plain) {
        None => Err(CryptoError::TooLong),
        Some(sealed) => {
            let raw = frame(nonce, sealed.as_slice());
            let text = base64_encode(raw.as_slice());
            proof {
                assert(raw@.take(NONCE_LEN as int) =~= nonce@);
                assert(raw@.skip(NONCE_LEN as int) =~= sealed@);
                encode_utf8_valid_utf8(data@);
                encode_utf8_decode_utf8(data@);
            }
            Ok(text)
        },
    }
}

/// Seals `data` under `key` and a fresh random nonce, and writes the result
/// as text: the base64 form of the nonce that was drawn followed by the
/// sealed bytes, which are 16 more than the bytes of `data`. The text opens
/// under `key` to `data`.
pub fn encrypt(key: &KeyMaterial, data: &str) -> (r: Result<String, CryptoError>)
    ensures
        match r {
            Ok(text) => {
                &&& can_seal(data@)
                &&& opened_text(key@, text@) == Ok::<Seq<char>, CryptoError>(data@)
                &&& text@.len() == sealed_text_len(data@)
                &&& exists|nonce: Seq<u8>|
                    {
                        &&& nonce.len() == NONCE_LEN
                        &&& text@ == #[trigger] sealed_text(key@, nonce, data@)
                        &&& base64_decoded(text@) == Some(
                            framed(nonce, aes_gcm_sealed(key@, nonce, encode_utf8(data@))),
                        )
                        &&& aes_gcm_sealed(key@, nonce, encode_utf8(data@)).len() == encode_utf8(
                            data@,
                        ).len() + TAG_LEN
                    }
            },
            Err(e) => e == CryptoError::TooLong && !can_seal(data@),
        },
{
    let nonce = random_bytes(NONCE_LEN);
    let r = encrypt_with_nonce(key, nonce.as_slice(), data);
    proof {
        if r is Ok {
            assert(r->Ok_0@ == sealed_text(key@, nonce@, data@));
        }
    }
    r
}

/// Opens the stored text `text` under `key`. Text that decodes to fewer
/// bytes than a nonce and a tag is never opened.
pub fn decrypt(key: &KeyMaterial, text: &str) -> (r: Result<String, CryptoError>)
    ensures
        match r {
            Ok(s) => opened_text(key@, text@) == Ok::<Seq<char>, CryptoError>(s@),
            Err(e) => opened_text(key@, text@) == Err::<Seq<char>, CryptoError>(e),
        },
        base64_decoded(text@) matches Some(raw) && raw.len() < NONCE_LEN + TAG_LEN ==> r is Err,
{
    match base64_decode(text) {
        None => Err(CryptoError::Malformed),
        Some(raw) => open_frame(key, raw.as_slice()),
    }
}

} // verus!
