//! Randomness, encodings, hashes, x448 keys and AES-GCM sealing, as the
//! outside crates compute them, on plain bytes.
use vstd::prelude::*;

verus! {

/// Fresh random bytes from the operating system (`OsRng::fill_bytes` of
/// `rand_core`); only their number is known.
#[verifier::external_body]
pub(crate) fn random_bytes(n: usize) -> (r: Vec<u8>)
    ensures
        r@.len() == n,
{
    let mut buf = vec![0u8; n];
    rand_core::RngCore::fill_bytes(&mut rand_core::OsRng, &mut buf);
    buf
}

/// An ASCII letter or digit.
pub open spec fn is_alphanumeric(c: char) -> bool {
    ('a' <= c && c <= 'z') || ('A' <= c && c <= 'Z') || ('0' <= c && c <= '9')
}

/// `n` characters drawn from the thread's generator with `rand`'s
/// `Alphanumeric` distribution, which yields ASCII letters and digits.
#[verifier::external_body]
pub(crate) fn random_alphanumeric(n: usize) -> (r: String)
    ensures
        r@.len() == n,
        forall|i: int| 0 <= i < n ==> is_alphanumeric(#[trigger] r@[i]),
{
    rand::Rng::sample_iter(rand::thread_rng(), &rand::distributions::Alphanumeric).take(n).map(char::from).collect()
}

/// The text the standard base64 engine (`base64::engine::general_purpose::STANDARD`,
/// padded) writes for some bytes.
pub uninterp spec fn base64_text(bytes: Seq<u8>) -> Seq<char>;

/// The bytes the standard base64 engine reads from a text, `None` when it
/// refuses the text.
pub uninterp spec fn base64_bytes(text: Seq<char>) -> Option<Seq<u8>>;

/// `Engine::encode` of the standard engine; the result is named by
/// `base64_text`. It panics only when the encoded length overflows `usize`.
#[verifier::external_body]
pub(crate) fn base64_encode(bytes: &[u8]) -> (r: String)
    requires
        bytes@.len() <= usize::MAX / 2,
    ensures
        r@ == base64_text(bytes@),
{
    base64::Engine::encode(&base64::engine::general_purpose::STANDARD, bytes)
}

/// `Engine::decode` of the standard engine; the result is named by
/// `base64_bytes`.
#[verifier::external_body]
pub(crate) fn base64_decode(text: &str) -> (r: Option<Vec<u8>>)
    ensures
        match r {
            Some(b) => base64_bytes(text@) == Some(b@),
            None => base64_bytes(text@) is None,
        },
{
    base64::Engine::decode(&base64::engine::general_purpose::STANDARD, text).ok()
}

/// A secret key as x448 holds it: the 56 bytes with the two lowest bits of
/// the first byte cleared and the highest bit of the last one set.
pub open spec fn clamped(bytes: Seq<u8>) -> Seq<u8> {
    bytes.update(0, bytes[0] & 252u8).update(55, bytes[55] | 128u8)
}

/// `Secret::from_bytes` of x448, as the bytes it keeps: `None` unless there
/// are 56 bytes, else the bytes clamped (see `clamped`).
#[verifier::external_body]
pub(crate) fn x448_secret(bytes: &[u8]) -> (r: Option<Vec<u8>>)
    ensures
        r is Some <==> bytes@.len() == 56,
        r matches Some(s) ==> s@ == clamped(bytes@),
{
    match x448::Secret::from_bytes(bytes) {
        Some(s) => Some(s.as_bytes().to_vec()),
        None => None,
    }
}

/// Whether x448 takes 56 bytes for a point of low order
/// (`MontgomeryPoint::is_low_order`), which it refuses as a public key.
pub uninterp spec fn x448_low_order(point: Seq<u8>) -> bool;

/// The public key x448 derives from a secret key (`PublicKey::from`).
pub uninterp spec fn x448_public(secret: Seq<u8>) -> Seq<u8>;

/// The shared secret x448 computes from a secret key and another party's
/// public key (`Secret::to_diffie_hellman`).
pub uninterp spec fn x448_shared(secret: Seq<u8>, public: Seq<u8>) -> Seq<u8>;

/// `PublicKey::from` of the secret `Secret::from_bytes` makes of `secret`,
/// as its 56 bytes; `None` unless `secret` has 56 bytes.
#[verifier::external_body]
pub(crate) fn x448_public_key(secret: &[u8]) -> (r: Option<Vec<u8>>)
    ensures
        r is Some <==> secret@.len() == 56,
        r matches Some(p) ==> p@ == x448_public(secret@) && p@.len() == 56,
{
    match x448::Secret::from_bytes(secret) {
        Some(s) => Some(x448::PublicKey::from(&s).as_bytes().to_vec()),
        None => None,
    }
}

/// Whether `PublicKey::from_bytes` of x448 takes the bytes as a public key:
/// 56 bytes of a point that is not of low order.
#[verifier::external_body]
pub(crate) fn x448_valid_public(bytes: &[u8]) -> (r: bool)
    ensures
        r == (bytes@.len() == 56 && !x448_low_order(bytes@)),
{
    x448::PublicKey::from_bytes(bytes).is_some()
}

/// `Secret::to_diffie_hellman` of x448 on the secret and the point the bytes
/// hold, as the 56 bytes of the shared secret; `None` unless both have 56
/// bytes and the point is not of low order.
#[verifier::external_body]
pub(crate) fn x448_diffie_hellman(secret: &[u8], public: &[u8]) -> (r: Option<Vec<u8>>)
    ensures
        r is Some <==> (secret@.len() == 56 && public@.len() == 56 && !x448_low_order(public@)),
        r matches Some(k) ==> k@ == x448_shared(secret@, public@) && k@.len() == 56,
{
    match (x448::Secret::from_bytes(secret), x448::PublicKey::from_bytes_unchecked(public)) {
        (Some(s), Some(p)) => match s.to_diffie_hellman(&p) {
            Some(k) => Some(k.as_bytes().to_vec()),
            None => None,
        },
        _ => None,
    }
}

/// The `len` bytes HKDF with SHA-256 and no salt expands from `ikm` with the
/// context `info`.
pub uninterp spec fn hkdf_sha256(ikm: Seq<u8>, info: Seq<u8>, len: nat) -> Seq<u8>;

/// `Hkdf::<Sha256>::new(None, ikm)` then `expand(info, ..)` into `len`
/// bytes; the result is named by `hkdf_sha256`. The expansion fails only
/// beyond 255 blocks of 32 bytes.
#[verifier::external_body]
pub(crate) fn hkdf_sha256_expand(ikm: &[u8], info: &[u8], len: usize) -> (r: Vec<u8>)
    requires
        len <= 8160,
    ensures
        r@ == hkdf_sha256(ikm@, info@, len as nat),
        r@.len() == len,
{
    let mut okm = vec![0u8; len];
    let _ = hkdf::Hkdf::<sha2::Sha256>::new(None, ikm).expand(info, &mut okm);
    okm
}

/// The ciphertext and tag AES-256-GCM makes of `plain` under `key` and
/// `nonce`, without associated data.
pub uninterp spec fn aes_gcm_sealed(key: Seq<u8>, nonce: Seq<u8>, plain: Seq<u8>) -> Seq<u8>;

/// The plaintext AES-256-GCM recovers from `sealed` under `key` and `nonce`,
/// `None` when the tag does not verify.
pub uninterp spec fn aes_gcm_opened(key: Seq<u8>, nonce: Seq<u8>, sealed: Seq<u8>) -> Option<Seq<u8>>;

/// `Aead::encrypt` of `Aes256Gcm` (made with `new_from_slice`); the result is
/// named by `aes_gcm_sealed`: the ciphertext followed by the 16-byte tag.
/// It fails only for plaintexts longer than 2^36 bytes.
#[verifier::external_body]
pub(crate) fn aes_gcm_encrypt(key: &[u8], nonce: &[u8], plain: &[u8]) -> (r: Option<Vec<u8>>)
    requires
        key@.len() == 32,
        nonce@.len() == 12,
    ensures
        r is Some <==> plain@.len() <= 0x10_0000_0000,
        r matches Some(c) ==> c@ == aes_gcm_sealed(key@, nonce@, plain@) && c@.len() == plain@.len() + 16,
{
    let cipher = <aes_gcm::Aes256Gcm as aes_gcm::KeyInit>::new_from_slice(key).expect("a key of 32 bytes");
    aes_gcm::aead::Aead::encrypt(&cipher, aes_gcm::Nonce::from_slice(nonce), plain).ok()
}

/// `Aead::decrypt` of `Aes256Gcm` (made with `new_from_slice`); the result
/// is named by `aes_gcm_opened`.
#[verifier::external_body]
pub(crate) fn aes_gcm_decrypt(key: &[u8], nonce: &[u8], sealed: &[u8]) -> (r: Option<Vec<u8>>)
    requires
        key@.len() == 32,
        nonce@.len() == 12,
    ensures
        match r {
            Some(p) => aes_gcm_opened(key@, nonce@, sealed@) == Some(p@),
            None => aes_gcm_opened(key@, nonce@, sealed@) is None,
        },
{
    let cipher = <aes_gcm::Aes256Gcm as aes_gcm::KeyInit>::new_from_slice(key).expect("a key of 32 bytes");
    aes_gcm::aead::Aead::decrypt(&cipher, aes_gcm::Nonce::from_slice(nonce), sealed).ok()
}

/// The SHA-256 digest of some bytes.
pub uninterp spec fn sha256(data: Seq<u8>) -> Seq<u8>;

/// `Digest::digest` of `sha2::Sha256`: 32 bytes, named by `sha256`.
#[verifier::external_body]
pub(crate) fn sha256_digest(data: &[u8]) -> (r: Vec<u8>)
    ensures
        r@ == sha256(data@),
        r@.len() == 32,
{
    <sha2::Sha256 as sha2::Digest>::digest(data).to_vec()
}

/// A hex digit, lowercase.
pub open spec fn hex_digit(d: int) -> char {
    if d < 10 {
        (48 + d) as char
    } else {
        (87 + d) as char
    }
}

/// Bytes as lowercase hex: two digits for each byte, the high one first.
pub open spec fn hex_lower(bytes: Seq<u8>) -> Seq<char>
    decreases bytes.len(),
{
    if bytes.len() == 0 {
        Seq::empty()
    } else {
        hex_lower(bytes.drop_last()) + seq![hex_digit((bytes.last() / 16) as int), hex_digit((bytes.last() % 16) as int)]
    }
}

/// `hex::encode`, which writes each byte as two lowercase hex digits.
#[verifier::external_body]
pub(crate) fn hex_encode(bytes: &[u8]) -> (r: String)
    ensures
        r@ == hex_lower(bytes@),
{
    hex::encode(bytes)
}

/// `String::from_utf8`: the text the bytes encode as UTF-8, `None` when
/// they are no valid UTF-8.
#[verifier::external_body]
pub(crate) fn utf8_text(bytes: Vec<u8>) -> (r: Option<String>)
    ensures
        r is Some <==> vstd::utf8::valid_utf8(bytes@),
        r matches Some(s) ==> s@ == vstd::utf8::decode_utf8(bytes@),
{
    String::from_utf8(bytes).ok()
}

} // verus!
