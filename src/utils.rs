//! Codecs and digests: Base58 and hex, SHA-256 and RIPEMD-160, Ed25519
//! signature checks, random bytes and the clock.

use vstd::prelude::*;

verus! {

/// A character of the Bitcoin Base58 alphabet
/// (`1-9`, `A-Z` without `I` and `O`, `a-z` without `l`).
pub open spec fn is_base58_char(c: char) -> bool {
    ('1' <= c && c <= '9') || ('A' <= c && c <= 'Z' && c != 'I' && c != 'O') || ('a' <= c
        && c <= 'z' && c != 'l')
}

/// A string that Base58 decoding accepts: every character is in the alphabet.
pub open spec fn is_base58(s: Seq<char>) -> bool {
    forall|i: int| 0 <= i < s.len() ==> is_base58_char(#[trigger] s[i])
}

/// The Base58 text of a byte string.
pub uninterp spec fn base58_of(b: Seq<u8>) -> Seq<char>;

/// A byte string whose Base58 text is `s`.
pub open spec fn base58_decoded(s: Seq<char>) -> Seq<u8> {
    choose|x: Seq<u8>| base58_of(x) == s
}

/// Relies on bs58::encode(..).into_string(): it writes the Base58 text of the
/// bytes, using only characters of the alphabet.
#[verifier::external_body]
fn bs58_encode(data: &[u8]) -> (r: String)
    ensures
        r@ == base58_of(data@),
        is_base58(r@),
{
    bs58::encode(data).into_string()
}

/// Relies on bs58::decode(..).into_vec(): it fails exactly on a character
/// outside the alphabet, otherwise returns the bytes whose text the input is
/// (never more bytes than the input has characters), and on the text of a
/// byte string returns that byte string.
#[verifier::external_body]
fn bs58_decode(encoded: &str) -> (r: Option<Vec<u8>>)
    ensures
        r is Some <==> is_base58(encoded@),
        r is Some ==> base58_of(r->Some_0@) == encoded@,
        r is Some ==> r->Some_0@.len() <= encoded@.len(),
        forall|x: Seq<u8>| #[trigger] base58_of(x) == encoded@ ==> r is Some && r->Some_0@ == x,
{
    bs58::decode(encoded).into_vec().ok()
}

/// Relies on String::push: the character is appended at the end.
#[verifier::external_body]
pub(crate) fn push_char(s: &mut String, c: char)
    ensures
        final(s)@ == old(s)@.push(c),
{
    s.push(c)
}

/// Base58-encode a byte string.
pub fn encode_base58(data: &[u8]) -> (r: String)
    ensures
        r@ == base58_of(data@),
        is_base58(r@),
{
    bs58_encode(data)
}

/// Base58-decode a string. It fails exactly when a character lies outside the
/// alphabet; decoding the text of a byte string gives that byte string back.
pub fn decode_base58(encoded: &str) -> (r: Result<Vec<u8>, String>)
    ensures
        r is Ok <==> is_base58(encoded@),
        r matches Ok(v) ==> base58_of(v@) == encoded@ && v@ == base58_decoded(encoded@),
        r matches Ok(v) ==> v@.len() <= encoded@.len(),
        forall|x: Seq<u8>| #[trigger] base58_of(x) == encoded@ ==> (r matches Ok(v) && v@ == x),
{
    match bs58_decode(encoded) {
        Some(v) => Ok(v),
        None => Err("Failed to decode base58".to_string()),
    }
}

/// Whether the string is valid Base58.
pub fn is_valid_base58(encoded: &str) -> (r: bool)
    ensures
        r == is_base58(encoded@),
{
    decode_base58(encoded).is_ok()
}

/// The lowercase hex digit of a value below sixteen.
pub open spec fn hex_char(n: u8) -> char {
    if n < 10 {
        ((48 + n) as u8) as char
    } else {
        ((87 + n) as u8) as char
    }
}

/// Lowercase hex text of a byte string, two digits per byte, high nibble first.
pub open spec fn hex_of(b: Seq<u8>) -> Seq<char>
    decreases b.len(),
{
    if b.len() == 0 {
        Seq::empty()
    } else {
        hex_of(b.drop_last()) + seq![hex_char(b.last() / 16), hex_char(b.last() % 16)]
    }
}

/// A lowercase hex digit: `0-9` or `a-f`.
pub open spec fn is_lower_hex_digit(c: char) -> bool {
    ('0' <= c && c <= '9') || ('a' <= c && c <= 'f')
}

/// Valid hex text, exactly as hex encoding writes it: an even number of
/// characters, each a lowercase hex digit.
pub open spec fn is_lower_hex(s: Seq<char>) -> bool {
    s.len() % 2 == 0 && forall|i: int| 0 <= i < s.len() ==> is_lower_hex_digit(#[trigger] s[i])
}

/// The value of a lowercase hex digit.
pub open spec fn hex_value(c: char) -> u8 {
    if '0' <= c && c <= '9' {
        (c as u32 - 48) as u8
    } else {
        (c as u32 - 87) as u8
    }
}

/// The bytes that hex text stands for, one per pair of digits.
pub open spec fn hex_decode(s: Seq<char>) -> Seq<u8>
    decreases s.len(),
{
    if s.len() < 2 {
        Seq::empty()
    } else {
        hex_decode(s.subrange(0, s.len() - 2)).push(
            (hex_value(s[s.len() - 2]) * 16 + hex_value(s[s.len() - 1])) as u8,
        )
    }
}

proof fn lemma_hex_digit(n: u8)
    requires
        n < 16,
    ensures
        is_lower_hex_digit(hex_char(n)),
        hex_value(hex_char(n)) == n,
{
}

/// Hex text of any byte string is valid hex, and decoding it gives the bytes back.
pub proof fn lemma_hex_round_trip(b: Seq<u8>)
    ensures
        is_lower_hex(hex_of(b)),
        hex_of(b).len() == 2 * b.len(),
        hex_decode(hex_of(b)) == b,
    decreases b.len(),
{
    if b.len() > 0 {
        let rest = b.drop_last();
        let x = b.last();
        lemma_hex_round_trip(rest);
        lemma_hex_digit(x / 16);
        lemma_hex_digit(x % 16);
        let h = hex_of(b);
        assert(h.subrange(0, h.len() - 2) =~= hex_of(rest));
        assert(h[h.len() - 2] == hex_char(x / 16));
        assert(h[h.len() - 1] == hex_char(x % 16));
        assert((x / 16) * 16 + x % 16 == x) by (nonlinear_arith);
        assert(hex_decode(h) =~= b);
        assert forall|i: int| 0 <= i < h.len() implies is_lower_hex_digit(#[trigger] h[i]) by {
            if i < h.len() - 2 {
                assert(h[i] == hex_of(rest)[i]);
            }
        }
    }
}

proof fn lemma_hex_value(c: char)
    requires
        is_lower_hex_digit(c),
    ensures
        hex_value(c) < 16,
        hex_char(hex_value(c)) == c,
{
}

/// Encoding the bytes that valid hex text stands for gives the text back.
pub proof fn lemma_hex_decode_round_trip(s: Seq<char>)
    requires
        is_lower_hex(s),
    ensures
        hex_decode(s).len() == s.len() / 2,
        hex_of(hex_decode(s)) == s,
    decreases s.len(),
{
    if s.len() >= 2 {
        let n = s.len();
        let prefix = s.subrange(0, n - 2);
        assert forall|i: int| 0 <= i < prefix.len() implies is_lower_hex_digit(
            #[trigger] prefix[i],
        ) by {
            assert(prefix[i] == s[i]);
        }
        lemma_hex_decode_round_trip(prefix);
        let hi = hex_value(s[n - 2]);
        let lo = hex_value(s[n - 1]);
        lemma_hex_value(s[n - 2]);
        lemma_hex_value(s[n - 1]);
        let v = (hi * 16 + lo) as u8;
        assert(v / 16 == hi && v % 16 == lo) by (nonlinear_arith)
            requires
                hi < 16,
                lo < 16,
                v == hi * 16 + lo,
        ;
        let d = hex_decode(s);
        assert(d.drop_last() =~= hex_decode(prefix));
        assert(d.last() == v);
        assert(hex_of(d) =~= s);
    } else {
        assert(s.len() == 0);
    }
}

fn hex_digit_char(n: u8) -> (c: char)
    requires
        n < 16,
    ensures
        c == hex_char(n),
{
    if n < 10 {
        (48 + n) as char
    } else {
        (87 + n) as char
    }
}

fn hex_digit_value(c: char) -> (r: u8)
    requires
        is_lower_hex_digit(c),
    ensures
        r == hex_value(c),
        r < 16,
{
    if '0' <= c && c <= '9' {
        (c as u32 - 48) as u8
    } else {
        (c as u32 - 87) as u8
    }
}

/// Lowercase hex text of a byte string.
pub fn to_hex(bytes: &[u8]) -> (r: String)
    ensures
        r@ == hex_of(bytes@),
{
    let mut out = String::new();
    let mut i: usize = 0;
    while i < bytes.len()
        invariant
            i <= bytes@.len(),
            out@ == hex_of(bytes@.subrange(0, i as int)),
        decreases bytes@.len() - i,
    {
        let b = bytes[i];
        push_char(&mut out, hex_digit_char(b / 16));
        push_char(&mut out, hex_digit_char(b % 16));
        assert(bytes@.subrange(0, i + 1).drop_last() =~= bytes@.subrange(0, i as int));
        i = i + 1;
    }
    assert(bytes@.subrange(0, bytes@.len() as int) =~= bytes@);
    out
}

/// Whether the string is hex text: even length, lowercase hex digits only.
pub fn is_valid_hex(hex: &str) -> (r: bool)
    ensures
        r == is_lower_hex(hex@),
{
    let n = hex.unicode_len();
    if n % 2 != 0 {
        return false;
    }
    let mut i: usize = 0;
    while i < n
        invariant
            n == hex@.len(),
            i <= n,
            forall|j: int| 0 <= j < i ==> is_lower_hex_digit(#[trigger] hex@[j]),
        decreases n - i,
    {
        let c = hex.get_char(i);
        if !(('0' <= c && c <= '9') || ('a' <= c && c <= 'f')) {
            return false;
        }
        i = i + 1;
    }
    true
}

/// Decode lowercase hex text into bytes; any other text is refused, so that
/// encoding what was decoded gives the text back.
pub fn from_hex(hex: &str) -> (r: Result<Vec<u8>, String>)
    ensures
        r is Ok <==> is_lower_hex(hex@),
        r matches Ok(v) ==> v@ == hex_decode(hex@),
{
    if !is_valid_hex(hex) {
        return Err("Invalid hex string".to_string());
    }
    let n = hex.unicode_len();
    let mut bytes: Vec<u8> = Vec::new();
    let mut i: usize = 0;
    while i < n
        invariant
            n == hex@.len(),
            is_lower_hex(hex@),
            i <= n,
            i % 2 == 0,
            bytes@ == hex_decode(hex@.subrange(0, i as int)),
        decreases n - i,
    {
        let hi = hex_digit_value(hex.get_char(i));
        let lo = hex_digit_value(hex.get_char(i + 1));
        let ghost next = hex@.subrange(0, i + 2);
        assert(next.subrange(0, next.len() - 2) =~= hex@.subrange(0, i as int));
        bytes.push(hi * 16 + lo);
        i = i + 2;
    }
    assert(hex@.subrange(0, n as int) =~= hex@);
    Ok(bytes)
}

/// The SHA-256 digest of a byte string.
pub uninterp spec fn sha256_of(b: Seq<u8>) -> Seq<u8>;

/// The RIPEMD-160 digest of a byte string.
pub uninterp spec fn ripemd160_of(b: Seq<u8>) -> Seq<u8>;

/// Relies on sha2::Sha256::digest (the Digest trait): the 32-byte SHA-256 digest.
#[verifier::external_body]
fn sha256_digest(data: &[u8]) -> (r: Vec<u8>)
    ensures
        r@ == sha256_of(data@),
        r@.len() == 32,
{
    <sha2::Sha256 as sha2::Digest>::digest(data).to_vec()
}

/// Relies on ripemd::Ripemd160::digest (the Digest trait): the 20-byte RIPEMD-160 digest.
#[verifier::external_body]
fn ripemd160_digest(data: &[u8]) -> (r: Vec<u8>)
    ensures
        r@ == ripemd160_of(data@),
        r@.len() == 20,
{
    <ripemd::Ripemd160 as ripemd::Digest>::digest(data).to_vec()
}

/// SHA-256 of a byte string.
pub fn sha256(data: &[u8]) -> (r: Vec<u8>)
    ensures
        r@ == sha256_of(data@),
        r@.len() == 32,
{
    sha256_digest(data)
}

/// RIPEMD-160 of a byte string.
pub fn ripemd160(data: &[u8]) -> (r: Vec<u8>)
    ensures
        r@ == ripemd160_of(data@),
        r@.len() == 20,
{
    ripemd160_digest(data)
}

/// SHA-256 applied twice.
pub fn double_sha256(data: &[u8]) -> (r: Vec<u8>)
    ensures
        r@ == sha256_of(sha256_of(data@)),
        r@.len() == 32,
{
    let first = sha256(data);
    sha256(first.as_slice())
}

/// RIPEMD-160 of the SHA-256 of a byte string.
pub fn hash160(data: &[u8]) -> (r: Vec<u8>)
    ensures
        r@ == ripemd160_of(sha256_of(data@)),
        r@.len() == 20,
{
    let first = sha256(data);
    ripemd160(first.as_slice())
}

/// Whether 32 bytes are the encoding of an Ed25519 verifying key.
pub uninterp spec fn ed25519_key_ok(pk: Seq<u8>) -> bool;

/// Whether a 64-byte signature is a valid Ed25519 signature of the message
/// under the verifying key with those 32 bytes.
pub uninterp spec fn ed25519_signature_ok(pk: Seq<u8>, msg: Seq<u8>, sig: Seq<u8>) -> bool;

/// Relies on ed25519_dalek::VerifyingKey::from_bytes: whether the 32 bytes
/// decode to a verifying key.
#[verifier::external_body]
fn ed25519_key_decodes(pk: &[u8]) -> (r: bool)
    requires
        pk@.len() == 32,
    ensures
        r == ed25519_key_ok(pk@),
{
    let bytes: [u8; 32] = pk.try_into().unwrap();
    ed25519_dalek::VerifyingKey::from_bytes(&bytes).is_ok()
}

/// Relies on ed25519_dalek's `Verifier::verify` for `VerifyingKey`: whether the
/// signature checks under the key (the key and signature are first built from
/// their bytes, which cannot fail under `requires`).
#[verifier::external_body]
fn ed25519_verify(pk: &[u8], msg: &[u8], sig: &[u8]) -> (r: bool)
    requires
        pk@.len() == 32,
        ed25519_key_ok(pk@),
        sig@.len() == 64,
    ensures
        r == ed25519_signature_ok(pk@, msg@, sig@),
{
    let key_bytes: [u8; 32] = pk.try_into().unwrap();
    let sig_bytes: [u8; 64] = sig.try_into().unwrap();
    let key = ed25519_dalek::VerifyingKey::from_bytes(&key_bytes).unwrap();
    let signature = ed25519_dalek::Signature::from_bytes(&sig_bytes);
    ed25519_dalek::Verifier::verify(&key, msg, &signature).is_ok()
}

/// Check an Ed25519 signature. A key that is not 32 bytes or a signature
/// that is not 64 bytes is a format error; otherwise the answer is whether the
/// key decodes to a verifying key under which the signature is valid.
pub fn verify_signature(message: &[u8], signature: &[u8], public_key: &[u8]) -> (r: Result<
    bool,
    String,
>)
    ensures
        r is Ok <==> (public_key@.len() == 32 && signature@.len() == 64),
        r matches Ok(b) ==> b == (ed25519_key_ok(public_key@) && ed25519_signature_ok(
            public_key@,
            message@,
            signature@,
        )),
{
    if public_key.len() != 32 {
        return Err("Invalid public key length".to_string());
    }
    if signature.len() != 64 {
        return Err("Invalid signature length".to_string());
    }
    if !ed25519_key_decodes(public_key) {
        return Ok(false);
    }
    Ok(ed25519_verify(public_key, message, signature))
}

/// Relies on rand's `RngCore::fill_bytes` for `OsRng`: it overwrites the buffer
/// in place with bytes from the operating system (it panics only when the
/// operating system cannot supply randomness).
#[verifier::external_body]
fn fill_from_os(buf: &mut Vec<u8>)
    ensures
        final(buf)@.len() == old(buf)@.len(),
{
    rand::RngCore::fill_bytes(&mut rand::rngs::OsRng, buf.as_mut_slice())
}

/// `length` random bytes from the operating system.
pub fn generate_random_bytes(length: usize) -> (r: Vec<u8>)
    ensures
        r@.len() == length,
{
    let mut bytes: Vec<u8> = Vec::with_capacity(length);
    let mut i: usize = 0;
    while i < length
        invariant
            i <= length,
            bytes@.len() == i,
        decreases length - i,
    {
        bytes.push(0u8);
        i = i + 1;
    }
    fill_from_os(&mut bytes);
    bytes
}

/// Relies on ed25519_dalek::SigningKey::generate with OsRng and its to_bytes:
/// the 32-byte secret seed of a fresh signing key.
#[verifier::external_body]
fn fresh_signing_seed() -> (r: Vec<u8>)
    ensures
        r@.len() == 32,
{
    ed25519_dalek::SigningKey::generate(&mut rand::rngs::OsRng).to_bytes().to_vec()
}

/// A fresh Ed25519 signing key, as its 32-byte secret seed.
pub fn generate_keypair() -> (r: Vec<u8>)
    ensures
        r@.len() == 32,
{
    fresh_signing_seed()
}

/// A fresh 32-byte random salt.
pub fn generate_salt() -> (r: Vec<u8>)
    ensures
        r@.len() == 32,
{
    generate_random_bytes(32)
}

/// Relies on std::time::SystemTime::elapsed, on UNIX_EPOCH: the time since the
/// epoch in whole seconds, or nothing when the clock reads earlier.
#[verifier::external_body]
fn seconds_since_epoch() -> (r: Option<u64>) {
    std::time::UNIX_EPOCH.elapsed().ok().map(|d| d.as_secs())
}

/// Seconds since the UNIX epoch; zero when the clock reads before it.
pub fn current_timestamp() -> u64 {
    match seconds_since_epoch() {
        Some(secs) => secs,
        None => 0,
    }
}

} // verus!
