//! Partner API keys of resellers: the raw key handed out once, the SHA-256
//! hash that is stored instead, the preview shown in lists, and the expiry.

use vstd::prelude::*;
use vstd::utf8::encode_utf8;
use crate::session::{is_alphanumeric, random_alphanumeric};
use crate::text::{decimal, extend_chars, extend_str, from_chars, i64_decimal, slice_chars, to_chars};

verus! {

broadcast use vstd::string::group_string_axioms;

/// The length of the random part of a key.
pub const KEY_RANDOM_LEN: usize = 32;

/// How many characters of the random part the preview shows.
pub const PREVIEW_LEN: usize = 8;

/// The SHA-256 digest of `data`, as `sha2::Sha256` computes it.
pub uninterp spec fn sha256(data: Seq<u8>) -> Seq<u8>;

/// `sha2::Sha256::digest`. Claimed: the digest is `sha256` of the input (the
/// algorithm is named, not restated) and has 32 bytes (`Sha256`'s output
/// size is `U32`).
#[verifier::external_body]
fn sha256_digest(data: &[u8]) -> (r: Vec<u8>)
    ensures
        r@ == sha256(data@),
        r@.len() == 32,
{
    <sha2::Sha256 as sha2::Digest>::digest(data).to_vec()
}

/// A lower-case hexadecimal digit.
pub open spec fn hex_lower(d: int) -> char {
    if d < 10 {
        (48 + d) as char
    } else {
        (87 + d) as char
    }
}

/// Bytes written as two lower-case hexadecimal digits each (the `{:x}`
/// format of a digest).
pub open spec fn hex_string(b: Seq<u8>) -> Seq<char>
    decreases b.len(),
{
    if b.len() == 0 {
        Seq::empty()
    } else {
        hex_string(b.drop_last()) + seq![hex_lower(b.last() as int / 16), hex_lower(b.last() as int % 16)]
    }
}

fn hex_digit(d: u8) -> (c: char)
    requires
        d < 16,
    ensures
        c == hex_lower(d as int),
{
    if d < 10 {
        (d + 48) as char
    } else {
        (d + 87) as char
    }
}

/// The bytes written in lower-case hexadecimal.
pub fn to_hex(b: &[u8]) -> (r: String)
    ensures
        r@ == hex_string(b@),
{
    let mut v: Vec<char> = Vec::new();
    let n = b.len();
    for i in 0..n
        invariant
            n == b@.len(),
            v@ == hex_string(b@.take(i as int)),
    {
        assert(b@.take(i + 1).drop_last() =~= b@.take(i as int));
        let x = b[i];
        v.push(hex_digit(x / 16));
        v.push(hex_digit(x % 16));
        assert(v@ =~= hex_string(b@.take(i as int)) + seq![hex_lower(x as int / 16), hex_lower(x as int % 16)]);
    }
    assert(b@.take(n as int) =~= b@);
    from_chars(v.as_slice())
}

/// The UTF-8 bytes of a text (`str::as_bytes`).
fn utf8_bytes(s: &str) -> (r: &[u8])
    ensures
        r@ == encode_utf8(s@),
{
    s.as_bytes()
}

/// What a new API key consists of.
pub struct ApiKeyMaterial {
    /// The key as given to the reseller, once.
    pub raw_key: String,
    /// The lower-case hexadecimal SHA-256 of the raw key, which is stored.
    pub key_hash: String,
    /// The part shown in key lists.
    pub key_preview: String,
    /// The SQLite date modifier for the expiry (`+<days> days`).
    pub expiry_modifier: String,
}

/// The raw key for a random part.
pub open spec fn raw_key_of(random: Seq<char>) -> Seq<char> {
    "em_live_"@ + random
}

/// The key material made from the random part `random`: the raw key
/// `em_live_<random>`, the hex SHA-256 of its UTF-8 bytes, the preview
/// `em_live_<first 8>...****`, and the expiry modifier `+<days> days`.
pub fn api_key_material(random: &str, duration_days: i32) -> (r: ApiKeyMaterial)
    requires
        random@.len() >= PREVIEW_LEN,
    ensures
        r.raw_key@ == raw_key_of(random@),
        r.key_hash@ == hex_string(sha256(encode_utf8(raw_key_of(random@)))),
        r.key_preview@ == "em_live_"@ + random@.take(PREVIEW_LEN as int) + "...****"@,
        r.expiry_modifier@ == "+"@ + decimal(duration_days as int) + " days"@,
{
    let mut raw = to_chars("em_live_");
    extend_str(&mut raw, random);
    let raw_key = from_chars(raw.as_slice());
    let digest = sha256_digest(utf8_bytes(raw_key.as_str()));
    let key_hash = to_hex(digest.as_slice());
    let rc = to_chars(random);
    let head = slice_chars(rc.as_slice(), 0, PREVIEW_LEN);
    let mut pv = to_chars("em_live_");
    extend_chars(&mut pv, head.as_slice());
    extend_str(&mut pv, "...****");
    let mut m = to_chars("+");
    let d = i64_decimal(duration_days as i64);
    extend_chars(&mut m, d.as_slice());
    extend_str(&mut m, " days");
    ApiKeyMaterial {
        raw_key,
        key_hash,
        key_preview: from_chars(pv.as_slice()),
        expiry_modifier: from_chars(m.as_slice()),
    }
}

/// A new API key: 32 random ASCII letters and digits behind `em_live_`,
/// with its hash, preview and expiry modifier (see `api_key_material`).
pub fn new_api_key(duration_days: i32) -> (r: ApiKeyMaterial)
    ensures
        exists|random: Seq<char>| {
            &&& random.len() == KEY_RANDOM_LEN
            &&& forall|i: int| 0 <= i < random.len() ==> is_alphanumeric(#[trigger] random[i])
            &&& r.raw_key@ == raw_key_of(random)
            &&& r.key_hash@ == hex_string(sha256(encode_utf8(raw_key_of(random))))
            &&& r.key_preview@ == "em_live_"@ + random.take(PREVIEW_LEN as int) + "...****"@
        },
        r.expiry_modifier@ == "+"@ + decimal(duration_days as int) + " days"@,
{
    let random = random_alphanumeric(KEY_RANDOM_LEN);
    let r = api_key_material(random.as_str(), duration_days);
    assert(random@.len() == KEY_RANDOM_LEN);
    r
}

} // verus!
