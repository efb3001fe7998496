//! Byte encodings used in webhook URLs and signatures: percent-encoding, base64 and
//! HMAC-SHA256, the last three computed by the `urlencoding`, `base64`, `hmac` and `sha2` crates.
use vstd::prelude::*;
use vstd::string::*;
use vstd::utf8::encode_utf8;

use base64::Engine;
use hmac::Mac;

verus! {

// ---------------------------------------------------------------------------
// Percent-encoding
// ---------------------------------------------------------------------------

/// A byte that percent-encoding leaves as it is: ASCII letters, digits and `-`, `_`, `.`, `~`.
pub open spec fn is_unreserved(b: u8) -> bool {
    (0x41 <= b && b <= 0x5a) || (0x61 <= b && b <= 0x7a) || (0x30 <= b && b <= 0x39) || b == 0x2d
        || b == 0x5f || b == 0x2e || b == 0x7e
}

/// An uppercase hexadecimal digit for `d < 16`.
pub open spec fn hex_upper(d: nat) -> char {
    if d < 10 {
        (('0' as u32) + d) as char
    } else {
        (('A' as u32) + d - 10) as char
    }
}

/// How one byte is written: itself when unreserved, else `%XX` in uppercase hexadecimal.
pub open spec fn percent_byte(b: u8) -> Seq<char> {
    if is_unreserved(b) {
        seq![b as char]
    } else {
        seq!['%', hex_upper((b / 16) as nat), hex_upper((b % 16) as nat)]
    }
}

/// Percent-encoding of a byte string.
pub open spec fn percent_encode(bytes: Seq<u8>) -> Seq<char>
    decreases bytes.len(),
{
    if bytes.len() == 0 {
        Seq::empty()
    } else {
        percent_encode(bytes.drop_last()) + percent_byte(bytes.last())
    }
}

/// Percent-encoding of the UTF-8 bytes of a text.
pub open spec fn url_encoded(s: Seq<char>) -> Seq<char> {
    percent_encode(encode_utf8(s))
}

/// Calls `urlencoding::encode`, which percent-encodes every UTF-8 byte of `s` except ASCII
/// letters, digits and `-`, `_`, `.`, `~`, writing `%` and two uppercase hexadecimal digits.
#[verifier::external_body]
pub(crate) fn urlencoding_crate_encode(s: &str) -> (res: String)
    ensures
        res@ == url_encoded(s@),
{
    urlencoding::encode(s).into_owned()
}

// ---------------------------------------------------------------------------
// Base64
// ---------------------------------------------------------------------------

/// A character of the standard base64 alphabet for `n < 64`.
pub open spec fn b64_char(n: nat) -> char {
    if n < 26 {
        (('A' as u32) + n) as char
    } else if n < 52 {
        (('a' as u32) + n - 26) as char
    } else if n < 62 {
        (('0' as u32) + n - 52) as char
    } else if n == 62 {
        '+'
    } else {
        '/'
    }
}

/// Standard base64 (RFC 4648 alphabet) with `=` padding.
pub open spec fn base64_encode(b: Seq<u8>) -> Seq<char>
    decreases b.len(),
{
    if b.len() == 0 {
        Seq::empty()
    } else if b.len() == 1 {
        seq![b64_char((b[0] / 4) as nat), b64_char(((b[0] % 4) * 16) as nat), '=', '=']
    } else if b.len() == 2 {
        seq![
            b64_char((b[0] / 4) as nat),
            b64_char(((b[0] % 4) * 16 + b[1] / 16) as nat),
            b64_char(((b[1] % 16) * 4) as nat),
            '=',
        ]
    } else {
        seq![
            b64_char((b[0] / 4) as nat),
            b64_char(((b[0] % 4) * 16 + b[1] / 16) as nat),
            b64_char(((b[1] % 16) * 4 + b[2] / 64) as nat),
            b64_char((b[2] % 64) as nat),
        ] + base64_encode(b.subrange(3, b.len() as int))
    }
}

/// Base64 text has four characters for each started group of three bytes; when the last group
/// has two bytes, the text ends in `=`.
pub proof fn lemma_base64_len(b: Seq<u8>)
    ensures
        base64_encode(b).len() == (b.len() + 2) / 3 * 4,
        b.len() % 3 == 2 ==> base64_encode(b).last() == '=',
    decreases b.len(),
{
    if b.len() >= 3 {
        let rest = b.subrange(3, b.len() as int);
        lemma_base64_len(rest);
        if b.len() % 3 == 2 {
            assert(rest.len() % 3 == 2);
            assert(base64_encode(rest).len() >= 4);
            assert(base64_encode(b).last() == base64_encode(rest).last());
        }
    }
}

/// Calls `base64::engine::general_purpose::STANDARD.encode`: the standard alphabet with padding.
#[verifier::external_body]
pub(crate) fn base64_standard_encode(bytes: &[u8]) -> (res: String)
    ensures
        res@ == base64_encode(bytes@),
{
    base64::engine::general_purpose::STANDARD.encode(bytes)
}

// ---------------------------------------------------------------------------
// HMAC-SHA256
// ---------------------------------------------------------------------------

/// The HMAC-SHA256 tag of `data` under `key` (RFC 2104 over SHA-256).
pub uninterp spec fn hmac_sha256(key: Seq<u8>, data: Seq<u8>) -> Seq<u8>;

/// Calls `Hmac::<Sha256>::new_from_slice`, `update` and `finalize`. The `hmac` crate accepts keys
/// of every length for `Hmac<Sha256>`, so the result is always `Ok`; the tag is 32 bytes long.
#[verifier::external_body]
pub(crate) fn hmac_sha256_digest(key: &[u8], data: &[u8]) -> (res: Result<Vec<u8>, String>)
    ensures
        res is Ok,
        res->Ok_0@ == hmac_sha256(key@, data@),
        res->Ok_0@.len() == 32,
{
    let mut mac = match hmac::Hmac::<sha2::Sha256>::new_from_slice(key) {
        Ok(mac) => mac,
        Err(e) => return Err(format!("Failed to create webhook signature: {e}")),
    };
    mac.update(data);
    Ok(mac.finalize().into_bytes().to_vec())
}


/// Percent-encoding works byte by byte and keeps the order: encoding two byte strings one after
/// the other is encoding them joined; letters, digits and `-_.~` are kept, any other byte becomes
/// `%` and two uppercase hexadecimal digits.
pub proof fn lemma_percent_encoding(a: Seq<u8>, b: Seq<u8>, x: u8)
    ensures
        percent_encode(a + b) == percent_encode(a) + percent_encode(b),
        percent_encode(seq![x]) == percent_byte(x),
        is_unreserved(x) ==> percent_byte(x) == seq![x as char],
        !is_unreserved(x) ==> percent_byte(x).len() == 3 && percent_byte(x)[0] == '%'
            && percent_byte(x)[1] == "0123456789ABCDEF"@[(x / 16) as int] && percent_byte(x)[2]
            == "0123456789ABCDEF"@[(x % 16) as int],
        (0x41 <= x <= 0x5a || 0x61 <= x <= 0x7a || 0x30 <= x <= 0x39 || x == 0x2d || x == 0x5f
            || x == 0x2e || x == 0x7e) <==> is_unreserved(x),
    decreases b.len(),
{
    reveal_strlit("0123456789ABCDEF");
    assert(seq![x].drop_last() =~= Seq::<u8>::empty());
    assert(percent_encode(seq![x]) == percent_encode(Seq::<u8>::empty()) + percent_byte(x));
    assert(Seq::<char>::empty() + percent_byte(x) =~= percent_byte(x));
    if b.len() > 0 {
        lemma_percent_encoding(a, b.drop_last(), x);
        assert((a + b).drop_last() =~= a + b.drop_last());
        assert((a + b).last() == b.last());
    } else {
        assert(a + b =~= a);
    }
}

} // verus!
