//! Text encodings of IDs: base62 (digits, then upper case, then lower case
//! letters), standard base64 and URL-safe base64 without padding of the
//! ID's eight big-endian bytes.
use vstd::prelude::*;
use base64::Engine;

verus! {

/// `base62::DecodeError`, carried through as an opaque value.
#[verifier::external_type_specification]
#[verifier::external_body]
pub struct ExBase62DecodeError(base62::DecodeError);

/// `base64::DecodeError`, carried through as an opaque value.
#[verifier::external_type_specification]
#[verifier::external_body]
pub struct ExBase64DecodeError(base64::DecodeError);

/// Why a text gave no ID.
#[derive(Debug)]
pub enum DecodeIdError {
    /// The text is not base62.
    Base62(base62::DecodeError),
    /// The text is not base64.
    Base64(base64::DecodeError),
    /// The value does not fit in 64 bits.
    TooLarge,
    /// The bytes decoded are not eight.
    InvalidLength,
}

/// The base62 digit for `d < 62`: `0-9`, then `A-Z`, then `a-z`.
pub open spec fn base62_digit(d: nat) -> char {
    if d < 10 {
        (d + 48) as char
    } else if d < 36 {
        (d - 10 + 65) as char
    } else {
        (d - 36 + 97) as char
    }
}

/// The value of a base62 digit, or -1 for any other character.
pub open spec fn base62_digit_value(c: char) -> int {
    let x = c as int;
    if 48 <= x <= 57 {
        x - 48
    } else if 65 <= x <= 90 {
        x - 65 + 10
    } else if 97 <= x <= 122 {
        x - 97 + 36
    } else {
        -1
    }
}

/// The base62 digits of `n`, most significant first, without leading zeros
/// ("0" for 0).
pub open spec fn base62_text(n: nat) -> Seq<char>
    decreases n,
{
    if n < 62 {
        seq![base62_digit(n)]
    } else {
        base62_text(n / 62).push(base62_digit(n % 62))
    }
}

/// `s` is a non-empty string of base62 digits.
pub open spec fn is_base62_text(s: Seq<char>) -> bool {
    &&& s.len() > 0
    &&& forall|i: int| 0 <= i < s.len() ==> base62_digit_value(#[trigger] s[i]) >= 0
}

/// The number that a string of base62 digits stands for.
pub open spec fn base62_value(s: Seq<char>) -> nat
    decreases s.len(),
{
    if s.len() == 0 {
        0
    } else {
        base62_value(s.drop_last()) * 62 + base62_digit_value(s.last()) as nat
    }
}

/// The eight bytes of `n`, most significant first.
pub open spec fn be_bytes(n: u64) -> Seq<u8> {
    seq![
        (n >> 56u64) as u8,
        (n >> 48u64) as u8,
        (n >> 40u64) as u8,
        (n >> 32u64) as u8,
        (n >> 24u64) as u8,
        (n >> 16u64) as u8,
        (n >> 8u64) as u8,
        n as u8,
    ]
}

/// `c` is a letter or a digit of ASCII.
pub open spec fn is_alphanumeric_ascii(c: char) -> bool {
    let x = c as int;
    (48 <= x <= 57) || (65 <= x <= 90) || (97 <= x <= 122)
}

/// `c` is a symbol of the standard base64 alphabet or the padding `=`.
pub open spec fn is_standard_base64_char(c: char) -> bool {
    is_alphanumeric_ascii(c) || c == '+' || c == '/' || c == '='
}

/// `c` is a symbol of the URL-safe base64 alphabet (no padding).
pub open spec fn is_url_safe_base64_char(c: char) -> bool {
    is_alphanumeric_ascii(c) || c == '-' || c == '_'
}

/// What standard base64 (with padding) makes of `bytes`.
pub uninterp spec fn base64_standard_encoding(bytes: Seq<u8>) -> Seq<char>;

/// What standard base64 decoding makes of `text`: the bytes, or `None` on an error.
pub uninterp spec fn base64_standard_decoding(text: Seq<char>) -> Option<Seq<u8>>;

/// What URL-safe base64 without padding makes of `bytes`.
pub uninterp spec fn base64_url_encoding(bytes: Seq<u8>) -> Seq<char>;

/// What URL-safe base64 decoding without padding makes of `text`: the
/// bytes, or `None` on an error.
pub uninterp spec fn base64_url_decoding(text: Seq<char>) -> Option<Seq<u8>>;

/// `base62::encode`: the base62 digits of `n` in the standard alphabet
/// (0-9, A-Z, a-z), most significant first, without leading zeros.
#[verifier::external_body]
fn base62_encode(n: u64) -> (s: String)
    ensures
        s@ == base62_text(n as nat),
{
    base62::encode(n)
}

/// `base62::decode`: the number a base62 text stands for in the standard
/// alphabet; an error for an empty text, a character outside the alphabet,
/// or a value past `u128::MAX` (which error is not stated).
#[verifier::external_body]
fn base62_decode(s: &str) -> (r: Result<u128, base62::DecodeError>)
    ensures
        r.is_ok() == (is_base62_text(s@) && base62_value(s@) <= u128::MAX),
        r matches Ok(v) ==> v == base62_value(s@),
{
    base62::decode(s)
}

/// `base64::engine::general_purpose::STANDARD.encode` (standard alphabet,
/// with padding), named; the text has four symbols for every three bytes
/// or part of three (`encoded_len` with padding), all from the standard
/// alphabet or `=`.
#[verifier::external_body]
fn base64_standard_encode(bytes: &[u8]) -> (s: String)
    requires
        bytes@.len() <= 0x1000_0000,
    ensures
        s@ == base64_standard_encoding(bytes@),
        s@.len() == 4 * ((bytes@.len() + 2) / 3),
        forall|i: int| 0 <= i < s@.len() ==> is_standard_base64_char(#[trigger] s@[i]),
{
    base64::engine::general_purpose::STANDARD.encode(bytes)
}

/// `base64::engine::general_purpose::STANDARD.decode`, named; the crate
/// round-trips: the encoding of some bytes decodes to those bytes.
#[verifier::external_body]
fn base64_standard_decode(text: &str) -> (r: Result<Vec<u8>, base64::DecodeError>)
    ensures
        r matches Ok(v) ==> base64_standard_decoding(text@) == Some(v@),
        r.is_err() ==> base64_standard_decoding(text@) is None,
        r matches Ok(v) ==> forall|b: Seq<u8>| text@ == #[trigger] base64_standard_encoding(b) ==> v@ == b,
        r.is_err() ==> forall|b: Seq<u8>| text@ != #[trigger] base64_standard_encoding(b),
{
    base64::engine::general_purpose::STANDARD.decode(text)
}

/// `base64::engine::general_purpose::URL_SAFE_NO_PAD.encode` (URL-safe
/// alphabet, no padding), named; the text has `ceil(4n/3)` symbols for `n`
/// bytes (`encoded_len` without padding), all from the URL-safe alphabet.
#[verifier::external_body]
fn base64_url_encode(bytes: &[u8]) -> (s: String)
    requires
        bytes@.len() <= 0x1000_0000,
    ensures
        s@ == base64_url_encoding(bytes@),
        s@.len() == (4 * bytes@.len() + 2) / 3,
        forall|i: int| 0 <= i < s@.len() ==> is_url_safe_base64_char(#[trigger] s@[i]),
{
    base64::engine::general_purpose::URL_SAFE_NO_PAD.encode(bytes)
}

/// `base64::engine::general_purpose::URL_SAFE_NO_PAD.decode`, named; the
/// crate round-trips: the encoding of some bytes decodes to those bytes.
#[verifier::external_body]
fn base64_url_decode(text: &str) -> (r: Result<Vec<u8>, base64::DecodeError>)
    ensures
        r matches Ok(v) ==> base64_url_decoding(text@) == Some(v@),
        r.is_err() ==> base64_url_decoding(text@) is None,
        r matches Ok(v) ==> forall|b: Seq<u8>| text@ == #[trigger] base64_url_encoding(b) ==> v@ == b,
        r.is_err() ==> forall|b: Seq<u8>| text@ != #[trigger] base64_url_encoding(b),
{
    base64::engine::general_purpose::URL_SAFE_NO_PAD.decode(text)
}

/// Bytes and numbers: the eight bytes of a 64-bit value give it back.
proof fn lemma_be_bytes(n: u64, b0: u8, b1: u8, b2: u8, b3: u8, b4: u8, b5: u8, b6: u8, b7: u8)
    by (bit_vector)
    ensures
        (((n >> 56u64) as u8) as u64) << 56u64 | (((n >> 48u64) as u8) as u64) << 48u64 | (((n
            >> 40u64) as u8) as u64) << 40u64 | (((n >> 32u64) as u8) as u64) << 32u64 | (((n
            >> 24u64) as u8) as u64) << 24u64 | (((n >> 16u64) as u8) as u64) << 16u64 | (((n
            >> 8u64) as u8) as u64) << 8u64 | ((n as u8) as u64) == n,
        ({
            let m = (b0 as u64) << 56u64 | (b1 as u64) << 48u64 | (b2 as u64) << 40u64 | (b3 as u64)
                << 32u64 | (b4 as u64) << 24u64 | (b5 as u64) << 16u64 | (b6 as u64) << 8u64
                | (b7 as u64);
            &&& (m >> 56u64) as u8 == b0
            &&& (m >> 48u64) as u8 == b1
            &&& (m >> 40u64) as u8 == b2
            &&& (m >> 32u64) as u8 == b3
            &&& (m >> 24u64) as u8 == b4
            &&& (m >> 16u64) as u8 == b5
            &&& (m >> 8u64) as u8 == b6
            &&& m as u8 == b7
        }),
{
}

/// The eight bytes of `n`, most significant first (`u64::to_be_bytes`).
fn to_be_bytes(n: u64) -> (b: [u8; 8])
    ensures
        b@ == be_bytes(n),
{
    let b: [u8; 8] = [
        (n >> 56u64) as u8,
        (n >> 48u64) as u8,
        (n >> 40u64) as u8,
        (n >> 32u64) as u8,
        (n >> 24u64) as u8,
        (n >> 16u64) as u8,
        (n >> 8u64) as u8,
        n as u8,
    ];
    assert(b@ =~= be_bytes(n));
    b
}

/// The value of eight bytes, most significant first (`u64::from_be_bytes`).
fn from_be_bytes(b: &[u8]) -> (n: u64)
    requires
        b@.len() == 8,
    ensures
        be_bytes(n) == b@,
{
    let n = (b[0] as u64) << 56u64 | (b[1] as u64) << 48u64 | (b[2] as u64) << 40u64 | (b[3] as u64)
        << 32u64 | (b[4] as u64) << 24u64 | (b[5] as u64) << 16u64 | (b[6] as u64) << 8u64
        | (b[7] as u64);
    proof {
        lemma_be_bytes(n, b[0], b[1], b[2], b[3], b[4], b[5], b[6], b[7]);
        assert(be_bytes(n) =~= b@);
    }
    n
}

/// Distinct numbers have distinct bytes.
proof fn lemma_be_bytes_injective(n: u64, m: u64)
    requires
        be_bytes(n) == be_bytes(m),
    ensures
        n == m,
{
    lemma_be_bytes(n, 0, 0, 0, 0, 0, 0, 0, 0);
    lemma_be_bytes(m, 0, 0, 0, 0, 0, 0, 0, 0);
    assert(be_bytes(n)[0] == be_bytes(m)[0]);
    assert(be_bytes(n)[1] == be_bytes(m)[1]);
    assert(be_bytes(n)[2] == be_bytes(m)[2]);
    assert(be_bytes(n)[3] == be_bytes(m)[3]);
    assert(be_bytes(n)[4] == be_bytes(m)[4]);
    assert(be_bytes(n)[5] == be_bytes(m)[5]);
    assert(be_bytes(n)[6] == be_bytes(m)[6]);
    assert(be_bytes(n)[7] == be_bytes(m)[7]);
}

/// The digit values of the base62 digits give the digits back.
proof fn lemma_base62_digit_round_trip(d: nat)
    requires
        d < 62,
    ensures
        base62_digit_value(base62_digit(d)) == d,
{
}

/// The base62 text of a number is base62 and stands for that number.
pub proof fn lemma_base62_round_trip(n: nat)
    ensures
        is_base62_text(base62_text(n)),
        base62_value(base62_text(n)) == n,
    decreases n,
{
    if n < 62 {
        lemma_base62_digit_round_trip(n);
        let s = base62_text(n);
        assert(s.drop_last() =~= Seq::<char>::empty());
        assert(base62_value(s.drop_last()) == 0);
        assert(s.last() == base62_digit(n));
        assert(base62_value(s) == base62_value(s.drop_last()) * 62 + base62_digit_value(s.last()) as nat);
    } else {
        lemma_base62_round_trip(n / 62);
        lemma_base62_digit_round_trip(n % 62);
        let s = base62_text(n);
        assert(s.drop_last() =~= base62_text(n / 62));
        assert(s.last() == base62_digit(n % 62));
        vstd::arithmetic::div_mod::lemma_fundamental_div_mod(n as int, 62);
        assert(base62_value(s.drop_last()) == n / 62);
        assert(base62_value(s) == base62_value(s.drop_last()) * 62 + base62_digit_value(s.last()) as nat);
        assert forall|i: int| 0 <= i < s.len() implies base62_digit_value(#[trigger] s[i]) >= 0 by {
            if i < s.len() - 1 {
                assert(s[i] == base62_text(n / 62)[i]);
            }
        }
    }
}

/// Text encodings of an ID.
pub trait IdEncoding {
    /// Base62 digits (short, URL-safe, human-friendly).
    fn to_base62(&self) -> String;

    /// Standard base64 of the eight big-endian bytes.
    fn to_base64(&self) -> String;

    /// URL-safe base64 of the eight big-endian bytes, without padding.
    fn to_base64_url(&self) -> String;
}

/// IDs from their text encodings.
pub trait IdDecoding: Sized {
    /// The ID of a base62 text.
    fn from_base62(s: &str) -> Result<u64, DecodeIdError>;

    /// The ID of a standard base64 text.
    fn from_base64(s: &str) -> Result<u64, DecodeIdError>;

    /// The ID of a URL-safe base64 text without padding.
    fn from_base64_url(s: &str) -> Result<u64, DecodeIdError>;
}

impl IdEncoding for u64 {
    fn to_base62(&self) -> (s: String)
        ensures
            s@ == base62_text(*self as nat),
    {
        base62_encode(*self)
    }

    fn to_base64(&self) -> (s: String)
        ensures
            s@ == base64_standard_encoding(be_bytes(*self)),
            s@.len() == 12,
            forall|i: int| 0 <= i < s@.len() ==> is_standard_base64_char(#[trigger] s@[i]),
    {
        let bytes = to_be_bytes(*self);
        base64_standard_encode(&bytes)
    }

    fn to_base64_url(&self) -> (s: String)
        ensures
            s@ == base64_url_encoding(be_bytes(*self)),
            s@.len() == 11,
            forall|i: int| 0 <= i < s@.len() ==> is_url_safe_base64_char(#[trigger] s@[i]),
    {
        let bytes = to_be_bytes(*self);
        base64_url_encode(&bytes)
    }
}

impl IdDecoding for u64 {
    fn from_base62(s: &str) -> (r: Result<u64, DecodeIdError>)
        ensures
            r is Ok <==> is_base62_text(s@) && base62_value(s@) <= u64::MAX,
            r matches Ok(n) ==> n == base62_value(s@),
            (r matches Err(DecodeIdError::TooLarge)) <==> (is_base62_text(s@) && u64::MAX
                < base62_value(s@) <= u128::MAX),
            (r matches Err(DecodeIdError::Base62(_))) <==> !(is_base62_text(s@) && base62_value(s@)
                <= u128::MAX),
            forall|n: u64| s@ == #[trigger] base62_text(n as nat) ==> r == Ok::<u64, DecodeIdError>(n),
    {
        proof {
            assert forall|n: u64| s@ == #[trigger] base62_text(n as nat) implies is_base62_text(s@)
                && base62_value(s@) == n by {
                lemma_base62_round_trip(n as nat);
            }
        }
        match base62_decode(s) {
            Ok(v) => {
                if v <= u64::MAX as u128 {
                    Ok(v as u64)
                } else {
                    Err(DecodeIdError::TooLarge)
                }
            },
            Err(e) => Err(DecodeIdError::Base62(e)),
        }
    }

    fn from_base64(s: &str) -> (r: Result<u64, DecodeIdError>)
        ensures
            r is Ok <==> (base64_standard_decoding(s@) is Some && base64_standard_decoding(s@).unwrap().len() == 8),
            r matches Ok(n) ==> base64_standard_decoding(s@) == Some(be_bytes(n)),
            (r matches Err(DecodeIdError::InvalidLength)) <==> (base64_standard_decoding(s@) is Some
                && base64_standard_decoding(s@).unwrap().len() != 8),
            (r matches Err(DecodeIdError::Base64(_))) <==> base64_standard_decoding(s@) is None,
            forall|n: u64|
                s@ == #[trigger] base64_standard_encoding(be_bytes(n)) ==> r == Ok::<u64, DecodeIdError>(n),
    {
        match base64_standard_decode(s) {
            Ok(bytes) => {
                if bytes.len() != 8 {
                    Err(DecodeIdError::InvalidLength)
                } else {
                    let n = from_be_bytes(bytes.as_slice());
                    proof {
                        assert forall|k: u64|
                            s@ == #[trigger] base64_standard_encoding(be_bytes(k)) implies n == k by {
                            lemma_be_bytes_injective(n, k);
                        }
                    }
                    Ok(n)
                }
            },
            Err(e) => Err(DecodeIdError::Base64(e)),
        }
    }

    fn from_base64_url(s: &str) -> (r: Result<u64, DecodeIdError>)
        ensures
            r is Ok <==> (base64_url_decoding(s@) is Some && base64_url_decoding(s@).unwrap().len() == 8),
            r matches Ok(n) ==> base64_url_decoding(s@) == Some(be_bytes(n)),
            (r matches Err(DecodeIdError::InvalidLength)) <==> (base64_url_decoding(s@) is Some
                && base64_url_decoding(s@).unwrap().len() != 8),
            (r matches Err(DecodeIdError::Base64(_))) <==> base64_url_decoding(s@) is None,
            forall|n: u64| s@ == #[trigger] base64_url_encoding(be_bytes(n)) ==> r == Ok::<u64, DecodeIdError>(n),
    {
        match base64_url_decode(s) {
            Ok(bytes) => {
                if bytes.len() != 8 {
                    Err(DecodeIdError::InvalidLength)
                } else {
                    let n = from_be_bytes(bytes.as_slice());
                    proof {
                        assert forall|k: u64|
                            s@ == #[trigger] base64_url_encoding(be_bytes(k)) implies n == k by {
                            lemma_be_bytes_injective(n, k);
                        }
                    }
                    Ok(n)
                }
            },
            Err(e) => Err(DecodeIdError::Base64(e)),
        }
    }
}

} // verus!
