use idgen_rs::encoding::DecodeIdError;
use idgen_rs::{IdDecoding, IdEncoding};

const TEST_ID: u64 = 1234567890123456789;

#[test]
fn test_base62_encode_decode() {
    let enc = TEST_ID.to_base62();
    let dec = u64::from_base62(&enc).unwrap();
    assert_eq!(dec, TEST_ID);
}

#[test]
fn test_base64_encode_decode() {
    let enc = TEST_ID.to_base64();
    let dec = u64::from_base64(&enc).unwrap();
    assert_eq!(dec, TEST_ID);
}

#[test]
fn test_base64_url_encode_decode() {
    let enc = TEST_ID.to_base64_url();
    let dec = u64::from_base64_url(&enc).unwrap();
    assert_eq!(dec, TEST_ID);
}

#[test]
fn test_base62_known_values() {
    assert_eq!(1337u64.to_base62(), "LZ");
    assert_eq!(0u64.to_base62(), "0");
    assert_eq!(61u64.to_base62(), "z");
    assert_eq!(62u64.to_base62(), "10");
    assert_eq!(u64::from_base62("rustlang").unwrap(), 189876682536016);
    assert_eq!(u64::from_base62("000LZ").unwrap(), 1337);
    assert_eq!(u64::from_base62(&u64::MAX.to_base62()).unwrap(), u64::MAX);
}

#[test]
fn test_base62_errors() {
    assert!(matches!(
        u64::from_base62(""),
        Err(DecodeIdError::Base62(base62::DecodeError::EmptyInput))
    ));
    assert!(matches!(
        u64::from_base62("a-b"),
        Err(DecodeIdError::Base62(base62::DecodeError::InvalidBase62Byte(b'-', 1)))
    ));
    assert!(matches!(u64::from_base62("zzzzzzzzzzzz"), Err(DecodeIdError::TooLarge)));
    assert!(matches!(
        u64::from_base62("zzzzzzzzzzzzzzzzzzzzzzz"),
        Err(DecodeIdError::Base62(base62::DecodeError::ArithmeticOverflow))
    ));
}

#[test]
fn test_base64_known_values() {
    assert_eq!(1u64.to_base64(), "AAAAAAAAAAE=");
    assert_eq!(1u64.to_base64_url(), "AAAAAAAAAAE");
    assert_eq!(u64::MAX.to_base64(), "//////////8=");
    assert_eq!(u64::MAX.to_base64_url(), "__________8");
    assert_eq!(u64::from_base64("AAAAAAAAAAE=").unwrap(), 1);
    assert_eq!(u64::from_base64_url("__________8").unwrap(), u64::MAX);
    assert_eq!(0x0102030405060708u64.to_base64(), "AQIDBAUGBwg=");
}

#[test]
fn test_base64_errors() {
    assert!(matches!(u64::from_base64("AAAA"), Err(DecodeIdError::InvalidLength)));
    assert!(matches!(u64::from_base64_url("AAAA"), Err(DecodeIdError::InvalidLength)));
    assert!(matches!(u64::from_base64("!!!!"), Err(DecodeIdError::Base64(_))));
    assert!(matches!(u64::from_base64_url("AAAAAAAAAAE="), Err(DecodeIdError::Base64(_))));
}

#[test]
fn test_base64_text_shapes() {
    for x in [0u64, 1, 62, TEST_ID, u64::MAX, 0xfbff_ffff_ffff_ffff] {
        let url = x.to_base64_url();
        assert_eq!(url.len(), 11);
        assert!(url.chars().all(|c| c.is_ascii_alphanumeric() || c == '-' || c == '_'));
        assert_eq!(u64::from_base64_url(&url).unwrap(), x);
        let std = x.to_base64();
        assert_eq!(std.len(), 12);
        assert!(std.ends_with('='));
        assert!(std.chars().all(|c| c.is_ascii_alphanumeric() || c == '+' || c == '/' || c == '='));
    }
}
