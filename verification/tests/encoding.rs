use gcloud_wasm::external::{
    base64_decode_standard, base64_encode, json_quote, json_reencode, percent_encode, rs256_sign,
    utf8_lossy, Base64Engine, EncodeSet, SignError,
};
use rsa::pkcs8::{EncodePrivateKey, LineEnding};
use rsa::{BigUint, RsaPrivateKey};

/// A small RSA test key (a 512-bit modulus from two primes written in decimal), as PKCS#8 PEM.
fn test_key_pem() -> String {
    let p = BigUint::parse_bytes(format!("9{}221", "0".repeat(73)).as_bytes(), 10).unwrap();
    let q = BigUint::parse_bytes(format!("95{}99", "0".repeat(73)).as_bytes(), 10).unwrap();
    let key = RsaPrivateKey::from_p_q(p, q, BigUint::from(65537u32)).unwrap();
    key.to_pkcs8_pem(LineEnding::LF).unwrap().as_str().to_owned()
}

#[test]
fn percent_encoding_non_alphanumeric() {
    assert_eq!(percent_encode("a b&c=d", EncodeSet::NonAlphanumeric), "a%20b%26c%3Dd");
    assert_eq!(percent_encode("1/x-y_z.~", EncodeSet::NonAlphanumeric), "1%2Fx%2Dy%5Fz%2E%7E");
    assert_eq!(percent_encode("é", EncodeSet::NonAlphanumeric), "%C3%A9");
    assert_eq!(percent_encode("", EncodeSet::NonAlphanumeric), "");
}

#[test]
fn percent_encoding_query_value() {
    assert_eq!(percent_encode("a-b_c.d~e,f g/h", EncodeSet::QueryValue), "a-b_c.d~e,f%20g%2Fh");
    assert_eq!(
        percent_encode("https://www.googleapis.com/auth/cloud-platform", EncodeSet::QueryValue),
        "https%3A%2F%2Fwww.googleapis.com%2Fauth%2Fcloud-platform"
    );
}

#[test]
fn base64_engines() {
    assert_eq!(base64_encode(Base64Engine::Standard, b"hello"), "aGVsbG8=");
    assert_eq!(base64_encode(Base64Engine::Standard, &[0xfb, 0xff]), "+/8=");
    assert_eq!(base64_encode(Base64Engine::UrlSafeNoPad, &[0xfb, 0xff]), "-_8");
    assert_eq!(base64_encode(Base64Engine::UrlSafeNoPad, b""), "");
}

#[test]
fn base64_decoding() {
    assert_eq!(base64_decode_standard("aGVsbG8=").unwrap(), b"hello".to_vec());
    assert_eq!(base64_decode_standard("").unwrap(), Vec::<u8>::new());
    assert!(base64_decode_standard("aGVsbG8").is_err());
    assert!(base64_decode_standard("!!!!").is_err());
    let data: Vec<u8> = (0..=255).collect();
    let text = base64_encode(Base64Engine::Standard, &data);
    assert_eq!(base64_decode_standard(&text).unwrap(), data);
}

#[test]
fn json_string_quoting() {
    assert_eq!(json_quote("plain"), "\"plain\"");
    assert_eq!(json_quote("a\"b\\c"), "\"a\\\"b\\\\c\"");
    assert_eq!(json_quote("\n\t\r\u{8}\u{c}"), "\"\\n\\t\\r\\b\\f\"");
    assert_eq!(json_quote("\u{1}\u{1f}"), "\"\\u0001\\u001f\"");
    assert_eq!(json_quote("/é\u{7f}"), "\"/é\u{7f}\"");
}

#[test]
fn json_reencoding() {
    assert_eq!(json_reencode("{ \"b\" : 1, \"a\" : [true, null] }").unwrap(), "{\"a\":[true,null],\"b\":1}");
    assert!(json_reencode("{not json").is_err());
}

#[test]
fn lossy_text() {
    assert_eq!(utf8_lossy("héllo".as_bytes()), "héllo");
    assert_eq!(utf8_lossy(&[0x61, 0xff, 0x62]), "a\u{fffd}b");
}

#[test]
fn rs256_signature_matches_reference() {
    let sig = rs256_sign(&test_key_pem(), b"hello").ok().unwrap();
    let expected = "2c35f13b0a91dbcacf9e3eb36f6bdefe9cb68b2e1478fdf867f2dd035a4a1fc9f992112135842ec74f9d72f67694604210c41a93907fa403a09f137477b27fc5";
    let hex: String = sig.iter().map(|b| format!("{:02x}", b)).collect();
    assert_eq!(hex, expected);
}

#[test]
fn rs256_rejects_invalid_key() {
    match rs256_sign("not a key", b"hello") {
        Err(SignError::InvalidKey(m)) => assert!(!m.is_empty()),
        _ => panic!("expected an invalid key"),
    }
}
