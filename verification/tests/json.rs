use jsonwebkey::{
    Algorithm, ByteArray, ByteVec, Curve, ErrorKind, JsonWebKey, Key, KeyUse, PublicExponent,
    RsaPrivate, RsaPublic,
};

const OCT: &str = r#"{
   "kty": "oct",
   "use": "sig",
   "kid": "my signing key",
   "k": "Wpj30SfkzM_m0Sa_B2NqNw",
   "alg": "HS256"
}"#;

fn kind(text: &str) -> ErrorKind {
    JsonWebKey::from_str(text).err().unwrap().kind()
}

fn ec_record() -> JsonWebKey {
    let mut jwk = JsonWebKey::new(Key::EC {
        curve: Curve::P256 {
            d: Some(ByteArray::try_from_slice(&[0xfbu8; 32]).unwrap()),
            x: ByteArray::try_from_slice(&[1u8; 32]).unwrap(),
            y: ByteArray::try_from_slice(&[2u8; 32]).unwrap(),
        },
    });
    jwk.set_algorithm(Algorithm::ES256).unwrap();
    jwk.key_use = Some(KeyUse::Encryption);
    jwk.key_ops.insert("sign");
    jwk.key_ops.insert("x-custom \"op\"");
    jwk.key_id = Some("id \\ 1".to_string());
    jwk
}

fn rsa_record(private: bool) -> JsonWebKey {
    let private = if private {
        Some(RsaPrivate {
            d: ByteVec::from_slice(&[1, 2, 3]),
            p: Some(ByteVec::from_slice(&[5])),
            q: None,
            dp: None,
            dq: Some(ByteVec::from_slice(&[7, 7])),
            qi: None,
        })
    } else {
        None
    };
    JsonWebKey::new(Key::RSA {
        public: RsaPublic { e: PublicExponent, n: ByteVec::from_slice(&[0xc3, 0x51]) },
        private,
    })
}

#[test]
fn symmetric_example_end_to_end() {
    let jwk = JsonWebKey::from_str(OCT).unwrap();
    assert!(jwk.key.is_private());
    assert!(jwk.key.to_public() == None);
    assert!(jwk.key_use == Some(KeyUse::Signing));
    assert!(jwk.key_id.as_deref() == Some("my signing key"));
    assert!(jwk.algorithm == Some(Algorithm::HS256));
    assert!(jwk.key_ops.is_empty());
    match &*jwk.key {
        Key::Symmetric { key } => assert!(key.as_slice() == &[0x5a, 0x98, 0xf7, 0xd1, 0x27, 0xe4, 0xcc, 0xcf, 0xe6, 0xd1, 0x26, 0xbf, 0x07, 0x63, 0x6a, 0x37]),
        _ => panic!("not symmetric"),
    }
    assert!(jwk.to_json() == r#"{"kty":"oct","k":"Wpj30SfkzM_m0Sa_B2NqNw==","use":"sig","kid":"my signing key","alg":"HS256"}"#);
    assert!(JsonWebKey::from_str(&jwk.to_json()).unwrap() == jwk);
}

#[test]
fn pretty_text_is_indented() {
    let mut jwk = JsonWebKey::new(Key::Symmetric { key: ByteVec::from_slice(&[1, 2, 3]) });
    jwk.key_ops.insert("sign");
    jwk.key_ops.insert("verify");
    assert!(jwk.to_json_pretty() == "{\n  \"kty\": \"oct\",\n  \"k\": \"AQID\",\n  \"key_ops\": [\n    \"sign\",\n    \"verify\"\n  ]\n}");
    assert!(JsonWebKey::from_str(&jwk.to_json_pretty()).unwrap() == jwk);
}

#[test]
fn ec_record_round_trips_in_declared_order() {
    let jwk = ec_record();
    let d = "-_v7-_v7-_v7-_v7-_v7-_v7-_v7-_v7-_v7-_v7-_s=";
    let x = "AQEBAQEBAQEBAQEBAQEBAQEBAQEBAQEBAQEBAQEBAQE=";
    let y = "AgICAgICAgICAgICAgICAgICAgICAgICAgICAgICAgI=";
    let expected = format!(
        "{{\"kty\":\"EC\",\"crv\":\"P-256\",\"d\":\"{}\",\"x\":\"{}\",\"y\":\"{}\",\"use\":\"enc\",\"key_ops\":[\"sign\",\"x-custom \\\"op\\\"\"],\"kid\":\"id \\\\ 1\",\"alg\":\"ES256\"}}",
        d, x, y
    );
    assert!(jwk.to_json() == expected);
    assert!(JsonWebKey::from_str(&jwk.to_json()).unwrap() == jwk);
    assert!(JsonWebKey::from_slice(jwk.to_json_pretty().as_bytes()).unwrap() == jwk);
    assert!(JsonWebKey::from_object(&jwk.to_object()).unwrap() == jwk);
}

#[test]
fn rsa_records_round_trip() {
    let private = rsa_record(true);
    assert!(private.to_json() == r#"{"kty":"RSA","e":"AQAB","n":"w1E=","d":"AQID","p":"BQ==","dq":"Bwc="}"#);
    assert!(JsonWebKey::from_str(&private.to_json()).unwrap() == private);
    let public = rsa_record(false);
    assert!(public.to_json() == r#"{"kty":"RSA","e":"AQAB","n":"w1E="}"#);
    assert!(JsonWebKey::from_str(&public.to_json()).unwrap() == public);
}

#[test]
fn rsa_without_d_has_no_private_half() {
    let jwk = JsonWebKey::from_str(r#"{"kty":"RSA","e":"AQAB","n":"w1E=","p":"BQ=="}"#).unwrap();
    assert!(jwk == rsa_record(false));
}

#[test]
fn padded_exponent_is_read_and_written_canonically() {
    let jwk = JsonWebKey::from_str(r#"{"kty":"RSA","e":"AQABAA==","n":"w1E"}"#).unwrap();
    assert!(jwk == rsa_record(false));
    assert!(jwk.to_json() == r#"{"kty":"RSA","e":"AQAB","n":"w1E="}"#);
    assert!(kind(r#"{"kty":"RSA","e":"AQAC","n":"w1E="}"#) == ErrorKind::InvalidExponent);
    assert!(kind(r#"{"kty":"RSA","e":"AAEAAQ","n":"w1E="}"#) == ErrorKind::InvalidExponent);
}

#[test]
fn key_ops_absent_and_empty_read_alike() {
    let absent = JsonWebKey::from_str(r#"{"kty":"oct","k":"AQID"}"#).unwrap();
    let empty = JsonWebKey::from_str(r#"{"kty":"oct","k":"AQID","key_ops":[]}"#).unwrap();
    assert!(absent.key_ops.is_empty());
    assert!(absent == empty);
    assert!(empty.to_json() == r#"{"kty":"oct","k":"AQID"}"#);
    let some = JsonWebKey::from_str(r#"{"kty":"oct","k":"AQID","key_ops":["verify","wrapKey","verify","zz"]}"#).unwrap();
    assert!(some.key_ops.contains("verify") && some.key_ops.contains("wrapKey") && some.key_ops.contains("zz"));
    assert!(some.key_ops.tokens() == vec!["verify", "wrapKey", "zz"]);
    assert!(some.to_json() == r#"{"kty":"oct","k":"AQID","key_ops":["verify","wrapKey","zz"]}"#);
}

#[test]
fn each_structural_error_has_its_input() {
    assert!(kind("{") == ErrorKind::Serde);
    assert!(kind("[1, 2]") == ErrorKind::Serde);
    assert!(kind(r#"{"k":"AQID"}"#) == ErrorKind::MalformedField);
    assert!(kind(r#"{"kty":7,"k":"AQID"}"#) == ErrorKind::MalformedField);
    assert!(kind(r#"{"kty":"oct"}"#) == ErrorKind::MalformedField);
    assert!(kind(r#"{"kty":"oct","k":"AQID","kid":5}"#) == ErrorKind::MalformedField);
    assert!(kind(r#"{"kty":"oct","k":"AQID","use":"tls"}"#) == ErrorKind::MalformedField);
    assert!(kind(r#"{"kty":"oct","k":"AQID","alg":"HS512"}"#) == ErrorKind::MalformedField);
    assert!(kind(r#"{"kty":"oct","k":"AQID","key_ops":["sign",1]}"#) == ErrorKind::MalformedField);
    assert!(kind(r#"{"kty":"oct","k":"AQID","key_ops":"sign"}"#) == ErrorKind::MalformedField);
    assert!(kind(r#"{"kty":"oct","k":"A*ID"}"#) == ErrorKind::Base64Decode);
    assert!(kind(r#"{"kty":"OKP","k":"AQID"}"#) == ErrorKind::UnknownKeyType);
    let x = "AQEBAQEBAQEBAQEBAQEBAQEBAQEBAQEBAQEBAQEBAQE=";
    assert!(kind(&format!(r#"{{"kty":"EC","crv":"P-384","x":"{}","y":"{}"}}"#, x, x)) == ErrorKind::UnknownCurve);
    assert!(kind(&format!(r#"{{"kty":"EC","crv":"P-256","x":"{}","y":"AQID"}}"#, x)) == ErrorKind::InvalidLength);
    assert!(kind(&format!(r#"{{"kty":"EC","crv":"P-256","x":"{}","y":"{}","d":"AQ=="}}"#, x, x)) == ErrorKind::InvalidLength);
    assert!(kind(&format!(r#"{{"kty":"EC","crv":"P-256","x":"{}"}}"#, x)) == ErrorKind::MalformedField);
}

#[test]
fn embedded_algorithm_is_held_against_the_key() {
    let text = r#"{"kty":"oct","k":"AQID","alg":"RS256"}"#;
    assert!(kind(text) == ErrorKind::MismatchedAlgorithm);
    assert!(
        JsonWebKey::from_slice(text.as_bytes()).err().unwrap().kind()
            == ErrorKind::MismatchedAlgorithm
    );
    assert!(
        JsonWebKey::from_slice(br#"{"kty":"oct","k":"AQID","alg":"ES256"}"#).err().unwrap().kind()
            == ErrorKind::MismatchedAlgorithm
    );
    assert!(JsonWebKey::from_slice(br#"{"kty":"oct","k":"AQID","alg":"HS256"}"#).is_ok());
    assert!(JsonWebKey::from_str(r#"{"kty":"RSA","e":"AQAB","n":"w1E=","alg":"RS256"}"#).is_ok());
    assert!(kind(r#"{"kty":"RSA","e":"AQAB","n":"w1E=","alg":"ES256"}"#) == ErrorKind::MismatchedAlgorithm);
}

#[test]
fn null_stands_for_an_absent_optional_member() {
    let jwk = JsonWebKey::from_str(r#"{"kty":"oct","k":"AQID","use":null,"kid":null,"alg":null}"#)
        .unwrap();
    assert!(jwk == JsonWebKey::new(Key::Symmetric { key: ByteVec::from_slice(&[1, 2, 3]) }));
    assert!(kind(r#"{"kty":"oct","k":null}"#) == ErrorKind::MalformedField);
    assert!(kind(r#"{"kty":"oct","k":"AQID","key_ops":null}"#) == ErrorKind::MalformedField);
    let rsa = JsonWebKey::from_str(r#"{"kty":"RSA","e":"AQAB","n":"w1E=","d":"AQID","p":"BQ==","q":null,"dq":"Bwc="}"#)
        .unwrap();
    assert!(rsa == rsa_record(true));
}

#[test]
fn equal_records_print_alike() {
    let mut a = JsonWebKey::new(Key::Symmetric { key: ByteVec::from_slice(&[1, 2, 3]) });
    let mut b = JsonWebKey::new(Key::Symmetric { key: ByteVec::from_slice(&[1, 2, 3]) });
    for op in ["verify", "sign", "zz", "Sign", "sig", "signs", ""] {
        a.key_ops.insert(op);
    }
    for op in ["", "zz", "signs", "sig", "sign", "Sign", "verify", "sign"] {
        b.key_ops.insert(op);
    }
    assert!(a == b);
    assert!(a.to_json() == b.to_json());
    assert!(a.to_json_pretty() == b.to_json_pretty());
    assert!(
        a.to_json()
            == r#"{"kty":"oct","k":"AQID","key_ops":["","Sign","sig","sign","signs","verify","zz"]}"#
    );
    assert!(JsonWebKey::from_str(&a.to_json()).unwrap() == b);
}

#[test]
fn use_and_algorithm_texts() {
    assert!(KeyUse::Signing.to_text() == "sig");
    assert!(KeyUse::Encryption.to_text() == "enc");
    assert!(KeyUse::from_text("enc") == Some(KeyUse::Encryption));
    assert!(KeyUse::from_text("Sig") == None);
    for alg in [Algorithm::HS256, Algorithm::RS256, Algorithm::ES256] {
        assert!(Algorithm::from_text(&alg.to_text()) == Some(alg));
    }
    assert!(Algorithm::ES256.to_text() == "ES256");
    assert!(Algorithm::from_text("none") == None);
}

#[test]
fn generated_keys_round_trip_as_json() {
    let mut jwk = JsonWebKey::new(Key::generate_p256().unwrap());
    jwk.set_algorithm(Algorithm::ES256).unwrap();
    assert!(JsonWebKey::from_str(&jwk.to_json()).unwrap() == jwk);
    let jwk = JsonWebKey::new(Key::generate_symmetric(256));
    assert!(JsonWebKey::from_str(&jwk.to_json_pretty()).unwrap() == jwk);
}
