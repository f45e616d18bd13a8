use jsonwebkey::{ByteVec, ConversionError, JsonWebKey, Key};
use jsonwebtoken as jwt;

fn claims() -> serde_json::Value {
    let mut map = serde_json::Map::new();
    map.insert("sub".to_string(), serde_json::Value::String("someone".to_string()));
    serde_json::Value::Object(map)
}

fn validation(alg: jwt::Algorithm) -> jwt::Validation {
    let mut validation = jwt::Validation::new(alg);
    validation.validate_exp = false;
    validation.required_spec_claims.clear();
    validation
}

#[test]
fn symmetric_key_signs_and_verifies() {
    let key = Key::Symmetric { key: ByteVec::from_slice(b"0123456789abcdef0123456789abcdef") };
    let token = jwt::encode(
        &jwt::Header::new(jwt::Algorithm::HS256),
        &claims(),
        &key.try_to_encoding_key().unwrap(),
    )
    .unwrap();
    let data = jwt::decode::<serde_json::Value>(
        &token,
        &key.try_to_decoding_key().unwrap(),
        &validation(jwt::Algorithm::HS256),
    )
    .unwrap();
    assert_eq!(data.claims, claims());
    let other = Key::Symmetric { key: ByteVec::from_slice(b"another key") };
    assert!(jwt::decode::<serde_json::Value>(
        &token,
        &other.try_to_decoding_key().unwrap(),
        &validation(jwt::Algorithm::HS256),
    )
    .is_err());
}

#[test]
fn generated_p256_key_signs_and_verifies() {
    let key = Key::generate_p256().unwrap();
    let token = jwt::encode(
        &jwt::Header::new(jwt::Algorithm::ES256),
        &claims(),
        &key.try_to_encoding_key().unwrap(),
    )
    .unwrap();
    let public = key.to_public().unwrap();
    for verifier in [&key, &public] {
        let data = jwt::decode::<serde_json::Value>(
            &token,
            &verifier.try_to_decoding_key().unwrap(),
            &validation(jwt::Algorithm::ES256),
        )
        .unwrap();
        assert_eq!(data.claims, claims());
    }
    assert!(matches!(public.try_to_encoding_key(), Err(ConversionError::NotPrivate)));
}

#[test]
fn public_rsa_key_gives_no_signing_key() {
    let jwk = JsonWebKey::from_str(r#"{"kty":"RSA","e":"AQAB","n":"w1E="}"#).unwrap();
    assert!(matches!(jwk.key.try_to_encoding_key(), Err(ConversionError::NotPrivate)));
    let private = JsonWebKey::from_str(r#"{"kty":"RSA","e":"AQAB","n":"w1E=","d":"AQID"}"#).unwrap();
    assert!(matches!(private.key.try_to_encoding_key(), Err(ConversionError::MissingRsaParams)));
    assert!(private.key.try_to_decoding_key().is_ok());
}
