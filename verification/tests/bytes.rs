use jsonwebkey::{ByteArray, ByteVec, JwkError, LengthError, PublicExponent};

const BYTES: &[u8] = &[1, 2, 3, 4, 5, 6, 7];
const BASE64_JSON: &str = "\"AQIDBAUGBw==\"";
const BASE64: &str = "AQIDBAUGBw==";

#[test]
fn test_serde_byte_array_good() {
    let arr = ByteArray::<7>::try_from_slice(BYTES).unwrap();
    let b64 = format!("\"{}\"", arr.serialize());
    assert_eq!(b64, BASE64_JSON);
    let bytes = ByteArray::<7>::deserialize(b64.trim_matches('"')).unwrap();
    assert_eq!(bytes.as_slice(), BYTES);
}

#[test]
fn test_serde_deserialize_byte_array_invalid() {
    ByteArray::<0>::deserialize("Z").err().unwrap();
}

#[test]
fn test_serde_base64_deserialize_array_long() {
    ByteArray::<6>::deserialize(BASE64).err().unwrap();
}

#[test]
fn test_serde_base64_deserialize_array_short() {
    ByteArray::<8>::deserialize(BASE64).err().unwrap();
}

#[test]
fn fixed_length_is_checked_around_n() {
    let bytes = [9u8; 33];
    assert!(ByteArray::<32>::try_from_slice(&bytes[..32]).is_ok());
    assert_eq!(
        ByteArray::<32>::try_from_slice(&bytes[..31]).err().unwrap(),
        LengthError { expected: 32, actual: 31 }
    );
    assert_eq!(
        ByteArray::<32>::try_from_slice(&bytes[..33]).err().unwrap(),
        LengthError { expected: 32, actual: 33 }
    );
    assert!(ByteArray::<0>::try_from_slice(&[]).is_ok());
    assert!(ByteArray::<0>::try_from_slice(&[1]).is_err());
    assert!(ByteArray::<1>::try_from_slice(&[]).is_err());
}

#[test]
fn fixed_deserialize_reports_each_error() {
    assert!(matches!(
        ByteArray::<6>::deserialize(BASE64),
        Err(JwkError::InvalidLength(LengthError { expected: 6, actual: 7 }))
    ));
    assert!(matches!(ByteArray::<7>::deserialize("!!!!"), Err(JwkError::Base64Decode(_))));
    assert_eq!(ByteArray::<7>::deserialize(BASE64).unwrap().len(), 7);
}

#[test]
fn byte_array_equality_and_clone() {
    let a = ByteArray::<3>::try_from_slice(&[1, 2, 3]).unwrap();
    let b = ByteArray::<3>::try_from_slice(&[1, 2, 3]).unwrap();
    let c = ByteArray::<3>::try_from_slice(&[1, 2, 4]).unwrap();
    assert!(a == b);
    assert!(a != c);
    assert!(a.clone() == a);
}

#[test]
fn byte_vec_accepts_any_length() {
    assert_eq!(ByteVec::from_slice(&[]).len(), 0);
    let v = ByteVec::from_slice(BYTES);
    assert_eq!(v.as_slice(), BYTES);
    assert_eq!(v.to_vec(), BYTES.to_vec());
    assert_eq!(ByteVec::new(vec![1, 2]).as_slice(), &[1, 2]);
    assert!(v.clone() == v);
}

#[test]
fn byte_vec_base64_round_trip() {
    let v = ByteVec::from_slice(&[0xfb, 0xff, 0xfe, 0x01]);
    let text = v.serialize();
    assert_eq!(text, "-__-AQ==");
    assert!(ByteVec::deserialize(&text).unwrap() == v);
    assert_eq!(ByteVec::from_slice(BYTES).serialize(), BASE64);
}

#[test]
fn byte_vec_decodes_unpadded_url_safe_text() {
    let v = ByteVec::deserialize("Wpj30SfkzM_m0Sa_B2NqNw").unwrap();
    assert_eq!(v.len(), 16);
    assert_eq!(v.as_slice()[0], 0x5a);
    assert!(matches!(ByteVec::deserialize("a+b/"), Err(JwkError::Base64Decode(_))));
}

#[test]
fn exponent_has_two_encodings() {
    assert_eq!(PublicExponent::deserialize("AQAB").unwrap(), PublicExponent);
    assert_eq!(PublicExponent::deserialize("AQABAA==").unwrap(), PublicExponent);
    assert!(matches!(PublicExponent::deserialize("AQAC"), Err(JwkError::InvalidExponent)));
    assert!(matches!(PublicExponent::deserialize(""), Err(JwkError::InvalidExponent)));
    assert!(matches!(PublicExponent::deserialize("AQABAA"), Err(JwkError::InvalidExponent)));
    assert_eq!(PublicExponent.serialize(), "AQAB");
    assert_eq!(PublicExponent.value(), 65537);
}

#[test]
fn zeroize_overwrites_in_place() {
    let mut a = ByteArray::<3>::try_from_slice(&[1, 2, 3]).unwrap();
    a.zeroize();
    assert_eq!(a.as_slice(), &[0, 0, 0]);
    let mut v = ByteVec::from_slice(BYTES);
    v.zeroize();
    assert_eq!(v.as_slice(), &[0u8; 7]);
}
