//! JSON Web Keys: a typed model of symmetric, P-256 and RSA keys with
//! base64 transport of their bytes, public-key derivation, algorithm
//! gating and PKCS#8 export as DER and PEM.

pub mod base64_text;
pub mod byte_array;
pub mod byte_vec;
pub mod decode;
pub mod der;
pub mod encode;
pub mod error;
pub mod generate;
pub mod json;
pub mod jwk;
pub mod key;
pub mod key_ops;
pub mod material;
pub mod pkcs8;
pub mod text;
pub mod token_keys;
pub mod wipe;

pub use byte_array::ByteArray;
pub use byte_vec::ByteVec;
pub use error::{ConversionError, ErrorKind, JwkError, LengthError};
pub use jwk::JsonWebKey;
pub use key_ops::KeyOps;
pub use material::KeyMaterial;
pub use key::{Algorithm, Curve, Key, KeyUse, PublicExponent, RsaPrivate, RsaPublic};
