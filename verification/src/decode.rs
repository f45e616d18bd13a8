//! Reading a key record from the members of a JSON object.

use vstd::prelude::*;
use vstd::string::StringSliceAdditionalSpecFns;
use crate::base64_text::url_base64_bytes;
use crate::byte_array::ByteArray;
use crate::byte_vec::ByteVec;
use crate::error::{ErrorKind, JwkError};
use crate::json::{get_member, parse_object, json_members, json_parsed, JsonMember, JsonMemberView};
use crate::jwk::{JsonWebKey, JsonWebKeyView};
use crate::key::{
    spec_is_exponent_text, spec_opt_array, spec_opt_vec, Algorithm, Curve, CurveView, Key, KeyUse,
    KeyView, PublicExponent, RsaPrivate, RsaPrivateView, RsaPublic, RsaPublicView,
};
use crate::key_ops::KeyOps;
use crate::text::same_text;
use crate::wipe::wipe_text;

verus! {

/// A member that must be there and be a string.
pub open spec fn spec_required_text(
    m: Map<Seq<char>, JsonMemberView>,
    name: Seq<char>,
) -> Result<Seq<char>, ErrorKind> {
    if m.contains_key(name) {
        match m[name] {
            JsonMemberView::Text(t) => Ok(t),
            _ => Err(ErrorKind::MalformedField),
        }
    } else {
        Err(ErrorKind::MalformedField)
    }
}

/// A member that may be absent or `null`, and is a string if it is
/// neither.
pub open spec fn spec_optional_text(
    m: Map<Seq<char>, JsonMemberView>,
    name: Seq<char>,
) -> Result<Option<Seq<char>>, ErrorKind> {
    if m.contains_key(name) {
        match m[name] {
            JsonMemberView::Text(t) => Ok(Some(t)),
            JsonMemberView::Null => Ok(None),
            _ => Err(ErrorKind::MalformedField),
        }
    } else {
        Ok(None)
    }
}

/// The bytes of a base64 text.
pub open spec fn spec_bytes_of(text: Seq<char>) -> Result<Seq<u8>, ErrorKind> {
    match url_base64_bytes(text) {
        Some(b) => Ok(b),
        None => Err(ErrorKind::Base64Decode),
    }
}

/// The bytes of a base64 text that must stand for 32 of them.
pub open spec fn spec_fixed_of(text: Seq<char>) -> Result<Seq<u8>, ErrorKind> {
    match url_base64_bytes(text) {
        Some(b) => if b.len() == 32 {
            Ok(b)
        } else {
            Err(ErrorKind::InvalidLength)
        },
        None => Err(ErrorKind::Base64Decode),
    }
}

/// The bytes of a member that must be there.
pub open spec fn spec_required_bytes(
    m: Map<Seq<char>, JsonMemberView>,
    name: Seq<char>,
) -> Result<Seq<u8>, ErrorKind> {
    match spec_required_text(m, name) {
        Ok(t) => spec_bytes_of(t),
        Err(e) => Err(e),
    }
}

/// The bytes of a member that may be absent.
pub open spec fn spec_optional_bytes(
    m: Map<Seq<char>, JsonMemberView>,
    name: Seq<char>,
) -> Result<Option<Seq<u8>>, ErrorKind> {
    match spec_optional_text(m, name) {
        Ok(Some(t)) => match spec_bytes_of(t) {
            Ok(b) => Ok(Some(b)),
            Err(e) => Err(e),
        },
        Ok(None) => Ok(None),
        Err(e) => Err(e),
    }
}

/// The 32 bytes of a member that must be there.
pub open spec fn spec_required_fixed(
    m: Map<Seq<char>, JsonMemberView>,
    name: Seq<char>,
) -> Result<Seq<u8>, ErrorKind> {
    match spec_required_text(m, name) {
        Ok(t) => spec_fixed_of(t),
        Err(e) => Err(e),
    }
}

/// The 32 bytes of a member that may be absent.
pub open spec fn spec_optional_fixed(
    m: Map<Seq<char>, JsonMemberView>,
    name: Seq<char>,
) -> Result<Option<Seq<u8>>, ErrorKind> {
    match spec_optional_text(m, name) {
        Ok(Some(t)) => match spec_fixed_of(t) {
            Ok(b) => Ok(Some(b)),
            Err(e) => Err(e),
        },
        Ok(None) => Ok(None),
        Err(e) => Err(e),
    }
}

/// A P-256 key: `crv` must be "P-256", `x` and `y` 32 bytes each, and `d`,
/// where it is there, 32 bytes too.
pub open spec fn spec_decode_ec(m: Map<Seq<char>, JsonMemberView>) -> Result<KeyView, ErrorKind> {
    match spec_required_text(m, "crv"@) {
        Err(e) => Err(e),
        Ok(crv) => if crv != "P-256"@ {
            Err(ErrorKind::UnknownCurve)
        } else {
            match spec_optional_fixed(m, "d"@) {
                Err(e) => Err(e),
                Ok(d) => match spec_required_fixed(m, "x"@) {
                    Err(e) => Err(e),
                    Ok(x) => match spec_required_fixed(m, "y"@) {
                        Err(e) => Err(e),
                        Ok(y) => Ok(KeyView::EC { curve: CurveView::P256 { d, x, y } }),
                    },
                },
            }
        },
    }
}

/// The private half of an RSA key: there if `d` is, with those of
/// `p`, `q`, `dp`, `dq`, `qi` that are there.
pub open spec fn spec_decode_rsa_private(m: Map<Seq<char>, JsonMemberView>) -> Result<
    Option<RsaPrivateView>,
    ErrorKind,
> {
    match spec_optional_bytes(m, "d"@) {
        Err(e) => Err(e),
        Ok(None) => Ok(None),
        Ok(Some(d)) => match spec_optional_bytes(m, "p"@) {
            Err(e) => Err(e),
            Ok(p) => match spec_optional_bytes(m, "q"@) {
                Err(e) => Err(e),
                Ok(q) => match spec_optional_bytes(m, "dp"@) {
                    Err(e) => Err(e),
                    Ok(dp) => match spec_optional_bytes(m, "dq"@) {
                        Err(e) => Err(e),
                        Ok(dq) => match spec_optional_bytes(m, "qi"@) {
                            Err(e) => Err(e),
                            Ok(qi) => Ok(Some(RsaPrivateView { d, p, q, dp, dq, qi })),
                        },
                    },
                },
            },
        },
    }
}

/// An RSA key: `e` must be 65537 in one of its two encodings.
pub open spec fn spec_decode_rsa(m: Map<Seq<char>, JsonMemberView>) -> Result<KeyView, ErrorKind> {
    match spec_required_text(m, "e"@) {
        Err(e) => Err(e),
        Ok(e) => if !spec_is_exponent_text(e) {
            Err(ErrorKind::InvalidExponent)
        } else {
            match spec_required_bytes(m, "n"@) {
                Err(e) => Err(e),
                Ok(n) => match spec_decode_rsa_private(m) {
                    Err(e) => Err(e),
                    Ok(private) => Ok(KeyView::RSA { public: RsaPublicView { n }, private }),
                },
            }
        },
    }
}

/// The key that the members spell: by `kty`, "oct", "EC" or "RSA".
pub open spec fn spec_decode_key(m: Map<Seq<char>, JsonMemberView>) -> Result<KeyView, ErrorKind> {
    match spec_required_text(m, "kty"@) {
        Err(e) => Err(e),
        Ok(kty) => if kty == "oct"@ {
            match spec_required_bytes(m, "k"@) {
                Ok(key) => Ok(KeyView::Symmetric { key }),
                Err(e) => Err(e),
            }
        } else if kty == "EC"@ {
            spec_decode_ec(m)
        } else if kty == "RSA"@ {
            spec_decode_rsa(m)
        } else {
            Err(ErrorKind::UnknownKeyType)
        },
    }
}

/// The use that a text names.
pub open spec fn spec_use_of(text: Seq<char>) -> Option<KeyUse> {
    if text == "sig"@ {
        Some(KeyUse::Signing)
    } else if text == "enc"@ {
        Some(KeyUse::Encryption)
    } else {
        None
    }
}

/// The algorithm that a text names.
pub open spec fn spec_algorithm_of(text: Seq<char>) -> Option<Algorithm> {
    if text == "HS256"@ {
        Some(Algorithm::HS256)
    } else if text == "RS256"@ {
        Some(Algorithm::RS256)
    } else if text == "ES256"@ {
        Some(Algorithm::ES256)
    } else {
        None
    }
}

/// The use: none where `use` is absent, else what its text names.
pub open spec fn spec_decode_use(m: Map<Seq<char>, JsonMemberView>) -> Result<
    Option<KeyUse>,
    ErrorKind,
> {
    match spec_optional_text(m, "use"@) {
        Err(e) => Err(e),
        Ok(None) => Ok(None),
        Ok(Some(t)) => match spec_use_of(t) {
            Some(u) => Ok(Some(u)),
            None => Err(ErrorKind::MalformedField),
        },
    }
}

/// The algorithm: none where `alg` is absent, else what its text names.
pub open spec fn spec_decode_algorithm(m: Map<Seq<char>, JsonMemberView>) -> Result<
    Option<Algorithm>,
    ErrorKind,
> {
    match spec_optional_text(m, "alg"@) {
        Err(e) => Err(e),
        Ok(None) => Ok(None),
        Ok(Some(t)) => match spec_algorithm_of(t) {
            Some(a) => Ok(Some(a)),
            None => Err(ErrorKind::MalformedField),
        },
    }
}

/// The set of the strings of an array.
pub open spec fn spec_item_set(items: Seq<Option<Seq<char>>>) -> Set<Seq<char>> {
    Set::new(|t: Seq<char>| items.contains(Some(t)))
}

/// The operations: none where the member is absent, else the strings of
/// an array of strings.
pub open spec fn spec_decode_ops(m: Map<Seq<char>, JsonMemberView>) -> Result<
    Set<Seq<char>>,
    ErrorKind,
> {
    if m.contains_key("key_ops"@) {
        match m["key_ops"@] {
            JsonMemberView::List(items) => if forall|i: int|
                0 <= i < items.len() ==> items[i] is Some {
                Ok(spec_item_set(items))
            } else {
                Err(ErrorKind::MalformedField)
            },
            _ => Err(ErrorKind::MalformedField),
        }
    } else {
        Ok(Set::empty())
    }
}

/// The record that the members spell, its algorithm not yet held against
/// its key.
pub open spec fn spec_decode(m: Map<Seq<char>, JsonMemberView>) -> Result<
    JsonWebKeyView,
    ErrorKind,
> {
    match spec_decode_key(m) {
        Err(e) => Err(e),
        Ok(key) => match spec_decode_use(m) {
            Err(e) => Err(e),
            Ok(key_use) => match spec_decode_ops(m) {
                Err(e) => Err(e),
                Ok(key_ops) => match spec_optional_text(m, "kid"@) {
                    Err(e) => Err(e),
                    Ok(key_id) => match spec_decode_algorithm(m) {
                        Err(e) => Err(e),
                        Ok(algorithm) => Ok(
                            JsonWebKeyView { key, key_use, key_ops, key_id, algorithm },
                        ),
                    },
                },
            },
        },
    }
}

/// The record that the members spell, refused where its algorithm does
/// not fit its key.
pub open spec fn spec_decode_checked(m: Map<Seq<char>, JsonMemberView>) -> Result<
    JsonWebKeyView,
    ErrorKind,
> {
    match spec_decode(m) {
        Err(e) => Err(e),
        Ok(k) => if k.algorithm_fits() {
            Ok(k)
        } else {
            Err(ErrorKind::MismatchedAlgorithm)
        },
    }
}

/// What parsing a text gives: a JSON error where it spells no object,
/// else what its members spell, refused where the algorithm does not fit
/// the key.
pub open spec fn spec_read_checked(text: Seq<u8>) -> Result<JsonWebKeyView, ErrorKind> {
    match json_parsed(text) {
        None => Err(ErrorKind::Serde),
        Some(m) => spec_decode_checked(m),
    }
}

fn required_text(doc: &serde_json::Map<String, serde_json::Value>, name: &str) -> (r: Result<
    String,
    JwkError,
>)
    ensures
        match r {
            Ok(t) => spec_required_text(json_members(*doc), name@) == Ok::<_, ErrorKind>(t@),
            Err(e) => spec_required_text(json_members(*doc), name@) == Err::<Seq<char>, _>(
                e.spec_kind(),
            ),
        },
{
    match get_member(doc, name) {
        Some(JsonMember::Text(t)) => Ok(t),
        _ => Err(JwkError::MalformedField),
    }
}

fn optional_text(doc: &serde_json::Map<String, serde_json::Value>, name: &str) -> (r: Result<
    Option<String>,
    JwkError,
>)
    ensures
        match r {
            Ok(t) => spec_optional_text(json_members(*doc), name@) == Ok::<_, ErrorKind>(
                crate::json::spec_opt_text(t),
            ),
            Err(e) => spec_optional_text(json_members(*doc), name@) == Err::<Option<Seq<char>>, _>(
                e.spec_kind(),
            ),
        },
{
    match get_member(doc, name) {
        None => Ok(None),
        Some(JsonMember::Null) => Ok(None),
        Some(JsonMember::Text(t)) => Ok(Some(t)),
        Some(_) => Err(JwkError::MalformedField),
    }
}

fn required_bytes(doc: &serde_json::Map<String, serde_json::Value>, name: &str) -> (r: Result<
    ByteVec,
    JwkError,
>)
    ensures
        match r {
            Ok(b) => spec_required_bytes(json_members(*doc), name@) == Ok::<_, ErrorKind>(b@),
            Err(e) => spec_required_bytes(json_members(*doc), name@) == Err::<Seq<u8>, _>(
                e.spec_kind(),
            ),
        },
{
    match required_text(doc, name) {
        Ok(t) => {
            let mut text = t;
            let r = ByteVec::deserialize(text.as_str());
            wipe_text(&mut text);
            r
        },
        Err(e) => Err(e),
    }
}

fn optional_bytes(doc: &serde_json::Map<String, serde_json::Value>, name: &str) -> (r: Result<
    Option<ByteVec>,
    JwkError,
>)
    ensures
        match r {
            Ok(b) => spec_optional_bytes(json_members(*doc), name@) == Ok::<_, ErrorKind>(
                spec_opt_vec(b),
            ),
            Err(e) => spec_optional_bytes(json_members(*doc), name@) == Err::<Option<Seq<u8>>, _>(
                e.spec_kind(),
            ),
        },
{
    match optional_text(doc, name) {
        Ok(Some(t)) => {
            let mut text = t;
            let r = ByteVec::deserialize(text.as_str());
            wipe_text(&mut text);
            match r {
                Ok(b) => Ok(Some(b)),
                Err(e) => Err(e),
            }
        },
        Ok(None) => Ok(None),
        Err(e) => Err(e),
    }
}

fn required_fixed(doc: &serde_json::Map<String, serde_json::Value>, name: &str) -> (r: Result<
    ByteArray<32>,
    JwkError,
>)
    ensures
        match r {
            Ok(b) => spec_required_fixed(json_members(*doc), name@) == Ok::<_, ErrorKind>(b@),
            Err(e) => spec_required_fixed(json_members(*doc), name@) == Err::<Seq<u8>, _>(
                e.spec_kind(),
            ),
        },
{
    match required_text(doc, name) {
        Ok(t) => {
            let mut text = t;
            let r = ByteArray::<32>::deserialize(text.as_str());
            wipe_text(&mut text);
            r
        },
        Err(e) => Err(e),
    }
}

fn optional_fixed(doc: &serde_json::Map<String, serde_json::Value>, name: &str) -> (r: Result<
    Option<ByteArray<32>>,
    JwkError,
>)
    ensures
        match r {
            Ok(b) => spec_optional_fixed(json_members(*doc), name@) == Ok::<_, ErrorKind>(
                spec_opt_array(b),
            ),
            Err(e) => spec_optional_fixed(json_members(*doc), name@) == Err::<Option<Seq<u8>>, _>(
                e.spec_kind(),
            ),
        },
{
    match optional_text(doc, name) {
        Ok(Some(t)) => {
            let mut text = t;
            let r = ByteArray::<32>::deserialize(text.as_str());
            wipe_text(&mut text);
            match r {
                Ok(b) => Ok(Some(b)),
                Err(e) => Err(e),
            }
        },
        Ok(None) => Ok(None),
        Err(e) => Err(e),
    }
}

fn decode_ec(doc: &serde_json::Map<String, serde_json::Value>) -> (r: Result<Key, JwkError>)
    ensures
        match r {
            Ok(k) => spec_decode_ec(json_members(*doc)) == Ok::<_, ErrorKind>(k@),
            Err(e) => spec_decode_ec(json_members(*doc)) == Err::<KeyView, _>(e.spec_kind()),
        },
{
    let crv = match required_text(doc, "crv") {
        Ok(t) => t,
        Err(e) => { return Err(e); },
    };
    if !same_text(crv.as_str(), "P-256") {
        return Err(JwkError::UnknownCurve);
    }
    let d = match optional_fixed(doc, "d") {
        Ok(v) => v,
        Err(e) => { return Err(e); },
    };
    let x = match required_fixed(doc, "x") {
        Ok(v) => v,
        Err(e) => { return Err(e); },
    };
    let y = match required_fixed(doc, "y") {
        Ok(v) => v,
        Err(e) => { return Err(e); },
    };
    Ok(Key::EC { curve: Curve::P256 { d, x, y } })
}

fn decode_rsa_private(doc: &serde_json::Map<String, serde_json::Value>) -> (r: Result<
    Option<RsaPrivate>,
    JwkError,
>)
    ensures
        match r {
            Ok(Some(p)) => spec_decode_rsa_private(json_members(*doc)) == Ok::<_, ErrorKind>(
                Some(p@),
            ),
            Ok(None) => spec_decode_rsa_private(json_members(*doc)) == Ok::<_, ErrorKind>(
                None::<RsaPrivateView>,
            ),
            Err(e) => spec_decode_rsa_private(json_members(*doc)) == Err::<
                Option<RsaPrivateView>,
                _,
            >(e.spec_kind()),
        },
{
    let d = match optional_bytes(doc, "d") {
        Ok(Some(v)) => v,
        Ok(None) => { return Ok(None); },
        Err(e) => { return Err(e); },
    };
    let p = match optional_bytes(doc, "p") {
        Ok(v) => v,
        Err(e) => { return Err(e); },
    };
    let q = match optional_bytes(doc, "q") {
        Ok(v) => v,
        Err(e) => { return Err(e); },
    };
    let dp = match optional_bytes(doc, "dp") {
        Ok(v) => v,
        Err(e) => { return Err(e); },
    };
    let dq = match optional_bytes(doc, "dq") {
        Ok(v) => v,
        Err(e) => { return Err(e); },
    };
    let qi = match optional_bytes(doc, "qi") {
        Ok(v) => v,
        Err(e) => { return Err(e); },
    };
    Ok(Some(RsaPrivate { d, p, q, dp, dq, qi }))
}

fn decode_rsa(doc: &serde_json::Map<String, serde_json::Value>) -> (r: Result<Key, JwkError>)
    ensures
        match r {
            Ok(k) => spec_decode_rsa(json_members(*doc)) == Ok::<_, ErrorKind>(k@),
            Err(e) => spec_decode_rsa(json_members(*doc)) == Err::<KeyView, _>(e.spec_kind()),
        },
{
    let e = match required_text(doc, "e") {
        Ok(t) => t,
        Err(e) => { return Err(e); },
    };
    let e = match PublicExponent::deserialize(e.as_str()) {
        Ok(v) => v,
        Err(e) => { return Err(e); },
    };
    let n = match required_bytes(doc, "n") {
        Ok(v) => v,
        Err(e) => { return Err(e); },
    };
    let private = match decode_rsa_private(doc) {
        Ok(v) => v,
        Err(e) => { return Err(e); },
    };
    Ok(Key::RSA { public: RsaPublic { e, n }, private })
}

fn decode_ops(doc: &serde_json::Map<String, serde_json::Value>) -> (r: Result<KeyOps, JwkError>)
    ensures
        match r {
            Ok(ops) => spec_decode_ops(json_members(*doc)) == Ok::<_, ErrorKind>(ops@),
            Err(e) => spec_decode_ops(json_members(*doc)) == Err::<Set<Seq<char>>, _>(
                e.spec_kind(),
            ),
        },
{
    match get_member(doc, "key_ops") {
        None => Ok(KeyOps::empty()),
        Some(JsonMember::List(items)) => {
            let ghost view = (JsonMember::List(items))@->List_0;
            let mut ops = KeyOps::empty();
            let mut i: usize = 0;
            while i < items.len()
                invariant
                    i <= items.len(),
                    view.len() == items@.len(),
                    json_members(*doc).contains_key("key_ops"@),
                    json_members(*doc)["key_ops"@] == JsonMemberView::List(view),
                    forall|j: int| 0 <= j < view.len() ==> view[j] == crate::json::spec_opt_text(items@[j]),
                    forall|j: int| 0 <= j < i ==> view[j] is Some,
                    forall|t: Seq<char>| ops@.contains(t) <==> exists|j: int| 0 <= j < i && #[trigger] view[j] == Some(t),
                decreases items.len() - i,
            {
                match &items[i] {
                    Some(s) => {
                        let ghost before = ops@;
                        ops.insert(s.as_str());
                        assert(view[i as int] == Some(s@));
                        assert forall|t: Seq<char>| ops@.contains(t) <==> exists|j: int| 0 <= j < i + 1 && #[trigger] view[j] == Some(t) by {
                            if before.contains(t) {
                                let j = choose|j: int| 0 <= j < i && #[trigger] view[j] == Some(t);
                                assert(0 <= j < i + 1 && view[j] == Some(t));
                            }
                            if exists|j: int| 0 <= j < i + 1 && #[trigger] view[j] == Some(t) {
                                let j = choose|j: int| 0 <= j < i + 1 && #[trigger] view[j] == Some(t);
                                if j < i {
                                    assert(before.contains(t));
                                }
                            }
                        }
                    },
                    None => {
                        assert(view[i as int] is None);
                        return Err(JwkError::MalformedField);
                    },
                }
                i += 1;
            }
            assert(ops@ =~= spec_item_set(view)) by {
                assert forall|t: Seq<char>| ops@.contains(t) <==> spec_item_set(view).contains(t) by {
                    if ops@.contains(t) {
                        let j = choose|j: int| 0 <= j < i && #[trigger] view[j] == Some(t);
                        assert(view.contains(Some(t)));
                    }
                    if view.contains(Some(t)) {
                        let j = choose|j: int| 0 <= j < view.len() && view[j] == Some(t);
                        assert(view[j] == Some(t));
                    }
                }
            }
            Ok(ops)
        },
        Some(_) => Err(JwkError::MalformedField),
    }
}

impl Key {
    /// Reads a key from the members of a JSON object.
    pub fn from_object(doc: &serde_json::Map<String, serde_json::Value>) -> (r: Result<
        Key,
        JwkError,
    >)
        ensures
            match r {
                Ok(k) => spec_decode_key(json_members(*doc)) == Ok::<_, ErrorKind>(k@),
                Err(e) => spec_decode_key(json_members(*doc)) == Err::<KeyView, _>(e.spec_kind()),
            },
    {
        let kty = match required_text(doc, "kty") {
            Ok(t) => t,
            Err(e) => { return Err(e); },
        };
        if same_text(kty.as_str(), "oct") {
            match required_bytes(doc, "k") {
                Ok(key) => Ok(Key::Symmetric { key }),
                Err(e) => Err(e),
            }
        } else if same_text(kty.as_str(), "EC") {
            decode_ec(doc)
        } else if same_text(kty.as_str(), "RSA") {
            decode_rsa(doc)
        } else {
            Err(JwkError::UnknownKeyType)
        }
    }
}

impl KeyUse {
    /// The use that a text names: "sig" or "enc".
    pub fn from_text(text: &str) -> (r: Option<KeyUse>)
        ensures
            r == spec_use_of(text@),
    {
        if same_text(text, "sig") {
            Some(KeyUse::Signing)
        } else if same_text(text, "enc") {
            Some(KeyUse::Encryption)
        } else {
            None
        }
    }
}

impl Algorithm {
    /// The algorithm that a text names: "HS256", "RS256" or "ES256".
    pub fn from_text(text: &str) -> (r: Option<Algorithm>)
        ensures
            r == spec_algorithm_of(text@),
    {
        if same_text(text, "HS256") {
            Some(Algorithm::HS256)
        } else if same_text(text, "RS256") {
            Some(Algorithm::RS256)
        } else if same_text(text, "ES256") {
            Some(Algorithm::ES256)
        } else {
            None
        }
    }
}

impl JsonWebKey {
    /// Reads a record from the members of a JSON object. The algorithm is
    /// not held against the key.
    pub fn from_object(doc: &serde_json::Map<String, serde_json::Value>) -> (r: Result<
        JsonWebKey,
        JwkError,
    >)
        ensures
            match r {
                Ok(k) => spec_decode(json_members(*doc)) == Ok::<_, ErrorKind>(k@),
                Err(e) => spec_decode(json_members(*doc)) == Err::<JsonWebKeyView, _>(
                    e.spec_kind(),
                ),
            },
    {
        let key = match Key::from_object(doc) {
            Ok(v) => v,
            Err(e) => { return Err(e); },
        };
        let key_use = match optional_text(doc, "use") {
            Ok(Some(t)) => match KeyUse::from_text(t.as_str()) {
                Some(u) => Some(u),
                None => { return Err(JwkError::MalformedField); },
            },
            Ok(None) => None,
            Err(e) => { return Err(e); },
        };
        let key_ops = match decode_ops(doc) {
            Ok(v) => v,
            Err(e) => { return Err(e); },
        };
        let key_id = match optional_text(doc, "kid") {
            Ok(v) => v,
            Err(e) => { return Err(e); },
        };
        let algorithm = match optional_text(doc, "alg") {
            Ok(Some(t)) => match Algorithm::from_text(t.as_str()) {
                Some(a) => Some(a),
                None => { return Err(JwkError::MalformedField); },
            },
            Ok(None) => None,
            Err(e) => { return Err(e); },
        };
        Ok(JsonWebKey { key: Box::new(key), key_use, key_ops, key_id, algorithm })
    }

    /// Parses a record from the bytes of JSON text and refuses one whose
    /// algorithm does not fit its key.
    pub fn from_slice(bytes: &[u8]) -> (r: Result<JsonWebKey, JwkError>)
        ensures
            match r {
                Ok(k) => spec_read_checked(bytes@) == Ok::<_, ErrorKind>(k@),
                Err(e) => spec_read_checked(bytes@) == Err::<JsonWebKeyView, _>(e.spec_kind()),
            },
    {
        let jwk = match parse_object(bytes) {
            Ok(doc) => match Self::from_object(&doc) {
                Ok(v) => v,
                Err(e) => { return Err(e); },
            },
            Err(e) => { return Err(JwkError::Serde(e)); },
        };
        match jwk.algorithm {
            None => Ok(jwk),
            Some(alg) => match Self::validate_algorithm(alg, &*jwk.key) {
                Ok(_) => Ok(jwk),
                Err(e) => Err(e),
            },
        }
    }

    /// Parses a record from JSON text, as `from_slice` does from its bytes.
    pub fn from_str(json: &str) -> (r: Result<JsonWebKey, JwkError>)
        ensures
            match r {
                Ok(k) => spec_read_checked(json.spec_bytes()) == Ok::<_, ErrorKind>(k@),
                Err(e) => spec_read_checked(json.spec_bytes()) == Err::<JsonWebKeyView, _>(
                    e.spec_kind(),
                ),
            },
    {
        Self::from_slice(json.as_bytes())
    }
}

} // verus!
