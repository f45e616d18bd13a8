//! Writing a key record as the members of a JSON object, and as text.

use vstd::prelude::*;
use vstd::string::StringExecFns;
use vstd::string::StringSliceAdditionalSpecFns;
use crate::base64_text::{url_base64_bytes, url_base64_text};
use crate::byte_array::ByteArray;
use crate::byte_vec::ByteVec;
use crate::decode::{
    spec_algorithm_of, spec_decode, spec_decode_algorithm, spec_decode_ec, spec_decode_key,
    spec_decode_ops, spec_decode_rsa, spec_decode_rsa_private, spec_decode_use, spec_item_set,
    spec_optional_bytes, spec_optional_fixed, spec_optional_text, spec_read_checked,
    spec_required_bytes, spec_required_fixed, spec_required_text, spec_use_of,
};
use crate::error::ErrorKind;
use crate::json::{
    json_members, json_order, json_text, json_text_pretty, new_object, put_list, put_text, render,
    render_pretty, spec_all_plain, spec_opt_text, spec_text_list, spec_texts, JsonMemberView,
};
use crate::jwk::{JsonWebKey, JsonWebKeyView};
use crate::key::{Algorithm, Curve, CurveView, Key, KeyUse, KeyView, RsaPrivateView};
use crate::key_ops::{spec_sorted_tokens, spec_token_set};

verus! {

/// The members of a JSON object with the order of their names.
pub struct Fields {
    pub order: Seq<Seq<char>>,
    pub members: Map<Seq<char>, JsonMemberView>,
}

impl Fields {
    /// No members.
    pub open spec fn none() -> Fields {
        Fields { order: Seq::empty(), members: Map::empty() }
    }

    /// With one more string member at the end.
    pub open spec fn text(self, name: Seq<char>, text: Seq<char>) -> Fields {
        Fields {
            order: self.order.push(name),
            members: self.members.insert(name, JsonMemberView::Text(text)),
        }
    }

    /// With the base64 text of the bytes as one more member at the end.
    pub open spec fn bytes(self, name: Seq<char>, bytes: Seq<u8>) -> Fields {
        self.text(name, url_base64_text(bytes))
    }

    /// With the base64 text of the bytes, where there are any.
    pub open spec fn opt_bytes(self, name: Seq<char>, bytes: Option<Seq<u8>>) -> Fields {
        match bytes {
            Some(b) => self.bytes(name, b),
            None => self,
        }
    }

    /// With one more member at the end, an array of strings.
    pub open spec fn list(self, name: Seq<char>, texts: Seq<Seq<char>>) -> Fields {
        Fields {
            order: self.order.push(name),
            members: self.members.insert(name, spec_text_list(texts)),
        }
    }
}

/// The members that an object holds, with their order.
pub open spec fn spec_fields(doc: serde_json::Map<String, serde_json::Value>) -> Fields {
    Fields { order: json_order(doc), members: json_members(doc) }
}

/// The text of a use.
pub open spec fn spec_use_text(u: KeyUse) -> Seq<char> {
    match u {
        KeyUse::Signing => "sig"@,
        KeyUse::Encryption => "enc"@,
    }
}

/// The text of an algorithm.
pub open spec fn spec_algorithm_text(a: Algorithm) -> Seq<char> {
    match a {
        Algorithm::HS256 => "HS256"@,
        Algorithm::RS256 => "RS256"@,
        Algorithm::ES256 => "ES256"@,
    }
}

/// The private members of an RSA key, those that are there.
pub open spec fn spec_encode_rsa_private(f: Fields, private: Option<RsaPrivateView>) -> Fields {
    match private {
        Some(p) => f.bytes("d"@, p.d).opt_bytes("p"@, p.p).opt_bytes("q"@, p.q).opt_bytes(
            "dp"@,
            p.dp,
        ).opt_bytes("dq"@, p.dq).opt_bytes("qi"@, p.qi),
        None => f,
    }
}

/// The members of a key: `kty` first, then the key's own in the order of
/// their declaration, those that are absent left out.
pub open spec fn spec_encode_key(k: KeyView) -> Fields {
    match k {
        KeyView::Symmetric { key } => Fields::none().text("kty"@, "oct"@).bytes("k"@, key),
        KeyView::EC { curve: CurveView::P256 { d, x, y } } => Fields::none().text(
            "kty"@,
            "EC"@,
        ).text("crv"@, "P-256"@).opt_bytes("d"@, d).bytes("x"@, x).bytes("y"@, y),
        KeyView::RSA { public, private } => spec_encode_rsa_private(
            Fields::none().text("kty"@, "RSA"@).text("e"@, "AQAB"@).bytes("n"@, public.n),
            private,
        ),
    }
}

/// The members of a record: the key's, then `use`, `key_ops`, `kid` and
/// `alg`, each left out where the record holds nothing for it.
pub open spec fn spec_encode(k: JsonWebKeyView, ops: Seq<Seq<char>>) -> Fields {
    let f = spec_encode_key(k.key);
    let f = match k.key_use {
        Some(u) => f.text("use"@, spec_use_text(u)),
        None => f,
    };
    let f = if ops.len() > 0 {
        f.list("key_ops"@, ops)
    } else {
        f
    };
    let f = match k.key_id {
        Some(id) => f.text("kid"@, id),
        None => f,
    };
    match k.algorithm {
        Some(a) => f.text("alg"@, spec_algorithm_text(a)),
        None => f,
    }
}

/// What tells one literal of the codec from another: its length, its first
/// and its last character.
pub open spec fn spec_mark(s: Seq<char>) -> (nat, char, char) {
    if s.len() == 0 {
        (0nat, ' ', ' ')
    } else {
        (s.len(), s[0], s[s.len() - 1])
    }
}

/// The marks of the names and tags that the codec writes.
pub open spec fn spec_marks_known() -> bool {
    &&& spec_mark("kty"@) == (3nat, 'k', 'y')
    &&& spec_mark("crv"@) == (3nat, 'c', 'v')
    &&& spec_mark("use"@) == (3nat, 'u', 'e')
    &&& spec_mark("kid"@) == (3nat, 'k', 'd')
    &&& spec_mark("alg"@) == (3nat, 'a', 'g')
    &&& spec_mark("key_ops"@) == (7nat, 'k', 's')
    &&& spec_mark("k"@) == (1nat, 'k', 'k')
    &&& spec_mark("x"@) == (1nat, 'x', 'x')
    &&& spec_mark("y"@) == (1nat, 'y', 'y')
    &&& spec_mark("d"@) == (1nat, 'd', 'd')
    &&& spec_mark("e"@) == (1nat, 'e', 'e')
    &&& spec_mark("n"@) == (1nat, 'n', 'n')
    &&& spec_mark("p"@) == (1nat, 'p', 'p')
    &&& spec_mark("q"@) == (1nat, 'q', 'q')
    &&& spec_mark("dp"@) == (2nat, 'd', 'p')
    &&& spec_mark("dq"@) == (2nat, 'd', 'q')
    &&& spec_mark("qi"@) == (2nat, 'q', 'i')
    &&& spec_mark("oct"@) == (3nat, 'o', 't')
    &&& spec_mark("EC"@) == (2nat, 'E', 'C')
    &&& spec_mark("RSA"@) == (3nat, 'R', 'A')
    &&& spec_mark("sig"@) == (3nat, 's', 'g')
    &&& spec_mark("enc"@) == (3nat, 'e', 'c')
    &&& spec_mark("HS256"@) == (5nat, 'H', '6')
    &&& spec_mark("RS256"@) == (5nat, 'R', '6')
    &&& spec_mark("ES256"@) == (5nat, 'E', '6')
}

proof fn lemma_marks()
    ensures
        spec_marks_known(),
{
    reveal_strlit("kty");
    reveal_strlit("crv");
    reveal_strlit("use");
    reveal_strlit("kid");
    reveal_strlit("alg");
    reveal_strlit("key_ops");
    reveal_strlit("k");
    reveal_strlit("x");
    reveal_strlit("y");
    reveal_strlit("d");
    reveal_strlit("e");
    reveal_strlit("n");
    reveal_strlit("p");
    reveal_strlit("q");
    reveal_strlit("dp");
    reveal_strlit("dq");
    reveal_strlit("qi");
    reveal_strlit("oct");
    reveal_strlit("EC");
    reveal_strlit("RSA");
    reveal_strlit("sig");
    reveal_strlit("enc");
    reveal_strlit("HS256");
    reveal_strlit("RS256");
    reveal_strlit("ES256");
}

/// Whether a name is one of the four that stand round the key.
pub open spec fn spec_is_envelope_name(name: Seq<char>) -> bool {
    name == "use"@ || name == "key_ops"@ || name == "kid"@ || name == "alg"@
}

/// Whether an object holds none of the four members that stand round the key.
pub open spec fn spec_bare(m: Map<Seq<char>, JsonMemberView>) -> bool {
    forall|name: Seq<char>| spec_is_envelope_name(name) ==> !m.contains_key(name)
}

proof fn lemma_lookup_frame(
    m: Map<Seq<char>, JsonMemberView>,
    name: Seq<char>,
    v: JsonMemberView,
    field: Seq<char>,
)
    requires
        name != field,
    ensures
        spec_required_text(m.insert(name, v), field) == spec_required_text(m, field),
        spec_optional_text(m.insert(name, v), field) == spec_optional_text(m, field),
        spec_required_bytes(m.insert(name, v), field) == spec_required_bytes(m, field),
        spec_optional_bytes(m.insert(name, v), field) == spec_optional_bytes(m, field),
        spec_required_fixed(m.insert(name, v), field) == spec_required_fixed(m, field),
        spec_optional_fixed(m.insert(name, v), field) == spec_optional_fixed(m, field),
{
}

proof fn lemma_ec_frame(m: Map<Seq<char>, JsonMemberView>, name: Seq<char>, v: JsonMemberView)
    requires
        name != "crv"@,
        name != "d"@,
        name != "x"@,
        name != "y"@,
    ensures
        spec_decode_ec(m.insert(name, v)) == spec_decode_ec(m),
{
    lemma_lookup_frame(m, name, v, "crv"@);
    lemma_lookup_frame(m, name, v, "d"@);
    lemma_lookup_frame(m, name, v, "x"@);
    lemma_lookup_frame(m, name, v, "y"@);
}

proof fn lemma_rsa_private_frame(
    m: Map<Seq<char>, JsonMemberView>,
    name: Seq<char>,
    v: JsonMemberView,
)
    requires
        name != "d"@,
        name != "p"@,
        name != "q"@,
        name != "dp"@,
        name != "dq"@,
        name != "qi"@,
    ensures
        spec_decode_rsa_private(m.insert(name, v)) == spec_decode_rsa_private(m),
{
    lemma_lookup_frame(m, name, v, "d"@);
    lemma_lookup_frame(m, name, v, "p"@);
    lemma_lookup_frame(m, name, v, "q"@);
    lemma_lookup_frame(m, name, v, "dp"@);
    lemma_lookup_frame(m, name, v, "dq"@);
    lemma_lookup_frame(m, name, v, "qi"@);
}

proof fn lemma_rsa_frame(m: Map<Seq<char>, JsonMemberView>, name: Seq<char>, v: JsonMemberView)
    requires
        name != "e"@,
        name != "n"@,
        spec_decode_rsa_private(m.insert(name, v)) == spec_decode_rsa_private(m),
    ensures
        spec_decode_rsa(m.insert(name, v)) == spec_decode_rsa(m),
{
    lemma_lookup_frame(m, name, v, "e"@);
    lemma_lookup_frame(m, name, v, "n"@);
}

proof fn lemma_key_frame(m: Map<Seq<char>, JsonMemberView>, name: Seq<char>, v: JsonMemberView)
    requires
        spec_is_envelope_name(name),
    ensures
        spec_decode_key(m.insert(name, v)) == spec_decode_key(m),
{
    lemma_marks();
    assert(name != "kty"@ && name != "k"@ && name != "crv"@ && name != "d"@ && name != "x"@);
    assert(name != "y"@ && name != "e"@ && name != "n"@ && name != "p"@ && name != "q"@);
    assert(name != "dp"@ && name != "dq"@ && name != "qi"@);
    lemma_ec_frame(m, name, v);
    lemma_rsa_private_frame(m, name, v);
    lemma_rsa_frame(m, name, v);
    lemma_lookup_frame(m, name, v, "kty"@);
    lemma_lookup_frame(m, name, v, "k"@);
}

fn add_text(doc: &mut serde_json::Map<String, serde_json::Value>, name: &str, text: String)
    requires
        !json_members(*old(doc)).contains_key(name@),
        spec_all_plain(json_members(*old(doc))),
    ensures
        spec_fields(*final(doc)) == spec_fields(*old(doc)).text(name@, text@),
        spec_all_plain(json_members(*final(doc))),
{
    put_text(doc, name, text);
}

fn add_bytes(doc: &mut serde_json::Map<String, serde_json::Value>, name: &str, bytes: &ByteVec)
    requires
        !json_members(*old(doc)).contains_key(name@),
        spec_all_plain(json_members(*old(doc))),
    ensures
        spec_fields(*final(doc)) == spec_fields(*old(doc)).bytes(name@, bytes@),
        spec_all_plain(json_members(*final(doc))),
        url_base64_bytes(url_base64_text(bytes@)) == Some(bytes@),
{
    add_text(doc, name, bytes.serialize());
}

fn add_opt_bytes(
    doc: &mut serde_json::Map<String, serde_json::Value>,
    name: &str,
    bytes: &Option<ByteVec>,
)
    requires
        !json_members(*old(doc)).contains_key(name@),
        spec_all_plain(json_members(*old(doc))),
    ensures
        spec_fields(*final(doc)) == spec_fields(*old(doc)).opt_bytes(
            name@,
            crate::key::spec_opt_vec(*bytes),
        ),
        spec_all_plain(json_members(*final(doc))),
        bytes matches Some(b) ==> url_base64_bytes(url_base64_text(b@)) == Some(b@),
{
    match bytes {
        Some(b) => add_bytes(doc, name, b),
        None => {},
    }
}

fn add_fixed(doc: &mut serde_json::Map<String, serde_json::Value>, name: &str, bytes: &ByteArray<32>)
    requires
        !json_members(*old(doc)).contains_key(name@),
        spec_all_plain(json_members(*old(doc))),
    ensures
        spec_fields(*final(doc)) == spec_fields(*old(doc)).bytes(name@, bytes@),
        spec_all_plain(json_members(*final(doc))),
        url_base64_bytes(url_base64_text(bytes@)) == Some(bytes@),
        bytes@.len() == 32,
{
    let _ = bytes.len();
    add_text(doc, name, bytes.serialize());
}

impl KeyUse {
    /// The text of the use: "sig" or "enc".
    pub fn to_text(&self) -> (text: String)
        ensures
            text@ == spec_use_text(*self),
            spec_use_of(text@) == Some(*self),
    {
        proof {
            lemma_marks();
        }
        match self {
            KeyUse::Signing => String::from_str("sig"),
            KeyUse::Encryption => String::from_str("enc"),
        }
    }
}

impl Algorithm {
    /// The text of the algorithm: "HS256", "RS256" or "ES256".
    pub fn to_text(&self) -> (text: String)
        ensures
            text@ == spec_algorithm_text(*self),
            spec_algorithm_of(text@) == Some(*self),
    {
        proof {
            lemma_marks();
        }
        match self {
            Algorithm::HS256 => String::from_str("HS256"),
            Algorithm::RS256 => String::from_str("RS256"),
            Algorithm::ES256 => String::from_str("ES256"),
        }
    }
}

impl Key {
    /// Writes the key's members into an object that holds none yet.
    fn write_members(&self, doc: &mut serde_json::Map<String, serde_json::Value>)
        requires
            spec_fields(*old(doc)) == Fields::none(),
        ensures
            spec_fields(*final(doc)) == spec_encode_key(self@),
            spec_all_plain(json_members(*final(doc))),
            spec_decode_key(json_members(*final(doc))) == Ok::<_, ErrorKind>(self@),
            spec_bare(json_members(*final(doc))),
    {
        proof {
            lemma_marks();
        }
        match self {
            Key::Symmetric { key } => {
                add_text(doc, "kty", String::from_str("oct"));
                add_bytes(doc, "k", key);
            },
            Key::EC { curve: Curve::P256 { d, x, y } } => {
                add_text(doc, "kty", String::from_str("EC"));
                add_text(doc, "crv", String::from_str("P-256"));
                match d {
                    Some(d) => add_fixed(doc, "d", d),
                    None => {},
                }
                add_fixed(doc, "x", x);
                add_fixed(doc, "y", y);
            },
            Key::RSA { public, private } => {
                add_text(doc, "kty", String::from_str("RSA"));
                add_text(doc, "e", public.e.serialize());
                add_bytes(doc, "n", &public.n);
                match private {
                    Some(p) => {
                        add_bytes(doc, "d", &p.d);
                        add_opt_bytes(doc, "p", &p.p);
                        add_opt_bytes(doc, "q", &p.q);
                        add_opt_bytes(doc, "dp", &p.dp);
                        add_opt_bytes(doc, "dq", &p.dq);
                        add_opt_bytes(doc, "qi", &p.qi);
                    },
                    None => {},
                }
            },
        }
    }
}

impl JsonWebKey {
    /// The record as a JSON object: the key's members first, then `use`,
    /// `key_ops`, `kid` and `alg`, each left out where there is nothing to
    /// write. Reading the object gives the record back.
    pub fn to_object(&self) -> (doc: serde_json::Map<String, serde_json::Value>)
        ensures
            spec_fields(doc) == spec_encode(self@, spec_sorted_tokens(self@.key_ops)),
            spec_all_plain(json_members(doc)),
            spec_decode(json_members(doc)) == Ok::<_, ErrorKind>(self@),
    {
        proof {
            lemma_marks();
        }
        let mut doc = new_object();
        self.key.write_members(&mut doc);
        let ghost m0 = json_members(doc);
        assert(spec_is_envelope_name("use"@) && spec_is_envelope_name("key_ops"@)
            && spec_is_envelope_name("kid"@) && spec_is_envelope_name("alg"@));
        match &self.key_use {
            Some(u) => {
                let text = u.to_text();
                proof {
                    lemma_key_frame(m0, "use"@, JsonMemberView::Text(text@));
                }
                add_text(&mut doc, "use", text);
            },
            None => {},
        }
        let ghost m1 = json_members(doc);
        assert(spec_decode_key(m1) == Ok::<_, ErrorKind>((*self.key)@));
        assert(spec_decode_use(m1) == Ok::<_, ErrorKind>(self.key_use));
        assert(!m1.contains_key("key_ops"@) && !m1.contains_key("kid"@) && !m1.contains_key("alg"@));
        let tokens = self.key_ops.tokens();
        let ghost texts = spec_texts(tokens@);
        if tokens.len() > 0 {
            proof {
                let items = spec_text_list(texts)->List_0;
                assert(spec_item_set(items) =~= spec_token_set(tokens@)) by {
                    assert forall|t: Seq<char>| spec_item_set(items).contains(t) implies spec_token_set(
                        tokens@,
                    ).contains(t) by {
                        let j = choose|j: int| 0 <= j < items.len() && items[j] == Some(t);
                        assert(tokens@[j]@ == t);
                    }
                    assert forall|t: Seq<char>| spec_token_set(tokens@).contains(t) implies spec_item_set(
                        items,
                    ).contains(t) by {
                        let j = choose|j: int| 0 <= j < tokens@.len() && #[trigger] tokens@[j]@ == t;
                        assert(items[j] == Some(t));
                    }
                }
                lemma_key_frame(m1, "key_ops"@, spec_text_list(texts));
            }
            put_list(&mut doc, "key_ops", tokens);
        } else {
            let _ = self.key_ops.is_empty();
            assert(spec_token_set(tokens@) =~= Set::<Seq<char>>::empty());
        }
        let ghost m2 = json_members(doc);
        assert(spec_all_plain(m2));
        assert(spec_decode_key(m2) == Ok::<_, ErrorKind>((*self.key)@));
        assert(spec_decode_use(m2) == Ok::<_, ErrorKind>(self.key_use));
        assert(spec_decode_ops(m2) == Ok::<_, ErrorKind>(self.key_ops@));
        assert(!m2.contains_key("kid"@) && !m2.contains_key("alg"@));
        match &self.key_id {
            Some(id) => {
                let text = id.clone();
                proof {
                    lemma_key_frame(m2, "kid"@, JsonMemberView::Text(text@));
                }
                add_text(&mut doc, "kid", text);
            },
            None => {},
        }
        let ghost m3 = json_members(doc);
        assert(spec_decode_key(m3) == Ok::<_, ErrorKind>((*self.key)@));
        assert(spec_decode_use(m3) == Ok::<_, ErrorKind>(self.key_use));
        assert(spec_decode_ops(m3) == Ok::<_, ErrorKind>(self.key_ops@));
        assert(spec_optional_text(m3, "kid"@) == Ok::<_, ErrorKind>(spec_opt_text(self.key_id)));
        assert(!m3.contains_key("alg"@));
        match &self.algorithm {
            Some(a) => {
                let text = a.to_text();
                proof {
                    lemma_key_frame(m3, "alg"@, JsonMemberView::Text(text@));
                }
                add_text(&mut doc, "alg", text);
            },
            None => {},
        }
        let ghost m4 = json_members(doc);
        assert(spec_decode_key(m4) == Ok::<_, ErrorKind>((*self.key)@));
        assert(spec_decode_use(m4) == Ok::<_, ErrorKind>(self.key_use));
        assert(spec_decode_ops(m4) == Ok::<_, ErrorKind>(self.key_ops@));
        assert(spec_optional_text(m4, "kid"@) == Ok::<_, ErrorKind>(spec_opt_text(self.key_id)));
        assert(spec_decode_algorithm(m4) == Ok::<_, ErrorKind>(self.algorithm));
        doc
    }

    /// The record as JSON text on one line. The members come in the order
    /// of `to_object`, the operations sorted, so that equal records give
    /// the same text; parsing the text gives the record back where its
    /// algorithm fits its key.
    pub fn to_json(&self) -> (text: String)
        ensures
            text@ == json_text(
                spec_encode(self@, spec_sorted_tokens(self@.key_ops)).order,
                spec_encode(self@, spec_sorted_tokens(self@.key_ops)).members,
            ),
            self@.algorithm_fits() ==> spec_read_checked(vstd::utf8::encode_utf8(text@)) == Ok::<
                _,
                ErrorKind,
            >(self@),
    {
        render(self.to_object())
    }

    /// The record as indented JSON text, one member to a line.
    pub fn to_json_pretty(&self) -> (text: String)
        ensures
            text@ == json_text_pretty(
                spec_encode(self@, spec_sorted_tokens(self@.key_ops)).order,
                spec_encode(self@, spec_sorted_tokens(self@.key_ops)).members,
            ),
            self@.algorithm_fits() ==> spec_read_checked(vstd::utf8::encode_utf8(text@)) == Ok::<
                _,
                ErrorKind,
            >(self@),
    {
        render_pretty(self.to_object())
    }
}

} // verus!
