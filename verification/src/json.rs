//! JSON objects as the JSON codec holds them, and what the key codec reads
//! from and writes into them.

use vstd::prelude::*;
use vstd::string::StringSliceAdditionalSpecFns;

verus! {

/// A JSON value of the codec, opaque here.
#[verifier::external_type_specification]
#[verifier::external_body]
pub struct ExJsonValue(serde_json::Value);

/// A JSON object of the codec, opaque here: its members are reached
/// through the functions of this module.
#[verifier::external_type_specification]
#[verifier::external_body]
#[verifier::reject_recursive_types(K)]
#[verifier::reject_recursive_types(V)]
pub struct ExJsonObject<K, V>(serde_json::Map<K, V>);

/// What a member of a JSON object is to the key codec.
#[derive(Debug, PartialEq, Eq)]
pub enum JsonMember {
    /// A string.
    Text(String),
    /// An array; each item is its string, or nothing if it is no string.
    List(Vec<Option<String>>),
    /// The value `null`.
    Null,
    /// Anything else.
    Other,
}

/// What a member is in contracts.
pub enum JsonMemberView {
    Text(Seq<char>),
    List(Seq<Option<Seq<char>>>),
    Null,
    Other,
}

/// The characters of an optional text.
pub open spec fn spec_opt_text(o: Option<String>) -> Option<Seq<char>> {
    match o {
        Some(s) => Some(s@),
        None => None,
    }
}

/// The characters of each text of a list.
pub open spec fn spec_texts(texts: Seq<String>) -> Seq<Seq<char>> {
    Seq::new(texts.len(), |i: int| texts[i]@)
}

/// A list member made of strings only.
pub open spec fn spec_text_list(texts: Seq<Seq<char>>) -> JsonMemberView {
    JsonMemberView::List(Seq::new(texts.len(), |i: int| Some(texts[i])))
}

impl View for JsonMember {
    type V = JsonMemberView;

    open spec fn view(&self) -> JsonMemberView {
        match self {
            JsonMember::Text(s) => JsonMemberView::Text(s@),
            JsonMember::List(items) => JsonMemberView::List(
                Seq::new(items@.len(), |i: int| spec_opt_text(items@[i])),
            ),
            JsonMember::Null => JsonMemberView::Null,
            JsonMember::Other => JsonMemberView::Other,
        }
    }
}

impl JsonMemberView {
    /// A string, or an array of strings.
    pub open spec fn is_plain(self) -> bool {
        match self {
            JsonMemberView::Text(_) => true,
            JsonMemberView::List(items) => forall|i: int| 0 <= i < items.len() ==> items[i] is Some,
            JsonMemberView::Null => false,
            JsonMemberView::Other => false,
        }
    }
}

/// The members of a JSON object, by name.
pub uninterp spec fn json_members(doc: serde_json::Map<String, serde_json::Value>) -> Map<
    Seq<char>,
    JsonMemberView,
>;

/// The names of a JSON object's members, in the order in which it holds
/// and prints them.
pub uninterp spec fn json_order(doc: serde_json::Map<String, serde_json::Value>) -> Seq<Seq<char>>;

/// The members of the JSON object that a text spells, if it spells one.
pub uninterp spec fn json_parsed(text: Seq<u8>) -> Option<Map<Seq<char>, JsonMemberView>>;

/// The compact text of a JSON object with the given members, all strings
/// or arrays of strings, in the given order.
pub uninterp spec fn json_text(order: Seq<Seq<char>>, members: Map<Seq<char>, JsonMemberView>) -> Seq<
    char,
>;

/// The indented text of a JSON object with the given members, all strings
/// or arrays of strings, in the given order.
pub uninterp spec fn json_text_pretty(
    order: Seq<Seq<char>>,
    members: Map<Seq<char>, JsonMemberView>,
) -> Seq<char>;

/// The members of an object that has none.
pub open spec fn spec_no_members() -> Map<Seq<char>, JsonMemberView> {
    Map::empty()
}

/// Whether every member is a string or an array of strings.
pub open spec fn spec_all_plain(members: Map<Seq<char>, JsonMemberView>) -> bool {
    forall|name: Seq<char>| members.contains_key(name) ==> (#[trigger] members[name]).is_plain()
}

/// Parses a text that must spell a JSON object.
///
/// Trusted: calls `serde_json::from_slice` for a `serde_json::Map`, which
/// fails on text that is no JSON or spells no object. The contract names
/// the members of the object read.
#[verifier::external_body]
pub(crate) fn parse_object(text: &[u8]) -> (r: Result<
    serde_json::Map<String, serde_json::Value>,
    serde_json::Error,
>)
    ensures
        match r {
            Ok(doc) => json_parsed(text@) == Some(json_members(doc)),
            Err(_) => json_parsed(text@) is None,
        },
{
    serde_json::from_slice(text)
}

/// Reads one member of an object.
///
/// Trusted: calls `serde_json::Map::get`, which finds the member of that
/// name if there is one, and tells a string, an array and `null` from the
/// other kinds of value; of an array's items, `Value::as_str` gives the
/// strings.
#[verifier::external_body]
pub(crate) fn get_member(doc: &serde_json::Map<String, serde_json::Value>, name: &str) -> (r:
    Option<JsonMember>)
    ensures
        match r {
            Some(m) => json_members(*doc).contains_key(name@) && json_members(*doc)[name@] == m@,
            None => !json_members(*doc).contains_key(name@),
        },
{
    Some(match doc.get(name)? {
        serde_json::Value::String(s) => JsonMember::Text(s.clone()),
        serde_json::Value::Array(items) => JsonMember::List(
            items.iter().map(|item| item.as_str().map(String::from)).collect(),
        ),
        serde_json::Value::Null => JsonMember::Null,
        _ => JsonMember::Other,
    })
}

/// Trusted: calls `serde_json::Map::new`, which makes an object without
/// members.
#[verifier::external_body]
pub(crate) fn new_object() -> (doc: serde_json::Map<String, serde_json::Value>)
    ensures
        json_members(doc) == spec_no_members(),
        json_order(doc) == Seq::<Seq<char>>::empty(),
{
    serde_json::Map::new()
}

/// Adds a string member under a name that the object does not hold yet.
///
/// Trusted: calls `serde_json::Map::insert`, which with the order of
/// insertion preserved puts a new member behind those that are there.
#[verifier::external_body]
pub(crate) fn put_text(doc: &mut serde_json::Map<String, serde_json::Value>, name: &str, text: String)
    requires
        !json_members(*old(doc)).contains_key(name@),
    ensures
        json_members(*final(doc)) == json_members(*old(doc)).insert(
            name@,
            JsonMemberView::Text(text@),
        ),
        json_order(*final(doc)) == json_order(*old(doc)).push(name@),
{
    doc.insert(name.to_owned(), serde_json::Value::String(text));
}

/// Adds an array of strings under a name that the object does not hold yet.
///
/// Trusted: calls `serde_json::Map::insert` with an array made of the
/// texts in their order; the member comes behind those that are there.
#[verifier::external_body]
pub(crate) fn put_list(
    doc: &mut serde_json::Map<String, serde_json::Value>,
    name: &str,
    texts: Vec<String>,
)
    requires
        !json_members(*old(doc)).contains_key(name@),
    ensures
        json_members(*final(doc)) == json_members(*old(doc)).insert(
            name@,
            spec_text_list(spec_texts(texts@)),
        ),
        json_order(*final(doc)) == json_order(*old(doc)).push(name@),
{
    let items = texts.into_iter().map(serde_json::Value::String).collect();
    doc.insert(name.to_owned(), serde_json::Value::Array(items));
}

/// Prints an object of strings and arrays of strings on one line.
///
/// Trusted: wraps the object in `serde_json::Value::Object` and calls its
/// `to_string`. The contract names the text, which the members and their
/// order determine, and claims that parsing the text gives the members
/// back: strings are escaped on the way out and unescaped on the way in.
#[verifier::external_body]
pub(crate) fn render(doc: serde_json::Map<String, serde_json::Value>) -> (text: String)
    requires
        spec_all_plain(json_members(doc)),
    ensures
        text@ == json_text(json_order(doc), json_members(doc)),
        json_parsed(vstd::utf8::encode_utf8(text@)) == Some(json_members(doc)),
{
    serde_json::Value::Object(doc).to_string()
}

/// Prints an object of strings and arrays of strings, indented.
///
/// Trusted: wraps the object in `serde_json::Value::Object` and formats it
/// in the alternate form, which indents by two spaces. The contract names
/// the text, which the members and their order determine, and claims that
/// parsing the text gives the members back.
#[verifier::external_body]
pub(crate) fn render_pretty(doc: serde_json::Map<String, serde_json::Value>) -> (text: String)
    requires
        spec_all_plain(json_members(doc)),
    ensures
        text@ == json_text_pretty(json_order(doc), json_members(doc)),
        json_parsed(vstd::utf8::encode_utf8(text@)) == Some(json_members(doc)),
{
    format!("{:#}", serde_json::Value::Object(doc))
}

} // verus!
