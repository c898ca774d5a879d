//! JSON text for flat objects.
//!
//! The library writes two kinds of JSON text, both flat objects of scalar
//! members: the status line and the persisted record. It reads one kind, the
//! persisted record. The text is produced and parsed by `serde_json`; this
//! module states what that text is for the members the library hands over.

use vstd::prelude::*;

verus! {

/// A scalar JSON value, as far as this library writes them.
#[derive(Clone, Debug)]
pub enum JsonScalar {
    /// `null`
    Null,
    /// `true` or `false`
    Bool(bool),
    /// An unsigned integer.
    Number(u64),
    /// A string.
    Text(String),
}

/// One member of a JSON object.
#[derive(Clone, Debug)]
pub struct JsonMember {
    /// The member's name.
    pub key: String,
    /// The member's value.
    pub value: JsonScalar,
}

/// What a [`JsonScalar`] stands for.
pub enum ScalarModel {
    /// `null`
    Null,
    /// `true` or `false`
    Bool(bool),
    /// An unsigned integer.
    Number(nat),
    /// A string.
    Text(Seq<char>),
}

/// What a [`JsonMember`] stands for.
pub struct MemberModel {
    /// The member's name.
    pub key: Seq<char>,
    /// The member's value.
    pub value: ScalarModel,
}

impl View for JsonScalar {
    type V = ScalarModel;

    open spec fn view(&self) -> ScalarModel {
        match self {
            JsonScalar::Null => ScalarModel::Null,
            JsonScalar::Bool(b) => ScalarModel::Bool(*b),
            JsonScalar::Number(n) => ScalarModel::Number(*n as nat),
            JsonScalar::Text(t) => ScalarModel::Text(t@),
        }
    }
}

impl View for JsonMember {
    type V = MemberModel;

    open spec fn view(&self) -> MemberModel {
        MemberModel { key: self.key@, value: self.value@ }
    }
}

/// What a list of members stands for.
pub open spec fn member_models(members: Seq<JsonMember>) -> Seq<MemberModel> {
    members.map_values(|member: JsonMember| member@)
}

/// A member whose value is a string.
pub open spec fn text_member(key: Seq<char>, value: Seq<char>) -> MemberModel {
    MemberModel { key, value: ScalarModel::Text(value) }
}

/// A character that JSON text holds as it is, without an escape.
pub open spec fn verbatim_char(c: char) -> bool {
    c != '"' && c != '\\' && c as u32 >= 0x20
}

/// A string made of characters that need no escape.
pub open spec fn verbatim(s: Seq<char>) -> bool {
    forall|i: int| 0 <= i < s.len() ==> verbatim_char(#[trigger] s[i])
}

/// Whether `a` sorts strictly before `b`, character by character.
pub open spec fn sorts_before(a: Seq<char>, b: Seq<char>) -> bool
    decreases a.len(),
{
    if b.len() == 0 {
        false
    } else if a.len() == 0 {
        true
    } else if a[0] != b[0] {
        (a[0] as u32) < (b[0] as u32)
    } else {
        sorts_before(a.drop_first(), b.drop_first())
    }
}

/// Whether one member needs no escape: neither its key nor, where the value
/// is a string, the value.
pub open spec fn plain_member(member: MemberModel) -> bool {
    &&& verbatim(member.key)
    &&& member.value matches ScalarModel::Text(t) ==> verbatim(t)
    &&& member.value matches ScalarModel::Number(n) ==> n <= u64::MAX
}

/// Members whose text can be stated in a few lines: no string needs an
/// escape, and the keys come in strictly ascending order, so that no key
/// occurs twice and sorting the keys changes nothing.
pub open spec fn plain_members(members: Seq<MemberModel>) -> bool {
    &&& forall|i: int| 0 <= i < members.len() ==> plain_member(#[trigger] members[i])
    &&& forall|i: int|
        0 <= i < members.len() - 1 ==> sorts_before(
            (#[trigger] members[i]).key,
            members[i + 1].key,
        )
}

/// A string between double quotes.
pub open spec fn quoted(s: Seq<char>) -> Seq<char> {
    seq!['"'] + s + seq!['"']
}

/// The JSON text of a scalar whose string, if it is one, needs no escape.
pub open spec fn scalar_text(value: ScalarModel) -> Seq<char> {
    match value {
        ScalarModel::Null => seq!['n', 'u', 'l', 'l'],
        ScalarModel::Bool(true) => seq!['t', 'r', 'u', 'e'],
        ScalarModel::Bool(false) => seq!['f', 'a', 'l', 's', 'e'],
        ScalarModel::Number(n) => crate::text::decimal(n),
        ScalarModel::Text(t) => quoted(t),
    }
}

/// One member in compact form: `"key":value`.
pub open spec fn compact_member(member: MemberModel) -> Seq<char> {
    quoted(member.key) + seq![':'] + scalar_text(member.value)
}

/// The members in compact form, separated by commas.
pub open spec fn compact_members(members: Seq<MemberModel>) -> Seq<char>
    decreases members.len(),
{
    if members.len() == 0 {
        Seq::empty()
    } else if members.len() == 1 {
        compact_member(members[0])
    } else {
        compact_members(members.drop_last()) + seq![','] + compact_member(members.last())
    }
}

/// An object in compact form: `{"a":1,"b":2}`.
pub open spec fn compact_object(members: Seq<MemberModel>) -> Seq<char> {
    seq!['{'] + compact_members(members) + seq!['}']
}

/// One member in pretty form: two spaces, then `"key": value`.
pub open spec fn pretty_member(member: MemberModel) -> Seq<char> {
    seq![' ', ' '] + quoted(member.key) + seq![':', ' '] + scalar_text(member.value)
}

/// The members in pretty form, one per line.
pub open spec fn pretty_members(members: Seq<MemberModel>) -> Seq<char>
    decreases members.len(),
{
    if members.len() == 0 {
        Seq::empty()
    } else if members.len() == 1 {
        pretty_member(members[0])
    } else {
        pretty_members(members.drop_last()) + seq![',', '\n'] + pretty_member(members.last())
    }
}

/// An object in pretty form: an opening brace, the members one per line and
/// indented by two spaces, a closing brace on a line of its own. An object
/// without members is `{}`.
pub open spec fn pretty_object(members: Seq<MemberModel>) -> Seq<char> {
    if members.len() == 0 {
        seq!['{', '}']
    } else {
        seq!['{', '\n'] + pretty_members(members) + seq!['\n', '}']
    }
}

/// The compact JSON text of an object with the given members.
///
/// Trusted: builds a `serde_json::Value::Object` and renders it with its
/// `to_string`. For plain members the contract claims the text that
/// `serde_json`'s compact formatter writes: braces, members in key order
/// separated by commas, keys and strings in double quotes and otherwise as
/// they are, integers in decimal, `true`, `false`, `null`.
#[verifier::external_body]
pub(crate) fn compact_json(members: &Vec<JsonMember>) -> (text: String)
    requires
        plain_members(member_models(members@)),
    ensures
        text@ == compact_object(member_models(members@)),
{
    let mut object = serde_json::Map::new();
    for member in members.iter() {
        let value = match &member.value {
            JsonScalar::Null => serde_json::Value::Null,
            JsonScalar::Bool(b) => serde_json::Value::Bool(*b),
            JsonScalar::Number(n) => serde_json::Value::from(*n),
            JsonScalar::Text(t) => serde_json::Value::String(t.clone()),
        };
        object.insert(member.key.clone(), value);
    }
    serde_json::Value::Object(object).to_string()
}

/// The pretty-printed JSON text of an object with the given members.
///
/// Trusted: builds a `serde_json::Value::Object` and renders it with the
/// alternate form of its `Display`, which is `serde_json`'s pretty printer
/// with an indent of two spaces. For plain members the contract claims the
/// text that this printer writes.
#[verifier::external_body]
pub(crate) fn pretty_json(members: &Vec<JsonMember>) -> (text: String)
    requires
        plain_members(member_models(members@)),
    ensures
        text@ == pretty_object(member_models(members@)),
{
    let mut object = serde_json::Map::new();
    for member in members.iter() {
        let value = match &member.value {
            JsonScalar::Null => serde_json::Value::Null,
            JsonScalar::Bool(b) => serde_json::Value::Bool(*b),
            JsonScalar::Number(n) => serde_json::Value::from(*n),
            JsonScalar::Text(t) => serde_json::Value::String(t.clone()),
        };
        object.insert(member.key.clone(), value);
    }
    format!("{:#}", serde_json::Value::Object(object))
}

/// What `serde_json` finds as an unsigned 64-bit integer under `key` in the
/// top-level object of the JSON text `text`: `None` where the text is not
/// valid JSON, is no object, has no such member, or the member is no
/// non-negative integer that fits 64 bits.
pub uninterp spec fn json_u64_member(text: Seq<u8>, key: Seq<char>) -> Option<u64>;

/// What `serde_json` finds as a boolean under `key` in the top-level object
/// of the JSON text `text`: `None` where the text is not valid JSON, is no
/// object, has no such member, or the member is no boolean.
pub uninterp spec fn json_bool_member(text: Seq<u8>, key: Seq<char>) -> Option<bool>;

/// Reads an unsigned integer member of a JSON object.
///
/// Trusted: parses `text` with `serde_json::from_slice` into a `Value`, looks
/// `key` up with `Value::get` and converts with `Value::as_u64`. The result
/// depends on the two arguments alone; the contract gives it a name.
#[verifier::external_body]
pub(crate) fn read_u64_member(text: &[u8], key: &str) -> (found: Option<u64>)
    ensures
        found == json_u64_member(text@, key@),
{
    let parsed = serde_json::from_slice::<serde_json::Value>(text).ok();
    parsed.as_ref().and_then(|value| value.get(key)).and_then(|member| member.as_u64())
}

/// Reads a boolean member of a JSON object.
///
/// Trusted: parses `text` with `serde_json::from_slice` into a `Value`, looks
/// `key` up with `Value::get` and converts with `Value::as_bool`. The result
/// depends on the two arguments alone; the contract gives it a name.
#[verifier::external_body]
pub(crate) fn read_bool_member(text: &[u8], key: &str) -> (found: Option<bool>)
    ensures
        found == json_bool_member(text@, key@),
{
    let parsed = serde_json::from_slice::<serde_json::Value>(text).ok();
    parsed.as_ref().and_then(|value| value.get(key)).and_then(|member| member.as_bool())
}

} // verus!
