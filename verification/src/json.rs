//! JSON documents as plain values.

use vstd::prelude::*;
use vstd::string::*;
use crate::doubles::{self, EXACT_INTEGERS};
use crate::text::same_text;

verus! {

/// A JSON value. An object lists its members; where a key stands twice, the first counts.
pub enum Json {
    Null,
    Bool(bool),
    Number(JsonNumber),
    Text(String),
    Array(Vec<Json>),
    Object(Vec<(String, Json)>),
}

/// A JSON number: its value where it is an unsigned integer of 64 bits, and the bits of the
/// double nearest to it.
#[derive(Clone, Copy, Debug, PartialEq, Eq, Structural)]
pub struct JsonNumber {
    pub unsigned: Option<u64>,
    pub double: Option<u64>,
}

impl JsonNumber {
    /// Whether the double is the integer itself, where every such integer is a double.
    pub open spec fn agrees(self) -> bool {
        self.unsigned matches Some(n) ==> n < EXACT_INTEGERS ==> (self.double matches Some(bits)
            && doubles::denotes(bits, n as nat))
    }
}

/// What a JSON value says.
pub ghost enum JsonModel {
    Null,
    Bool(bool),
    Number(JsonNumber),
    Text(Seq<char>),
    Array(Seq<JsonModel>),
    Object(Seq<(Seq<char>, JsonModel)>),
}

impl View for Json {
    type V = JsonModel;

    open spec fn view(&self) -> JsonModel {
        model(*self)
    }
}

/// What a JSON value says, item by item and member by member.
pub open spec fn model(value: Json) -> JsonModel
    decreases value,
{
    match value {
        Json::Null => JsonModel::Null,
        Json::Bool(b) => JsonModel::Bool(b),
        Json::Number(n) => JsonModel::Number(n),
        Json::Text(s) => JsonModel::Text(s@),
        Json::Array(items) => JsonModel::Array(
            Seq::new(
                items@.len(),
                |i: int|
                    if 0 <= i < items@.len() {
                        model(items@[i])
                    } else {
                        JsonModel::Null
                    },
            ),
        ),
        Json::Object(members) => JsonModel::Object(
            Seq::new(
                members@.len(),
                |i: int|
                    if 0 <= i < members@.len() {
                        (members@[i].0@, model(members@[i].1))
                    } else {
                        (Seq::empty(), JsonModel::Null)
                    },
            ),
        ),
    }
}

/// Whether the two readings of every number in a value agree.
pub open spec fn numbers_agree(value: JsonModel) -> bool
    decreases value,
{
    match value {
        JsonModel::Number(n) => n.agrees(),
        JsonModel::Array(items) => forall|i: int|
            0 <= i < items.len() ==> #[trigger] numbers_agree(items[i]),
        JsonModel::Object(members) => forall|i: int|
            0 <= i < members.len() ==> numbers_agree((#[trigger] members[i]).1),
        _ => true,
    }
}

pub open spec fn opt_json(value: Option<Json>) -> Option<JsonModel> {
    match value {
        Some(json) => Some(json@),
        None => None,
    }
}

pub open spec fn opt_json_ref(value: Option<&Json>) -> Option<JsonModel> {
    match value {
        Some(json) => Some(json@),
        None => None,
    }
}

#[verifier::external_type_specification]
#[verifier::external_body]
pub struct ExValue(serde_json::Value);

/// What a `serde_json::Value` holds.
pub uninterp spec fn json_content(value: serde_json::Value) -> JsonModel;

/// What a text holds as one JSON document.
pub uninterp spec fn json_document(source: Seq<char>) -> Option<JsonModel>;

/// `serde_json::from_str` to a `Value`, with every parse error as `None`.
#[verifier::external_body]
fn value_of_text(source: &str) -> (r: Option<serde_json::Value>)
    ensures
        match r {
            Some(value) => json_document(source@) == Some(json_content(value)),
            None => json_document(source@) is None,
        },
{
    serde_json::from_str(source).ok()
}

/// The content of a `serde_json::Value`, variant by variant: `as_u64` and `as_f64` of a number,
/// the items of an array, the members of an object. `as_f64` of an unsigned integer is that integer
/// as a double.
#[verifier::external_body]
fn json_of_value(value: serde_json::Value) -> (r: Json)
    ensures
        r@ == json_content(value),
        numbers_agree(r@),
{
    match value {
        serde_json::Value::Null => Json::Null,
        serde_json::Value::Bool(b) => Json::Bool(b),
        serde_json::Value::Number(n) => Json::Number(
            JsonNumber { unsigned: n.as_u64(), double: n.as_f64().map(|v| v.to_bits()) },
        ),
        serde_json::Value::String(s) => Json::Text(s),
        serde_json::Value::Array(items) => Json::Array(items.into_iter().map(json_of_value).collect()),
        serde_json::Value::Object(members) => Json::Object(
            members.into_iter().map(|(key, value)| (key, json_of_value(value))).collect(),
        ),
    }
}

/// The JSON document that a text holds.
pub fn parse_json(source: &str) -> (r: Option<Json>)
    ensures
        opt_json(r) == json_document(source@),
        r matches Some(document) ==> numbers_agree(document@),
{
    match value_of_text(source) {
        Some(value) => Some(json_of_value(value)),
        None => None,
    }
}

/// The value of the first member with the given key.
pub open spec fn member(members: Seq<(Seq<char>, JsonModel)>, key: Seq<char>) -> Option<JsonModel>
    decreases members.len(),
{
    if members.len() == 0 {
        None
    } else if members[0].0 == key {
        Some(members[0].1)
    } else {
        member(members.drop_first(), key)
    }
}

/// The member of an object, none of any other value.
pub open spec fn get(value: JsonModel, key: Seq<char>) -> Option<JsonModel> {
    match value {
        JsonModel::Object(members) => member(members, key),
        _ => None,
    }
}

/// The numbers of a member agree where those of the whole object do.
pub proof fn members_agree(value: JsonModel, key: Seq<char>)
    requires
        numbers_agree(value),
    ensures
        get(value, key) matches Some(found) ==> numbers_agree(found),
    decreases
            match value {
                JsonModel::Object(members) => members.len(),
                _ => 0,
            },
{
    if let JsonModel::Object(members) = value {
        if members.len() > 0 {
            assert(numbers_agree(members[0].1));
            if members[0].0 != key {
                let rest = members.drop_first();
                assert forall|i: int| 0 <= i < rest.len() implies numbers_agree(
                    (#[trigger] rest[i]).1,
                ) by {
                    assert(rest[i] == members[i + 1]);
                }
                members_agree(JsonModel::Object(rest), key);
            }
        }
    }
}

pub open spec fn as_text(value: Option<JsonModel>) -> Option<Seq<char>> {
    match value {
        Some(JsonModel::Text(s)) => Some(s),
        _ => None,
    }
}

pub open spec fn as_flag(value: Option<JsonModel>) -> Option<bool> {
    match value {
        Some(JsonModel::Bool(b)) => Some(b),
        _ => None,
    }
}

pub open spec fn as_double(value: Option<JsonModel>) -> Option<u64> {
    match value {
        Some(JsonModel::Number(n)) => n.double,
        _ => None,
    }
}

impl Json {
    pub fn is_object(&self) -> (r: bool)
        ensures
            r == (self@ is Object),
    {
        match self {
            Json::Object(_) => true,
            _ => false,
        }
    }

    /// The value of the first member with the given key, of an object.
    pub fn get(&self, key: &str) -> (r: Option<&Json>)
        ensures
            opt_json_ref(r) == get(self@, key@),
    {
        match self {
            Json::Object(members) => {
                let ghost all = self@->Object_0;
                let mut i: usize = 0;
                assert(all.skip(0) =~= all);
                while i < members.len()
                    invariant
                        i <= members@.len(),
                        all.len() == members@.len(),
                        forall|j: int|
                            0 <= j < members@.len() ==> #[trigger] all[j] == (
                                members@[j].0@,
                                members@[j].1@,
                            ),
                        self@ == JsonModel::Object(all),
                        member(all.skip(i as int), key@) == member(all, key@),
                    decreases members@.len() - i,
                {
                    assert(all.skip(i as int)[0] == all[i as int]);
                    if same_text(&members[i].0, key) {
                        return Some(&members[i].1);
                    }
                    assert(all.skip(i as int).drop_first() =~= all.skip(i + 1));
                    i += 1;
                }
                assert(all.skip(i as int) =~= Seq::empty());
                None
            },
            _ => None,
        }
    }

    pub fn text(&self) -> (r: Option<&String>)
        ensures
            (match r {
                Some(s) => Some(s@),
                None => None,
            }) == as_text(Some(self@)),
    {
        match self {
            Json::Text(s) => Some(s),
            _ => None,
        }
    }

    pub fn flag(&self) -> (r: Option<bool>)
        ensures
            r == as_flag(Some(self@)),
    {
        match self {
            Json::Bool(b) => Some(*b),
            _ => None,
        }
    }

    pub fn double(&self) -> (r: Option<u64>)
        ensures
            r == as_double(Some(self@)),
    {
        match self {
            Json::Number(n) => n.double,
            _ => None,
        }
    }

    /// The text of a member, when the member is there and is text.
    pub fn get_text(&self, key: &str) -> (r: Option<&String>)
        ensures
            (match r {
                Some(s) => Some(s@),
                None => None,
            }) == as_text(get(self@, key@)),
    {
        match self.get(key) {
            Some(value) => value.text(),
            None => None,
        }
    }
}

/// The JSON text of the pair of a text and an optional number.
pub uninterp spec fn pair_text(first: Seq<char>, second: Option<u64>) -> Seq<char>;

/// What the JSON text of such a pair holds.
pub open spec fn pair_model(first: Seq<char>, second: Option<u64>, document: JsonModel) -> bool {
    &&& document is Array
    &&& document->Array_0.len() == 2
    &&& document->Array_0[0] == JsonModel::Text(first)
    &&& match second {
        Some(n) => {
            &&& document->Array_0[1] is Number
            &&& (document->Array_0[1]->Number_0).unsigned == Some(n)
        },
        None => document->Array_0[1] == JsonModel::Null,
    }
}

/// Whether a text is a JSON document that holds such a pair.
pub open spec fn reads_as_pair(
    written: Seq<char>,
    first: Seq<char>,
    second: Option<u64>,
) -> bool {
    match json_document(written) {
        Some(document) => pair_model(first, second, document),
        None => false,
    }
}

/// The text of a `serde_json::Value` array of a string and of a number or null. Reading the text
/// gives the same string and the same number back.
#[verifier::external_body]
pub(crate) fn write_pair(first: &str, second: Option<u64>) -> (r: String)
    ensures
        r@ == pair_text(first@, second),
        reads_as_pair(r@, first@, second),
{
    serde_json::Value::from(vec![serde_json::Value::from(first), serde_json::Value::from(second)]).to_string()
}

/// The JSON text of a pair of texts.
pub uninterp spec fn text_pair_text(first: Seq<char>, second: Seq<char>) -> Seq<char>;

/// The text of a `serde_json::Value` array of two strings, which reads back as the same two.
#[verifier::external_body]
pub(crate) fn write_text_pair(first: &str, second: &str) -> (r: String)
    ensures
        r@ == text_pair_text(first@, second@),
        json_document(r@) == Some(
            JsonModel::Array(seq![JsonModel::Text(first@), JsonModel::Text(second@)]),
        ),
{
    serde_json::Value::from(vec![first, second]).to_string()
}

/// The JSON text of a string.
pub uninterp spec fn quoted_text(content: Seq<char>) -> Seq<char>;

/// The text of a `serde_json::Value` string, which reads back as the same string. Control
/// characters are escaped, so that there is no NUL in it.
#[verifier::external_body]
pub(crate) fn quote(content: &str) -> (r: String)
    ensures
        r@ == quoted_text(content@),
        json_document(r@) == Some(JsonModel::Text(content@)),
        !r@.contains('\0'),
{
    serde_json::Value::from(content).to_string()
}

/// A pair of a text and an optional number can be told from its JSON text.
pub proof fn pairs_are_told_apart(
    written: Seq<char>,
    first: Seq<char>,
    second: Option<u64>,
    other_first: Seq<char>,
    other_second: Option<u64>,
)
    requires
        reads_as_pair(written, first, second),
        reads_as_pair(written, other_first, other_second),
    ensures
        first == other_first,
        second == other_second,
{
}

/// The first member with a key is the one that counts, and a key that no member has gives none.
pub proof fn the_first_member_counts(
    members: Seq<(Seq<char>, JsonModel)>,
    key: Seq<char>,
    i: int,
)
    requires
        0 <= i <= members.len(),
        forall|j: int| 0 <= j < i ==> (#[trigger] members[j]).0 != key,
    ensures
        i < members.len() && members[i].0 == key ==> get(JsonModel::Object(members), key) == Some(
            members[i].1,
        ),
        i == members.len() ==> get(JsonModel::Object(members), key) is None,
    decreases i,
{
    if i > 0 {
        assert(members[0].0 != key);
        let rest = members.drop_first();
        assert forall|j: int| 0 <= j < i - 1 implies (#[trigger] rest[j]).0 != key by {
            assert(rest[j] == members[j + 1]);
        }
        the_first_member_counts(rest, key, i - 1);
        if i < members.len() {
            assert(rest[i - 1] == members[i]);
        }
    }
}

/// Only objects have members, and a value is read as what it is.
pub proof fn values_are_read_as_they_are(value: JsonModel, key: Seq<char>)
    ensures
        !(value is Object) ==> get(value, key) is None,
        value matches JsonModel::Text(s) ==> as_text(Some(value)) == Some(s),
        !(value is Text) ==> as_text(Some(value)) is None,
        value matches JsonModel::Bool(b) ==> as_flag(Some(value)) == Some(b),
        !(value is Bool) ==> as_flag(Some(value)) is None,
        value matches JsonModel::Number(n) ==> as_double(Some(value)) == n.double,
        !(value is Number) ==> as_double(Some(value)) is None,
        as_text(None) is None,
        as_flag(None) is None,
        as_double(None) is None,
{
}

} // verus!
