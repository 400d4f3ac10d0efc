//! JSON documents as plain data, read and written by `serde_json`.

use crate::text::str_eq;
use serde_json::Value;
use vstd::prelude::*;

verus! {

/// A JSON document.
///
/// Numbers that fit a signed 64-bit integer are `Int`; larger positive
/// integers are `UInt`; every other number is `Real`, kept as its text.
/// An object is the list of its members, in the order in which they were
/// put there; a document that was read lists them as `serde_json` does.
#[derive(Debug)]
pub enum Json {
    Null,
    Bool(bool),
    Int(i64),
    UInt(u64),
    Real(String),
    Str(String),
    Array(Vec<Json>),
    Object(Vec<(String, Json)>),
}

/// The mathematical value of a [`Json`] document.
pub enum JsonValue {
    Null,
    Bool(bool),
    Int(i64),
    UInt(u64),
    Real(Seq<char>),
    Str(Seq<char>),
    Array(Seq<JsonValue>),
    Object(Seq<(Seq<char>, JsonValue)>),
}

impl Json {
    /// The mathematical value of the document.
    pub open spec fn value(self) -> JsonValue
        decreases self,
    {
        match self {
            Json::Null => JsonValue::Null,
            Json::Bool(b) => JsonValue::Bool(b),
            Json::Int(n) => JsonValue::Int(n),
            Json::UInt(n) => JsonValue::UInt(n),
            Json::Real(s) => JsonValue::Real(s@),
            Json::Str(s) => JsonValue::Str(s@),
            Json::Array(items) => JsonValue::Array(
                Seq::new(
                    items@.len(),
                    |i: int|
                        if 0 <= i < items@.len() {
                            items@[i].value()
                        } else {
                            JsonValue::Null
                        },
                ),
            ),
            Json::Object(fields) => JsonValue::Object(
                Seq::new(
                    fields@.len(),
                    |i: int|
                        if 0 <= i < fields@.len() {
                            (fields@[i].0@, fields@[i].1.value())
                        } else {
                            (Seq::empty(), JsonValue::Null)
                        },
                ),
            ),
        }
    }
}

impl View for Json {
    type V = JsonValue;

    open spec fn view(&self) -> JsonValue {
        self.value()
    }
}

/// `serde_json::Value`, as it passes between `serde_json` and the
/// converters below. Nothing is claimed of what a value holds.
#[verifier::external_type_specification]
#[verifier::external_body]
pub struct ExValue(Value);

/// The document that `serde_json::from_slice` reads from `bytes`, or `None`
/// where it reports an error.
pub uninterp spec fn json_parse(bytes: Seq<u8>) -> Option<JsonValue>;

/// The document read from the UTF-8 encoding of `text`.
pub open spec fn json_parse_text(text: Seq<char>) -> Option<JsonValue> {
    json_parse(vstd::utf8::encode_utf8(text))
}

/// The compact text that `serde_json` writes for a document.
pub uninterp spec fn json_text(doc: JsonValue) -> Seq<char>;

/// The indented text that `serde_json::to_string_pretty` writes for a
/// document.
pub uninterp spec fn json_pretty_text(doc: JsonValue) -> Seq<char>;

/// Index of the first member of `fields` at or after `from` named `key`.
pub open spec fn member_index(
    fields: Seq<(Seq<char>, JsonValue)>,
    key: Seq<char>,
    from: int,
) -> Option<int>
    decreases fields.len() - from,
{
    if from < 0 || from >= fields.len() {
        None
    } else if fields[from].0 == key {
        Some(from)
    } else {
        member_index(fields, key, from + 1)
    }
}

/// `fields` with the member `key` set to `value`: replaced in place where it
/// exists, added at the end where it does not.
pub open spec fn with_member(
    fields: Seq<(Seq<char>, JsonValue)>,
    key: Seq<char>,
    value: JsonValue,
) -> Seq<(Seq<char>, JsonValue)> {
    match member_index(fields, key, 0) {
        Some(i) => fields.update(i, (key, value)),
        None => fields.push((key, value)),
    }
}

/// `fields` with the member `key` set to `value` unless it is already there.
pub open spec fn with_default_member(
    fields: Seq<(Seq<char>, JsonValue)>,
    key: Seq<char>,
    value: JsonValue,
) -> Seq<(Seq<char>, JsonValue)> {
    match member_index(fields, key, 0) {
        Some(i) => fields,
        None => fields.push((key, value)),
    }
}

/// The values of a list of members.
pub open spec fn members_view(fields: Seq<(String, Json)>) -> Seq<(Seq<char>, JsonValue)> {
    Seq::new(fields.len(), |i: int| (fields[i].0@, fields[i].1@))
}

/// The text of an optional string.
pub open spec fn opt_view(s: Option<String>) -> Option<Seq<char>> {
    match s {
        Some(t) => Some(t@),
        None => None,
    }
}

/// The value of an optional document.
pub open spec fn opt_doc_view(doc: Option<Json>) -> Option<JsonValue> {
    match doc {
        Some(d) => Some(d@),
        None => None,
    }
}

/// The text of an optional string slice.
pub open spec fn opt_str_view(s: Option<&str>) -> Option<Seq<char>> {
    match s {
        Some(t) => Some(t@),
        None => None,
    }
}

/// The texts of a list of strings.
pub open spec fn strings_view(items: Seq<String>) -> Seq<Seq<char>> {
    Seq::new(items.len(), |i: int| items[i]@)
}

/// The texts of an optional list of strings.
pub open spec fn opt_strings_view(items: Option<Vec<String>>) -> Option<Seq<Seq<char>>> {
    match items {
        Some(list) => Some(strings_view(list@)),
        None => None,
    }
}

/// The texts of a list of string documents; `None` where one is no string.
pub open spec fn texts_of(items: Seq<JsonValue>) -> Option<Seq<Seq<char>>> {
    if forall|i: int| 0 <= i < items.len() ==> (#[trigger] items[i]).text() is Some {
        Some(Seq::new(items.len(), |i: int| items[i].text()->0))
    } else {
        None
    }
}

/// The values of a list of documents.
pub open spec fn items_view(items: Seq<Json>) -> Seq<JsonValue> {
    Seq::new(items.len(), |i: int| items[i]@)
}

/// The view of an object is the view of its members, and likewise for arrays.
pub proof fn lemma_view_unfold(doc: Json)
    ensures
        doc matches Json::Object(fields) ==> doc@ == JsonValue::Object(members_view(fields@)),
        doc matches Json::Array(items) ==> doc@ == JsonValue::Array(items_view(items@)),
{
    reveal_with_fuel(Json::value, 2);
    match doc {
        Json::Object(fields) => {
            assert(doc@->Object_0 =~= members_view(fields@));
        },
        Json::Array(items) => {
            assert(doc@->Array_0 =~= items_view(items@));
        },
        _ => {},
    }
}

/// A document is larger than each item and each member value it holds.
pub proof fn lemma_item_decreases(doc: Json, i: int)
    ensures
        doc matches Json::Array(items) ==> 0 <= i < items@.len() ==> decreases_to!(doc => items@[i]),
        doc matches Json::Object(fields) ==> 0 <= i < fields@.len() ==> decreases_to!(doc => fields@[i].1),
{
    match doc {
        Json::Array(items) => {
            if 0 <= i < items@.len() {
                assert(decreases_to!(doc => items));
                assert(decreases_to!(items => items@));
                assert(decreases_to!(items@ => items@[i]));
            }
        },
        Json::Object(fields) => {
            if 0 <= i < fields@.len() {
                assert(decreases_to!(doc => fields));
                assert(decreases_to!(fields => fields@));
                assert(decreases_to!(fields@ => fields@[i]));
                assert(decreases_to!(fields@[i] => fields@[i].1));
            }
        },
        _ => {},
    }
}

impl JsonValue {
    /// The members of an object; empty for every other document.
    pub open spec fn members(self) -> Seq<(Seq<char>, JsonValue)> {
        match self {
            JsonValue::Object(fields) => fields,
            _ => Seq::empty(),
        }
    }

    /// The member named `key` of an object, if there is one.
    pub open spec fn member(self, key: Seq<char>) -> Option<JsonValue> {
        match member_index(self.members(), key, 0) {
            Some(i) => Some(self.members()[i].1),
            None => None,
        }
    }

    /// The text of a string document.
    pub open spec fn text(self) -> Option<Seq<char>> {
        match self {
            JsonValue::Str(s) => Some(s),
            _ => None,
        }
    }

    /// The text of the string member named `key`.
    pub open spec fn text_member(self, key: Seq<char>) -> Option<Seq<char>> {
        match self.member(key) {
            Some(v) => v.text(),
            None => None,
        }
    }

    /// The texts of an array of strings; `None` for every other document.
    pub open spec fn texts(self) -> Option<Seq<Seq<char>>> {
        match self {
            JsonValue::Array(items) => texts_of(items),
            _ => None,
        }
    }

    /// The items of an array; `None` for every other document.
    pub open spec fn items(self) -> Option<Seq<JsonValue>> {
        match self {
            JsonValue::Array(items) => Some(items),
            _ => None,
        }
    }

    /// Whether the document is an object.
    pub open spec fn is_object(self) -> bool {
        self is Object
    }

    /// The value of a number that fits an unsigned 64-bit integer.
    pub open spec fn unsigned(self) -> Option<u64> {
        match self {
            JsonValue::Int(n) => if n >= 0 {
                Some(n as u64)
            } else {
                None
            },
            JsonValue::UInt(n) => Some(n),
            _ => None,
        }
    }

    /// The optional string member `key`: absent or `null` reads as none;
    /// a member of another kind does not read at all.
    pub open spec fn optional_text(self, key: Seq<char>) -> Option<Option<Seq<char>>> {
        match self.member(key) {
            None | Some(JsonValue::Null) => Some(None),
            Some(JsonValue::Str(s)) => Some(Some(s)),
            _ => None,
        }
    }

    /// The optional boolean member `key`, read as `optional_text` reads.
    pub open spec fn optional_bool(self, key: Seq<char>) -> Option<Option<bool>> {
        match self.member(key) {
            None | Some(JsonValue::Null) => Some(None),
            Some(JsonValue::Bool(b)) => Some(Some(b)),
            _ => None,
        }
    }

    /// The optional unsigned member `key`, read as `optional_text` reads.
    pub open spec fn optional_unsigned(self, key: Seq<char>) -> Option<Option<u64>> {
        match self.member(key) {
            None | Some(JsonValue::Null) => Some(None),
            Some(v) => match v.unsigned() {
                Some(n) => Some(Some(n)),
                None => None,
            },
        }
    }

    /// The unsigned member `key`.
    pub open spec fn unsigned_member(self, key: Seq<char>) -> Option<u64> {
        match self.member(key) {
            Some(v) => v.unsigned(),
            None => None,
        }
    }

    /// The boolean member `key`.
    pub open spec fn bool_member(self, key: Seq<char>) -> Option<bool> {
        match self.member(key) {
            Some(JsonValue::Bool(b)) => Some(b),
            _ => None,
        }
    }

    /// The value of a number that fits a signed 64-bit integer.
    pub open spec fn integer(self) -> Option<i64> {
        match self {
            JsonValue::Int(n) => Some(n),
            _ => None,
        }
    }

    /// The document reached from `self` by following `path` through objects.
    pub open spec fn at_path(self, path: Seq<Seq<char>>) -> Option<JsonValue>
        decreases path.len(),
    {
        if path.len() == 0 {
            Some(self)
        } else {
            match self.member(path[0]) {
                Some(inner) => inner.at_path(path.drop_first()),
                None => None,
            }
        }
    }
}

/// Converts a `serde_json::Value` into a [`Json`], variant by variant.
#[verifier::external_body]
fn from_serde(v: &Value) -> Json {
    match v {
        Value::Null => Json::Null,
        Value::Bool(b) => Json::Bool(*b),
        Value::Number(n) => match (n.as_i64(), n.as_u64()) {
            (Some(i), _) => Json::Int(i),
            (_, Some(u)) => Json::UInt(u),
            _ => Json::Real(n.to_string()),
        },
        Value::String(s) => Json::Str(s.clone()),
        Value::Array(a) => Json::Array(a.iter().map(from_serde).collect()),
        Value::Object(m) => Json::Object(m.iter().map(|(k, v)| (k.clone(), from_serde(v))).collect()),
    }
}

/// Converts a [`Json`] into a `serde_json::Value`, variant by variant.
#[verifier::external_body]
fn to_serde(doc: &Json) -> Value {
    match doc {
        Json::Null => Value::Null,
        Json::Bool(b) => Value::Bool(*b),
        Json::Int(n) => Value::from(*n),
        Json::UInt(n) => Value::from(*n),
        Json::Real(s) => s.parse::<serde_json::Number>().map_or(Value::Null, Value::Number),
        Json::Str(s) => Value::String(s.clone()),
        Json::Array(a) => Value::Array(a.iter().map(to_serde).collect()),
        Json::Object(m) => Value::Object(m.iter().map(|(k, v)| (k.clone(), to_serde(v))).collect()),
    }
}

/// Reads a document with `serde_json::from_slice`.
///
/// The result is a function of the bytes alone: the document that
/// `serde_json` reads, or `None` where it rejects the input.
#[verifier::external_body]
fn parse_bytes(bytes: &[u8]) -> (r: Option<Json>)
    ensures
        match r {
            Some(doc) => json_parse(bytes@) == Some(doc@),
            None => json_parse(bytes@) is None,
        },
{
    match serde_json::from_slice::<Value>(bytes) {
        Ok(v) => Some(from_serde(&v)),
        Err(_) => None,
    }
}

/// Writes a document with the `Display` impl of `serde_json::Value`.
///
/// The result is a function of the document alone: its compact JSON text.
#[verifier::external_body]
fn write_text(doc: &Json) -> (r: String)
    ensures
        r@ == json_text(doc@),
{
    to_serde(doc).to_string()
}

/// Writes a document with `serde_json::to_string_pretty`.
///
/// The result is a function of the document alone: its indented JSON text.
#[verifier::external_body]
fn write_pretty(doc: &Json) -> (r: String)
    ensures
        r@ == json_pretty_text(doc@),
{
    serde_json::to_string_pretty(&to_serde(doc)).unwrap_or_default()
}

/// Sets the member `key` of `fields` to `value`.
pub fn set_member(fields: &mut Vec<(String, Json)>, key: String, value: Json)
    ensures
        members_view(final(fields)@) == with_member(members_view(old(fields)@), key@, value@),
{
    let ghost before = members_view(fields@);
    let mut i: usize = 0;
    while i < fields.len()
        invariant
            i <= fields@.len(),
            fields@ == old(fields)@,
            before == members_view(fields@),
            member_index(before, key@, 0) == member_index(before, key@, i as int),
        decreases fields@.len() - i,
    {
        if str_eq(fields[i].0.as_str(), key.as_str()) {
            let ghost k = key@;
            let ghost v = value@;
            fields.set(i, (key, value));
            assert(members_view(fields@) =~= before.update(i as int, (k, v)));
            return ;
        }
        i += 1;
    }
    let ghost k = key@;
    let ghost v = value@;
    fields.push((key, value));
    assert(members_view(fields@) =~= before.push((k, v)));
}

/// Sets the member `key` of `fields` to `value` unless it is already there.
pub fn set_default_member(fields: &mut Vec<(String, Json)>, key: String, value: Json)
    ensures
        members_view(final(fields)@) == with_default_member(
            members_view(old(fields)@),
            key@,
            value@,
        ),
{
    let ghost before = members_view(fields@);
    let mut i: usize = 0;
    while i < fields.len()
        invariant
            i <= fields@.len(),
            fields@ == old(fields)@,
            before == members_view(fields@),
            member_index(before, key@, 0) == member_index(before, key@, i as int),
        decreases fields@.len() - i,
    {
        if str_eq(fields[i].0.as_str(), key.as_str()) {
            return ;
        }
        i += 1;
    }
    let ghost k = key@;
    let ghost v = value@;
    fields.push((key, value));
    assert(members_view(fields@) =~= before.push((k, v)));
}

impl Json {
    /// Reads a document from JSON text.
    pub fn parse(text: &str) -> (r: Option<Json>)
        ensures
            match r {
                Some(doc) => json_parse_text(text@) == Some(doc@),
                None => json_parse_text(text@) is None,
            },
    {
        parse_bytes(text.as_bytes())
    }

    /// Reads a document from the bytes of a JSON text.
    pub fn parse_slice(bytes: &[u8]) -> (r: Option<Json>)
        ensures
            match r {
                Some(doc) => json_parse(bytes@) == Some(doc@),
                None => json_parse(bytes@) is None,
            },
    {
        parse_bytes(bytes)
    }

    /// The compact JSON text of the document.
    pub fn to_text(&self) -> (r: String)
        ensures
            r@ == json_text(self@),
    {
        write_text(self)
    }

    /// The indented JSON text of the document.
    pub fn to_pretty_text(&self) -> (r: String)
        ensures
            r@ == json_pretty_text(self@),
    {
        write_pretty(self)
    }

    /// A string document holding `text`.
    pub fn string(text: &str) -> (r: Json)
        ensures
            r@ == JsonValue::Str(text@),
    {
        Json::Str(String::from_str(text))
    }

    /// An object document holding `fields`.
    pub fn object(fields: Vec<(String, Json)>) -> (r: Json)
        ensures
            r@ == JsonValue::Object(members_view(fields@)),
    {
        let r = Json::Object(fields);
        proof {
            lemma_view_unfold(r);
        }
        r
    }

    /// Looks up the member named `key`.
    pub fn get(&self, key: &str) -> (r: Option<&Json>)
        ensures
            match r {
                Some(v) => self@.member(key@) == Some(v@),
                None => self@.member(key@) is None,
            },
    {
        proof {
            lemma_view_unfold(*self);
        }
        match self {
            Json::Object(fields) => {
                let mut i: usize = 0;
                while i < fields.len()
                    invariant
                        i <= fields@.len(),
                        self@.members() == members_view(fields@),
                        member_index(self@.members(), key@, 0) == member_index(
                            self@.members(),
                            key@,
                            i as int,
                        ),
                    decreases fields@.len() - i,
                {
                    if str_eq(fields[i].0.as_str(), key) {
                        return Some(&fields[i].1);
                    }
                    i += 1;
                }
                None
            },
            _ => None,
        }
    }

    /// Whether the document is an object with a member named `key`.
    pub fn has(&self, key: &str) -> (r: bool)
        ensures
            r == self@.member(key@).is_some(),
    {
        self.get(key).is_some()
    }

    /// The text of a string document.
    pub fn as_str(&self) -> (r: Option<&String>)
        ensures
            match r {
                Some(s) => self@.text() == Some(s@),
                None => self@.text() is None,
            },
    {
        match self {
            Json::Str(s) => Some(s),
            _ => None,
        }
    }

    /// The text of the string member named `key`.
    pub fn get_str(&self, key: &str) -> (r: Option<&String>)
        ensures
            match r {
                Some(s) => self@.text_member(key@) == Some(s@),
                None => self@.text_member(key@) is None,
            },
    {
        match self.get(key) {
            Some(v) => v.as_str(),
            None => None,
        }
    }

    /// The value of an integer document that fits `i64`.
    pub fn as_i64(&self) -> (r: Option<i64>)
        ensures
            r == self@.integer(),
    {
        match self {
            Json::Int(n) => Some(*n),
            _ => None,
        }
    }

    /// The optional string member named `key`.
    pub fn get_optional_str(&self, key: &str) -> (r: Option<Option<String>>)
        ensures
            match r {
                Some(found) => self@.optional_text(key@) == Some(crate::json::opt_view(found)),
                None => self@.optional_text(key@) is None,
            },
    {
        match self.get(key) {
            None => Some(None),
            Some(Json::Null) => Some(None),
            Some(Json::Str(s)) => Some(Some(s.clone())),
            Some(_) => None,
        }
    }

    /// The optional boolean member named `key`.
    pub fn get_optional_bool(&self, key: &str) -> (r: Option<Option<bool>>)
        ensures
            r == self@.optional_bool(key@),
    {
        match self.get(key) {
            None => Some(None),
            Some(Json::Null) => Some(None),
            Some(Json::Bool(b)) => Some(Some(*b)),
            Some(_) => None,
        }
    }

    /// The optional unsigned member named `key`.
    pub fn get_optional_u64(&self, key: &str) -> (r: Option<Option<u64>>)
        ensures
            r == self@.optional_unsigned(key@),
    {
        match self.get(key) {
            None => Some(None),
            Some(Json::Null) => Some(None),
            Some(v) => match v.as_u64() {
                Some(n) => Some(Some(n)),
                None => None,
            },
        }
    }

    /// The unsigned member named `key`.
    pub fn get_u64(&self, key: &str) -> (r: Option<u64>)
        ensures
            r == self@.unsigned_member(key@),
    {
        match self.get(key) {
            Some(v) => v.as_u64(),
            None => None,
        }
    }

    /// The boolean member named `key`.
    pub fn get_bool(&self, key: &str) -> (r: Option<bool>)
        ensures
            r == self@.bool_member(key@),
    {
        match self.get(key) {
            Some(Json::Bool(b)) => Some(*b),
            _ => None,
        }
    }

    /// The value of an integer document that fits `u64`.
    pub fn as_u64(&self) -> (r: Option<u64>)
        ensures
            r == self@.unsigned(),
    {
        match self {
            Json::Int(n) => if *n >= 0 {
                Some(*n as u64)
            } else {
                None
            },
            Json::UInt(n) => Some(*n),
            _ => None,
        }
    }

    /// The items of an array document.
    pub fn as_array(&self) -> (r: Option<&Vec<Json>>)
        ensures
            match r {
                Some(items) => self@.items() == Some(items_view(items@)),
                None => self@.items() is None,
            },
    {
        proof {
            lemma_view_unfold(*self);
        }
        match self {
            Json::Array(items) => Some(items),
            _ => None,
        }
    }

    /// The texts of an array of strings.
    pub fn as_texts(&self) -> (r: Option<Vec<String>>)
        ensures
            opt_strings_view(r) == self@.texts(),
    {
        let items = match self.as_array() {
            Some(items) => items,
            None => {
                return None;
            },
        };
        let ghost values = items_view(items@);
        let mut out: Vec<String> = Vec::new();
        let mut i: usize = 0;
        while i < items.len()
            invariant
                i <= items@.len(),
                values == items_view(items@),
                self@ == JsonValue::Array(values),
                out@.len() == i,
                forall|k: int| 0 <= k < i ==> (#[trigger] values[k]).text() == Some(out@[k]@),
            decreases items@.len() - i,
        {
            match items[i].as_str() {
                Some(text) => {
                    out.push(text.clone());
                },
                None => {
                    assert(values[i as int].text() is None);
                    return None;
                },
            }
            i += 1;
        }
        assert(strings_view(out@) =~= texts_of(values)->0);
        Some(out)
    }

    /// The members of an object document.
    pub fn as_object(&self) -> (r: Option<&Vec<(String, Json)>>)
        ensures
            match r {
                Some(fields) => self@ == JsonValue::Object(members_view(fields@)),
                None => !self@.is_object(),
            },
    {
        proof {
            lemma_view_unfold(*self);
        }
        match self {
            Json::Object(fields) => Some(fields),
            _ => None,
        }
    }

    /// A deep copy of the document.
    pub fn copy(&self) -> (r: Json)
        ensures
            r@ == self@,
        decreases self,
    {
        proof {
            lemma_view_unfold(*self);
        }
        match self {
            Json::Null => Json::Null,
            Json::Bool(b) => Json::Bool(*b),
            Json::Int(n) => Json::Int(*n),
            Json::UInt(n) => Json::UInt(*n),
            Json::Real(s) => Json::Real(s.clone()),
            Json::Str(s) => Json::Str(s.clone()),
            Json::Array(items) => {
                let mut out: Vec<Json> = Vec::new();
                let mut i: usize = 0;
                while i < items.len()
                    invariant
                        i <= items@.len(),
                        out@.len() == i,
                        forall|k: int| 0 <= k < i ==> out@[k]@ == items@[k]@,
                        *self == Json::Array(*items),
                    decreases items@.len() - i,
                {
                    proof {
                        lemma_item_decreases(*self, i as int);
                    }
                    out.push(items[i].copy());
                    i += 1;
                }
                let r = Json::Array(out);
                proof {
                    lemma_view_unfold(r);
                    assert(items_view(out@) =~= items_view(items@));
                }
                r
            },
            Json::Object(fields) => {
                let mut out: Vec<(String, Json)> = Vec::new();
                let mut i: usize = 0;
                while i < fields.len()
                    invariant
                        i <= fields@.len(),
                        out@.len() == i,
                        forall|k: int|
                            0 <= k < i ==> out@[k].0@ == fields@[k].0@ && out@[k].1@
                                == fields@[k].1@,
                        *self == Json::Object(*fields),
                    decreases fields@.len() - i,
                {
                    proof {
                        lemma_item_decreases(*self, i as int);
                    }
                    out.push((fields[i].0.clone(), fields[i].1.copy()));
                    i += 1;
                }
                let r = Json::Object(out);
                proof {
                    lemma_view_unfold(r);
                    assert(members_view(out@) =~= members_view(fields@));
                }
                r
            },
        }
    }
}

} // verus!
