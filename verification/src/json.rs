//! JSON documents as the adapter reads and writes them.
//!
//! Text is parsed and printed by `serde_json`; everything between works on
//! [`Json`], whose mathematical model is [`JsonView`].

use vstd::prelude::*;

verus! {

/// `serde_json::Number`, opaque: a number is carried, compared and asked
/// for its value, never looked into.
#[verifier::external_type_specification]
#[verifier::external_body]
pub struct ExNumber(serde_json::Number);

/// `serde_json::Value`, opaque: what a value holds is named by [`document`].
#[verifier::external_type_specification]
#[verifier::external_body]
pub struct ExValue(serde_json::Value);

/// The mathematical model of a JSON document.
pub ghost enum JsonView {
    Null,
    Bool(bool),
    Number(serde_json::Number),
    String(Seq<char>),
    Array(Seq<JsonView>),
    Object(Seq<(Seq<char>, JsonView)>),
}

/// A JSON document. An object is the list of its members in order; where a
/// key occurs more than once, the last member with it counts.
#[derive(Debug)]
pub enum Json {
    Null,
    Bool(bool),
    Number(serde_json::Number),
    String(String),
    Array(Vec<Json>),
    Object(Vec<(String, Json)>),
}

/// The document that a `serde_json::Value` holds, the members of an object in
/// the order in which its map iterates over them.
pub uninterp spec fn document(value: serde_json::Value) -> JsonView;

/// What `serde_json::from_str` makes of a text: the document it reads, or
/// the message with which it rejects the text.
pub uninterp spec fn parsed(text: Seq<char>) -> Result<JsonView, Seq<char>>;

/// What `serde_json::to_string` writes for a document: its text on one line.
pub uninterp spec fn compact(doc: JsonView) -> Seq<char>;

/// What `serde_json::to_string_pretty` writes for a document: its indented text.
pub uninterp spec fn pretty(doc: JsonView) -> Seq<char>;

/// What `serde_json::Number::as_u64` answers for a number.
pub uninterp spec fn unsigned(number: serde_json::Number) -> Option<u64>;

/// The number that `serde_json::Number::from` makes of a `u64`.
pub uninterp spec fn number_of(n: u64) -> serde_json::Number;

/// The number that `serde_json::Number::from` makes of an `i64`.
pub uninterp spec fn signed_number_of(n: i64) -> serde_json::Number;

/// The model of an optional text.
pub open spec fn opt_str_view(text: Option<&str>) -> Option<Seq<char>> {
    match text {
        Some(t) => Some(t@),
        None => None,
    }
}

/// The model of what a lookup found.
pub open spec fn found_view(found: Option<&Json>) -> Option<JsonView> {
    match found {
        Some(value) => Some(value@),
        None => None,
    }
}

/// The index of the last member with the given key among the first `end` members.
pub open spec fn find_before(
    members: Seq<(Seq<char>, JsonView)>,
    key: Seq<char>,
    end: int,
) -> Option<int>
    decreases end,
{
    if end <= 0 || end > members.len() {
        None
    } else if members[end - 1].0 == key {
        Some(end - 1)
    } else {
        find_before(members, key, end - 1)
    }
}

/// The index of the last member with the given key.
pub open spec fn find(members: Seq<(Seq<char>, JsonView)>, key: Seq<char>) -> Option<int> {
    find_before(members, key, members.len() as int)
}

/// The value that an object's members give a key: that of the last member with it.
pub open spec fn member(members: Seq<(Seq<char>, JsonView)>, key: Seq<char>) -> Option<JsonView> {
    match find(members, key) {
        Some(i) => Some(members[i].1),
        None => None,
    }
}

/// The members after setting `key` to `value`: replaced in place where the key
/// is present, added at the end where it is not.
pub open spec fn put(members: Seq<(Seq<char>, JsonView)>, key: Seq<char>, value: JsonView) -> Seq<
    (Seq<char>, JsonView),
> {
    match find(members, key) {
        Some(i) => members.update(i, (key, value)),
        None => members.push((key, value)),
    }
}

/// The first `count` members set one after the other into an empty object,
/// each value settled.
pub open spec fn settled_members(members: Seq<(Seq<char>, JsonView)>, count: nat) -> Seq<
    (Seq<char>, JsonView),
>
    decreases members, count,
{
    if count == 0 || count > members.len() {
        Seq::empty()
    } else {
        put(
            settled_members(members, (count - 1) as nat),
            members[count - 1].0,
            settled(members[count - 1].1),
        )
    }
}

/// The document with every object's members set one after the other into an
/// empty object: no key is left twice, a repeated key keeps its first place
/// and its last value.
pub open spec fn settled(doc: JsonView) -> JsonView
    decreases doc, 0nat,
{
    match doc {
        JsonView::Array(items) => JsonView::Array(
            Seq::new(
                items.len(),
                |i: int|
                    if 0 <= i < items.len() {
                        settled(items[i])
                    } else {
                        JsonView::Null
                    },
            ),
        ),
        JsonView::Object(members) => JsonView::Object(settled_members(members, members.len())),
        _ => doc,
    }
}

/// The models of a list of documents.
pub open spec fn views(items: Seq<Json>) -> Seq<JsonView>
    decreases items,
{
    Seq::new(
        items.len(),
        |i: int|
            if 0 <= i < items.len() {
                items[i]@
            } else {
                JsonView::Null
            },
    )
}

/// The models of a list of members.
pub open spec fn member_views(members: Seq<(String, Json)>) -> Seq<(Seq<char>, JsonView)>
    decreases members,
{
    Seq::new(
        members.len(),
        |i: int|
            if 0 <= i < members.len() {
                (members[i].0@, members[i].1@)
            } else {
                (Seq::empty(), JsonView::Null)
            },
    )
}

impl JsonView {
    /// The member `key` of an object; nothing for other documents.
    pub open spec fn get(self, key: Seq<char>) -> Option<JsonView> {
        match self {
            JsonView::Object(members) => member(members, key),
            _ => None,
        }
    }

    pub open spec fn as_str(self) -> Option<Seq<char>> {
        match self {
            JsonView::String(s) => Some(s),
            _ => None,
        }
    }

    pub open spec fn as_u64(self) -> Option<u64> {
        match self {
            JsonView::Number(n) => unsigned(n),
            _ => None,
        }
    }

    pub open spec fn as_bool(self) -> Option<bool> {
        match self {
            JsonView::Bool(b) => Some(b),
            _ => None,
        }
    }

    pub open spec fn as_object(self) -> Option<Seq<(Seq<char>, JsonView)>> {
        match self {
            JsonView::Object(members) => Some(members),
            _ => None,
        }
    }

    pub open spec fn as_array(self) -> Option<Seq<JsonView>> {
        match self {
            JsonView::Array(items) => Some(items),
            _ => None,
        }
    }

    /// The text of the string member `key`.
    pub open spec fn str_at(self, key: Seq<char>) -> Option<Seq<char>> {
        match self.get(key) {
            Some(v) => v.as_str(),
            None => None,
        }
    }

    /// The value of the unsigned integer member `key`.
    pub open spec fn u64_at(self, key: Seq<char>) -> Option<u64> {
        match self.get(key) {
            Some(v) => v.as_u64(),
            None => None,
        }
    }

    /// The value of the boolean member `key`.
    pub open spec fn bool_at(self, key: Seq<char>) -> Option<bool> {
        match self.get(key) {
            Some(v) => v.as_bool(),
            None => None,
        }
    }

    /// The members of the object member `key`.
    pub open spec fn object_at(self, key: Seq<char>) -> Option<Seq<(Seq<char>, JsonView)>> {
        match self.get(key) {
            Some(v) => v.as_object(),
            None => None,
        }
    }
}

impl View for Json {
    type V = JsonView;

    open spec fn view(&self) -> JsonView
        decreases self,
    {
        match self {
            Json::Null => JsonView::Null,
            Json::Bool(b) => JsonView::Bool(*b),
            Json::Number(n) => JsonView::Number(*n),
            Json::String(s) => JsonView::String(s@),
            Json::Array(items) => JsonView::Array(views(items@)),
            Json::Object(members) => JsonView::Object(member_views(members@)),
        }
    }
}

/// The value of the member `key` among `members`.
pub fn lookup<'a>(members: &'a Vec<(String, Json)>, key: &str) -> (r: Option<&'a Json>)
    ensures
        found_view(r) == member(member_views(members@), key@),
{
    let ghost all = member_views(members@);
    let mut i: usize = members.len();
    while i > 0
        invariant
            i <= members.len(),
            all == member_views(members@),
            find(all, key@) == find_before(all, key@, i as int),
        decreases i,
    {
        i -= 1;
        if crate::text::text_eq(members[i].0.as_str(), key) {
            return Some(&members[i].1);
        }
    }
    None
}

/// `serde_json::from_str` into a `serde_json::Value`: on success the value
/// holds the document that the text denotes; otherwise the `Display` text of
/// the error is handed back.
#[verifier::external_body]
fn value_from_text(text: &str) -> (r: Result<serde_json::Value, String>)
    ensures
        match r {
            Ok(value) => parsed(text@) == Ok::<JsonView, Seq<char>>(document(value)),
            Err(message) => parsed(text@) == Err::<JsonView, Seq<char>>(message@),
        },
{
    serde_json::from_str::<serde_json::Value>(text).map_err(|e| e.to_string())
}

/// Copies a `serde_json::Value` node by node: the variants of
/// `serde_json::Value` map one to one, and the members of a
/// `serde_json::Map` come in its iteration order.
#[verifier::external_body]
fn json_from_value(value: &serde_json::Value) -> (r: Json)
    ensures
        r@ == document(*value),
{
    match value {
        serde_json::Value::Null => Json::Null,
        serde_json::Value::Bool(b) => Json::Bool(*b),
        serde_json::Value::Number(n) => Json::Number(n.clone()),
        serde_json::Value::String(s) => Json::String(s.clone()),
        serde_json::Value::Array(a) => Json::Array(a.iter().map(json_from_value).collect()),
        serde_json::Value::Object(m) => Json::Object(
            m.iter().map(|(k, v)| (k.clone(), json_from_value(v))).collect(),
        ),
    }
}

/// Builds the `serde_json::Value` of a document node by node. The members of
/// an object are collected into a `serde_json::Map`, which inserts them one
/// after the other: a key that is already present keeps its place and takes
/// the new value, a new key goes to the end.
#[verifier::external_body]
fn value_from_json(json: &Json) -> (r: serde_json::Value)
    ensures
        document(r) == settled(json@),
{
    match json {
        Json::Null => serde_json::Value::Null,
        Json::Bool(b) => serde_json::Value::Bool(*b),
        Json::Number(n) => serde_json::Value::Number(n.clone()),
        Json::String(s) => serde_json::Value::String(s.clone()),
        Json::Array(a) => serde_json::Value::Array(a.iter().map(value_from_json).collect()),
        Json::Object(o) => serde_json::Value::Object(
            o.iter().map(|(k, v)| (k.clone(), value_from_json(v))).collect(),
        ),
    }
}

/// `serde_json::to_string` of a `serde_json::Value`: the compact text of the
/// document it holds. Writing a `serde_json::Value` into memory has no way
/// to fail: its keys are strings, its numbers are finite, and the text goes
/// to a vector.
#[verifier::external_body]
fn compact_from_value(value: &serde_json::Value) -> (r: String)
    ensures
        r@ == compact(document(*value)),
{
    serde_json::to_string(value).unwrap_or_default()
}

/// `serde_json::to_string_pretty` of a `serde_json::Value`: the indented text
/// of the document it holds. It has no way to fail, as `serde_json::to_string`
/// has none.
#[verifier::external_body]
fn pretty_from_value(value: &serde_json::Value) -> (r: String)
    ensures
        r@ == pretty(document(*value)),
{
    serde_json::to_string_pretty(value).unwrap_or_default()
}

/// `serde_json::Number::as_u64`: the number as a `u64` where it is a
/// non-negative integer that fits.
#[verifier::external_body]
fn number_as_u64(number: &serde_json::Number) -> (r: Option<u64>)
    ensures
        r == unsigned(*number),
{
    number.as_u64()
}

/// `serde_json::Number::from` of a `u64`: the number reads back as that `u64`.
#[verifier::external_body]
fn number_from_u64(n: u64) -> (r: serde_json::Number)
    ensures
        r == number_of(n),
        unsigned(r) == Some(n),
{
    serde_json::Number::from(n)
}

/// `serde_json::Number::from` of an `i64`.
#[verifier::external_body]
fn number_from_i64(n: i64) -> (r: serde_json::Number)
    ensures
        r == signed_number_of(n),
{
    serde_json::Number::from(n)
}

/// `Clone` of `serde_json::Number`: an equal number.
pub assume_specification[ <serde_json::Number as Clone>::clone ](
    number: &serde_json::Number,
) -> (r: serde_json::Number)
    ensures
        r == *number,
;

impl Json {
    /// The member `key` of an object.
    pub fn get(&self, key: &str) -> (r: Option<&Json>)
        ensures
            found_view(r) == self@.get(key@),
    {
        match self {
            Json::Object(members) => {
                lookup(members, key)
            },
            _ => None,
        }
    }

    /// The text of a string.
    pub fn as_str(&self) -> (r: Option<&str>)
        ensures
            match r {
                Some(s) => self@.as_str() == Some(s@),
                None => self@.as_str() is None,
            },
    {
        match self {
            Json::String(s) => Some(s.as_str()),
            _ => None,
        }
    }

    /// The value of a number that is an unsigned integer.
    pub fn as_u64(&self) -> (r: Option<u64>)
        ensures
            r == self@.as_u64(),
    {
        match self {
            Json::Number(n) => number_as_u64(n),
            _ => None,
        }
    }

    pub fn as_bool(&self) -> (r: Option<bool>)
        ensures
            r == self@.as_bool(),
    {
        match self {
            Json::Bool(b) => Some(*b),
            _ => None,
        }
    }

    pub fn as_object(&self) -> (r: Option<&Vec<(String, Json)>>)
        ensures
            match r {
                Some(members) => self@.as_object() == Some(member_views(members@)),
                None => self@.as_object() is None,
            },
    {
        match self {
            Json::Object(members) => {
                Some(members)
            },
            _ => None,
        }
    }

    pub fn as_array(&self) -> (r: Option<&Vec<Json>>)
        ensures
            match r {
                Some(items) => self@.as_array() == Some(views(items@)),
                None => self@.as_array() is None,
            },
    {
        match self {
            Json::Array(items) => {
                Some(items)
            },
            _ => None,
        }
    }

    pub fn is_null(&self) -> (r: bool)
        ensures
            r == (self@ == JsonView::Null),
    {
        match self {
            Json::Null => true,
            _ => false,
        }
    }

    /// The text of the string member `key`.
    pub fn str_at(&self, key: &str) -> (r: Option<&str>)
        ensures
            opt_str_view(r) == self@.str_at(key@),
    {
        match self.get(key) {
            Some(value) => value.as_str(),
            None => None,
        }
    }

    /// The value of the unsigned integer member `key`.
    pub fn u64_at(&self, key: &str) -> (r: Option<u64>)
        ensures
            r == self@.u64_at(key@),
    {
        match self.get(key) {
            Some(value) => value.as_u64(),
            None => None,
        }
    }

    /// The value of the boolean member `key`.
    pub fn bool_at(&self, key: &str) -> (r: Option<bool>)
        ensures
            r == self@.bool_at(key@),
    {
        match self.get(key) {
            Some(value) => value.as_bool(),
            None => None,
        }
    }

    /// A copy of the members of the object member `key`.
    pub fn object_at(&self, key: &str) -> (r: Option<Vec<(String, Json)>>)
        ensures
            match r {
                Some(members) => self@.object_at(key@) == Some(member_views(members@)),
                None => self@.object_at(key@) is None,
            },
    {
        match self.get(key) {
            Some(value) => match value.as_object() {
                Some(members) => Some(Json::duplicate_members(members)),
                None => None,
            },
            None => None,
        }
    }

    /// A string document.
    pub fn string(text: &str) -> (r: Json)
        ensures
            r@ == JsonView::String(text@),
    {
        Json::String(text.to_owned())
    }

    /// A number document for an unsigned integer.
    pub fn unsigned(n: u64) -> (r: Json)
        ensures
            r@ == JsonView::Number(number_of(n)),
            r@.as_u64() == Some(n),
    {
        Json::Number(number_from_u64(n))
    }

    /// A number document for a signed integer.
    pub fn signed(n: i64) -> (r: Json)
        ensures
            r@ == JsonView::Number(signed_number_of(n)),
    {
        Json::Number(number_from_i64(n))
    }

    /// A copy of the document.
    pub fn duplicate(&self) -> (r: Json)
        ensures
            r@ == self@,
        decreases self,
    {
        match self {
            Json::Null => Json::Null,
            Json::Bool(b) => Json::Bool(*b),
            Json::Number(n) => Json::Number(n.clone()),
            Json::String(s) => Json::String(s.clone()),
            Json::Array(items) => {
                let copy = Json::duplicate_all(items);
                Json::Array(copy)
            },
            Json::Object(members) => {
                let copy = Json::duplicate_members(members);
                Json::Object(copy)
            },
        }
    }

    /// Copies of the documents of a list.
    pub fn duplicate_all(items: &Vec<Json>) -> (r: Vec<Json>)
        ensures
            views(r@) == views(items@),
        decreases items,
    {
        let mut copy: Vec<Json> = Vec::new();
        let mut i: usize = 0;
        while i < items.len()
            invariant
                i <= items.len(),
                copy.len() == i,
                forall|k: int| 0 <= k < i ==> copy[k]@ == items[k]@,
            decreases items.len() - i,
        {
            copy.push(items[i].duplicate());
            i += 1;
        }
        assert(views(copy@) =~= views(items@));
        copy
    }

    /// Copies of the members of an object.
    pub fn duplicate_members(members: &Vec<(String, Json)>) -> (r: Vec<(String, Json)>)
        ensures
            member_views(r@) == member_views(members@),
        decreases members,
    {
        let mut copy: Vec<(String, Json)> = Vec::new();
        let mut i: usize = 0;
        while i < members.len()
            invariant
                i <= members.len(),
                copy.len() == i,
                forall|k: int|
                    0 <= k < i ==> copy[k].0@ == members[k].0@ && copy[k].1@ == members[k].1@,
            decreases members.len() - i,
        {
            let key = members[i].0.clone();
            let value = members[i].1.duplicate();
            copy.push((key, value));
            i += 1;
        }
        assert(member_views(copy@) =~= member_views(members@));
        copy
    }

    /// Reads a document from JSON text.
    pub fn parse(text: &str) -> (r: Result<Json, String>)
        ensures
            match r {
                Ok(json) => parsed(text@) == Ok::<JsonView, Seq<char>>(json@),
                Err(message) => parsed(text@) == Err::<JsonView, Seq<char>>(message@),
            },
    {
        match value_from_text(text) {
            Ok(value) => Ok(json_from_value(&value)),
            Err(message) => Err(message),
        }
    }

    /// The document as JSON text on one line.
    pub fn to_text(&self) -> (r: String)
        ensures
            r@ == compact(settled(self@)),
    {
        let value = value_from_json(self);
        compact_from_value(&value)
    }

    /// The document as indented JSON text.
    pub fn to_pretty_text(&self) -> (r: String)
        ensures
            r@ == pretty(settled(self@)),
    {
        let value = value_from_json(self);
        pretty_from_value(&value)
    }
}

} // verus!
