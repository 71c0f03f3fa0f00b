//! JSON shapes: how values are written as JSON and read from it, member by member.

use crate::json::{found_view, member_views, number_of, views, Json, JsonView};
use crate::text::text_eq;
use crate::time::{utc_timestamp, Timestamp};
use vstd::prelude::*;

verus! {

/// A type with a JSON shape: how a value is written, which documents are
/// read as a value, and what such a document looks like written again.
pub trait Shape: Sized {
    /// The JSON that stands for the value.
    spec fn json_view(&self) -> JsonView;

    /// Whether a document has the shape of a value.
    spec fn accepts(doc: JsonView) -> bool;

    /// What the value of an accepted document is written as: the known
    /// members in their order, everything else left out.
    spec fn normal(doc: JsonView) -> JsonView;

    /// The keys of the known members, in the order in which they are written.
    spec fn keys() -> Seq<Seq<char>>;

    /// Whether the known member at `i` is written again exactly as it was
    /// read. It is, unless it is an instant, which is written in UTC, a
    /// number, which is written from its value, or a value with a shape of
    /// its own, which is written by that shape.
    spec fn verbatim(i: int) -> bool;

    /// An accepted document written again is an object of the known members
    /// in their order. A member that the document gives a value other than
    /// `null` has one when written again, and the same one where the member
    /// is written as it was read; a member that the document leaves out or
    /// gives as `null` is written as `null`.
    proof fn lemma_normal_keeps(doc: JsonView, i: int)
        requires
            Self::accepts(doc),
            0 <= i < Self::keys().len(),
        ensures
            Self::normal(doc) is Object,
            Self::normal(doc)->Object_0.len() == Self::keys().len(),
            Self::normal(doc)->Object_0[i].0 == Self::keys()[i],
            !is_absent(doc.get(Self::keys()[i])) ==> Self::normal(doc)->Object_0[i].1
                != JsonView::Null,
            is_absent(doc.get(Self::keys()[i])) ==> Self::normal(doc)->Object_0[i].1
                == JsonView::Null,
            Self::verbatim(i) && !is_absent(doc.get(Self::keys()[i])) ==> Self::normal(
                doc,
            )->Object_0[i].1 == doc.get(Self::keys()[i])->Some_0,
    ;

    fn to_json(&self) -> (r: Json)
        ensures
            r@ == self.json_view(),
    ;

    fn from_json(doc: &Json) -> (r: Option<Self>)
        ensures
            match r {
                Some(value) => Self::accepts(doc@) && value.json_view() == Self::normal(doc@),
                None => !Self::accepts(doc@),
            },
    ;
}

/// The JSON of a list of values.
pub open spec fn list_json<T: Shape>(items: Seq<T>) -> JsonView {
    JsonView::Array(Seq::new(items.len(), |i: int| items[i].json_view()))
}

/// Whether a document is an array of documents that all have the shape.
pub open spec fn list_accepts<T: Shape>(doc: JsonView) -> bool {
    doc is Array && forall|i: int|
        0 <= i < doc->Array_0.len() ==> T::accepts(#[trigger] doc->Array_0[i])
}

/// An accepted list written again.
pub open spec fn list_normal<T: Shape>(doc: JsonView) -> JsonView {
    JsonView::Array(Seq::new(doc->Array_0.len(), |i: int| T::normal(doc->Array_0[i])))
}

/// Writes a list of values as a JSON array.
pub fn list_to_json<T: Shape>(items: &Vec<T>) -> (r: Json)
    ensures
        r@ == list_json(items@),
{
    let mut out: Vec<Json> = Vec::new();
    let mut i: usize = 0;
    while i < items.len()
        invariant
            i <= items.len(),
            out.len() == i,
            forall|k: int| 0 <= k < i ==> out[k]@ == items[k].json_view(),
        decreases items.len() - i,
    {
        out.push(items[i].to_json());
        i += 1;
    }
    assert(views(out@) =~= list_json(items@)->Array_0);
    Json::Array(out)
}

/// Reads a JSON array as a list of values.
pub fn list_from_json<T: Shape>(doc: &Json) -> (r: Option<Vec<T>>)
    ensures
        match r {
            Some(items) => list_accepts::<T>(doc@) && list_json(items@) == list_normal::<T>(doc@),
            None => !list_accepts::<T>(doc@),
        },
{
    match doc.as_array() {
        None => None,
        Some(docs) => {
            let mut out: Vec<T> = Vec::new();
            let mut i: usize = 0;
            while i < docs.len()
                invariant
                    i <= docs.len(),
                    out.len() == i,
                    doc@ == JsonView::Array(views(docs@)),
                    forall|k: int| 0 <= k < i ==> T::accepts(#[trigger] views(docs@)[k]),
                    forall|k: int| 0 <= k < i ==> out[k].json_view() == T::normal(views(docs@)[k]),
                decreases docs.len() - i,
            {
                match T::from_json(&docs[i]) {
                    Some(value) => {
                        out.push(value);
                    },
                    None => {
                        assert(!T::accepts(views(docs@)[i as int]));
                        return None;
                    },
                }
                i += 1;
            }
            assert(list_json(out@)->Array_0 =~= list_normal::<T>(doc@)->Array_0);
            Some(out)
        },
    }
}

/// Reading a value and writing it again loses no known member. The written
/// object has the known keys in their order. Where the document read gave a
/// known member a value other than `null`, the written object gives it one
/// too, and the same one for every member that is written as it was read;
/// where it gave none, the written object gives `null`.
pub proof fn lemma_round_trip_keeps_known_members<T: Shape>(doc: JsonView, value: T, i: int)
    requires
        T::accepts(doc),
        value.json_view() == T::normal(doc),
        0 <= i < T::keys().len(),
    ensures
        value.json_view() is Object,
        value.json_view()->Object_0.len() == T::keys().len(),
        value.json_view()->Object_0[i].0 == T::keys()[i],
        !is_absent(doc.get(T::keys()[i])) ==> value.json_view()->Object_0[i].1 != JsonView::Null,
        is_absent(doc.get(T::keys()[i])) ==> value.json_view()->Object_0[i].1 == JsonView::Null,
        T::verbatim(i) && !is_absent(doc.get(T::keys()[i])) ==> value.json_view()->Object_0[i].1
            == doc.get(T::keys()[i])->Some_0,
{
    T::lemma_normal_keeps(doc, i);
}

/// A list of texts is written as the array it was read from.
pub proof fn lemma_texts_as_read(found: Option<JsonView>)
    requires
        texts_member(found) is Some,
    ensures
        texts_json(texts_member(found)->Some_0) == found->Some_0,
{
    let items = found->Some_0->Array_0;
    assert(texts_json(texts_member(found)->Some_0)->Array_0 =~= items);
}

/// A list of named texts is written as the object it was read from.
pub proof fn lemma_pairs_as_read(found: Option<JsonView>)
    requires
        pairs_member(found) is Some,
    ensures
        pairs_json(pairs_member(found)->Some_0) == found->Some_0,
{
    let members = found->Some_0->Object_0;
    assert(pairs_json(pairs_member(found)->Some_0)->Object_0 =~= members);
}

pub open spec fn opt_view(text: Option<String>) -> Option<Seq<char>> {
    match text {
        Some(t) => Some(t@),
        None => None,
    }
}

pub open spec fn opt_time_view(at: Option<Timestamp>) -> Option<Seq<char>> {
    match at {
        Some(t) => Some(t@),
        None => None,
    }
}

pub open spec fn texts_view(texts: Seq<String>) -> Seq<Seq<char>> {
    Seq::new(texts.len(), |i: int| texts[i]@)
}

pub open spec fn opt_texts_view(texts: Option<Vec<String>>) -> Option<Seq<Seq<char>>> {
    match texts {
        Some(t) => Some(texts_view(t@)),
        None => None,
    }
}

pub open spec fn pairs_view(pairs: Seq<(String, String)>) -> Seq<(Seq<char>, Seq<char>)> {
    Seq::new(pairs.len(), |i: int| (pairs[i].0@, pairs[i].1@))
}

pub open spec fn opt_pairs_view(pairs: Option<Vec<(String, String)>>) -> Option<
    Seq<(Seq<char>, Seq<char>)>,
> {
    match pairs {
        Some(p) => Some(pairs_view(p@)),
        None => None,
    }
}

pub open spec fn opt_members_view(members: Option<Vec<(String, Json)>>) -> Option<
    Seq<(Seq<char>, JsonView)>,
> {
    match members {
        Some(m) => Some(member_views(m@)),
        None => None,
    }
}

/// The JSON of an optional text: the string, or `null`.
pub open spec fn opt_text_json(text: Option<Seq<char>>) -> JsonView {
    match text {
        Some(t) => JsonView::String(t),
        None => JsonView::Null,
    }
}

pub open spec fn opt_bool_json(flag: Option<bool>) -> JsonView {
    match flag {
        Some(b) => JsonView::Bool(b),
        None => JsonView::Null,
    }
}

pub open spec fn opt_object_json(members: Option<Seq<(Seq<char>, JsonView)>>) -> JsonView {
    match members {
        Some(m) => JsonView::Object(m),
        None => JsonView::Null,
    }
}

/// The JSON of a list of texts: an array of strings.
pub open spec fn texts_json(texts: Seq<Seq<char>>) -> JsonView {
    JsonView::Array(Seq::new(texts.len(), |i: int| JsonView::String(texts[i])))
}

pub open spec fn opt_texts_json(texts: Option<Seq<Seq<char>>>) -> JsonView {
    match texts {
        Some(t) => texts_json(t),
        None => JsonView::Null,
    }
}

/// The JSON of a list of named texts: an object of strings.
pub open spec fn pairs_json(pairs: Seq<(Seq<char>, Seq<char>)>) -> JsonView {
    JsonView::Object(Seq::new(pairs.len(), |i: int| (pairs[i].0, JsonView::String(pairs[i].1))))
}

pub open spec fn opt_pairs_json(pairs: Option<Seq<(Seq<char>, Seq<char>)>>) -> JsonView {
    match pairs {
        Some(p) => pairs_json(p),
        None => JsonView::Null,
    }
}

/// Whether a member, as found in an object, is absent or `null`.
pub open spec fn is_absent(found: Option<JsonView>) -> bool {
    found is None || found == Some(JsonView::Null)
}

/// A required text member: a string.
pub open spec fn text_member(found: Option<JsonView>) -> Option<Seq<char>> {
    match found {
        Some(v) => v.as_str(),
        None => None,
    }
}

/// An optional text member: absent or `null` is no text, a string is its
/// text, anything else is not acceptable.
pub open spec fn opt_text_member(found: Option<JsonView>) -> Option<Option<Seq<char>>> {
    if is_absent(found) {
        Some(None)
    } else {
        match text_member(found) {
            Some(s) => Some(Some(s)),
            None => None,
        }
    }
}

/// A required instant member: a string that is a date and time.
pub open spec fn time_member(found: Option<JsonView>) -> Option<Seq<char>> {
    match text_member(found) {
        Some(s) => utc_timestamp(s),
        None => None,
    }
}

/// An optional instant member.
pub open spec fn opt_time_member(found: Option<JsonView>) -> Option<Option<Seq<char>>> {
    if is_absent(found) {
        Some(None)
    } else {
        match time_member(found) {
            Some(t) => Some(Some(t)),
            None => None,
        }
    }
}

/// A required unsigned integer member.
pub open spec fn u64_member(found: Option<JsonView>) -> Option<u64> {
    match found {
        Some(v) => v.as_u64(),
        None => None,
    }
}

/// A required boolean member.
pub open spec fn bool_member(found: Option<JsonView>) -> Option<bool> {
    match found {
        Some(v) => v.as_bool(),
        None => None,
    }
}

pub open spec fn opt_bool_member(found: Option<JsonView>) -> Option<Option<bool>> {
    if is_absent(found) {
        Some(None)
    } else {
        match bool_member(found) {
            Some(b) => Some(Some(b)),
            None => None,
        }
    }
}

/// A required object member, taken as it is.
pub open spec fn object_member(found: Option<JsonView>) -> Option<Seq<(Seq<char>, JsonView)>> {
    match found {
        Some(v) => v.as_object(),
        None => None,
    }
}

pub open spec fn opt_object_member(found: Option<JsonView>) -> Option<
    Option<Seq<(Seq<char>, JsonView)>>,
> {
    if is_absent(found) {
        Some(None)
    } else {
        match object_member(found) {
            Some(m) => Some(Some(m)),
            None => None,
        }
    }
}

/// Whether every item of an array is a string.
pub open spec fn all_strings(items: Seq<JsonView>) -> bool {
    forall|i: int| 0 <= i < items.len() ==> (#[trigger] items[i]) is String
}

/// A required member that is an array of strings.
pub open spec fn texts_member(found: Option<JsonView>) -> Option<Seq<Seq<char>>> {
    match found {
        Some(JsonView::Array(items)) => if all_strings(items) {
            Some(Seq::new(items.len(), |i: int| items[i]->String_0))
        } else {
            None
        },
        _ => None,
    }
}

pub open spec fn opt_texts_member(found: Option<JsonView>) -> Option<Option<Seq<Seq<char>>>> {
    if is_absent(found) {
        Some(None)
    } else {
        match texts_member(found) {
            Some(t) => Some(Some(t)),
            None => None,
        }
    }
}

/// Whether every member of an object is a string.
pub open spec fn all_string_values(members: Seq<(Seq<char>, JsonView)>) -> bool {
    forall|i: int| 0 <= i < members.len() ==> (#[trigger] members[i]).1 is String
}

/// A required member that is an object of strings.
pub open spec fn pairs_member(found: Option<JsonView>) -> Option<Seq<(Seq<char>, Seq<char>)>> {
    match found {
        Some(JsonView::Object(members)) => if all_string_values(members) {
            Some(Seq::new(members.len(), |i: int| (members[i].0, members[i].1->String_0)))
        } else {
            None
        },
        _ => None,
    }
}

pub open spec fn opt_pairs_member(found: Option<JsonView>) -> Option<
    Option<Seq<(Seq<char>, Seq<char>)>>,
> {
    if is_absent(found) {
        Some(None)
    } else {
        match pairs_member(found) {
            Some(p) => Some(Some(p)),
            None => None,
        }
    }
}

/// An optional member with a shape of its own: absent or `null`, or accepted.
pub open spec fn opt_shape_accepts<T: Shape>(found: Option<JsonView>) -> bool {
    is_absent(found) || T::accepts(found->Some_0)
}

pub open spec fn opt_shape_normal<T: Shape>(found: Option<JsonView>) -> JsonView {
    if is_absent(found) {
        JsonView::Null
    } else {
        T::normal(found->Some_0)
    }
}

pub open spec fn opt_shape_json<T: Shape>(value: Option<T>) -> JsonView {
    match value {
        Some(v) => v.json_view(),
        None => JsonView::Null,
    }
}

/// A required member with a shape of its own.
pub open spec fn shape_member_accepts<T: Shape>(found: Option<JsonView>) -> bool {
    found is Some && T::accepts(found->Some_0)
}

/// A required member that is a list of values with a shape.
pub open spec fn list_member_accepts<T: Shape>(found: Option<JsonView>) -> bool {
    found is Some && list_accepts::<T>(found->Some_0)
}

pub fn encode_opt_text(text: &Option<String>) -> (r: Json)
    ensures
        r@ == opt_text_json(opt_view(*text)),
{
    match text {
        Some(t) => Json::string(t.as_str()),
        None => Json::Null,
    }
}

pub fn encode_opt_time(at: &Option<Timestamp>) -> (r: Json)
    ensures
        r@ == opt_text_json(opt_time_view(*at)),
{
    match at {
        Some(t) => Json::string(t.as_str()),
        None => Json::Null,
    }
}

pub fn encode_opt_bool(flag: &Option<bool>) -> (r: Json)
    ensures
        r@ == opt_bool_json(*flag),
{
    match flag {
        Some(b) => Json::Bool(*b),
        None => Json::Null,
    }
}

pub fn encode_opt_object(members: &Option<Vec<(String, Json)>>) -> (r: Json)
    ensures
        r@ == opt_object_json(opt_members_view(*members)),
{
    match members {
        Some(m) => Json::Object(Json::duplicate_members(m)),
        None => Json::Null,
    }
}

pub fn encode_texts(texts: &Vec<String>) -> (r: Json)
    ensures
        r@ == texts_json(texts_view(texts@)),
{
    let mut out: Vec<Json> = Vec::new();
    let mut i: usize = 0;
    while i < texts.len()
        invariant
            i <= texts.len(),
            out.len() == i,
            forall|k: int| 0 <= k < i ==> out[k]@ == JsonView::String(texts[k]@),
        decreases texts.len() - i,
    {
        out.push(Json::string(texts[i].as_str()));
        i += 1;
    }
    assert(views(out@) =~= texts_json(texts_view(texts@))->Array_0);
    Json::Array(out)
}

pub fn encode_opt_texts(texts: &Option<Vec<String>>) -> (r: Json)
    ensures
        r@ == opt_texts_json(opt_texts_view(*texts)),
{
    match texts {
        Some(t) => encode_texts(t),
        None => Json::Null,
    }
}

pub fn encode_pairs(pairs: &Vec<(String, String)>) -> (r: Json)
    ensures
        r@ == pairs_json(pairs_view(pairs@)),
{
    let mut out: Vec<(String, Json)> = Vec::new();
    let mut i: usize = 0;
    while i < pairs.len()
        invariant
            i <= pairs.len(),
            out.len() == i,
            forall|k: int|
                0 <= k < i ==> out[k].0@ == pairs[k].0@ && out[k].1@ == JsonView::String(
                    pairs[k].1@,
                ),
        decreases pairs.len() - i,
    {
        out.push((pairs[i].0.clone(), Json::string(pairs[i].1.as_str())));
        i += 1;
    }
    assert(member_views(out@) =~= pairs_json(pairs_view(pairs@))->Object_0);
    Json::Object(out)
}

pub fn encode_opt_pairs(pairs: &Option<Vec<(String, String)>>) -> (r: Json)
    ensures
        r@ == opt_pairs_json(opt_pairs_view(*pairs)),
{
    match pairs {
        Some(p) => encode_pairs(p),
        None => Json::Null,
    }
}

pub fn encode_opt_shape<T: Shape>(value: &Option<T>) -> (r: Json)
    ensures
        r@ == opt_shape_json(*value),
{
    match value {
        Some(v) => v.to_json(),
        None => Json::Null,
    }
}

pub fn decode_text(found: Option<&Json>) -> (r: Option<String>)
    ensures
        opt_view(r) == text_member(found_view(found)),
{
    match found {
        Some(v) => match v.as_str() {
            Some(s) => Some(s.to_owned()),
            None => None,
        },
        None => None,
    }
}

pub fn decode_opt_text(found: Option<&Json>) -> (r: Option<Option<String>>)
    ensures
        match r {
            Some(t) => opt_text_member(found_view(found)) == Some(opt_view(t)),
            None => opt_text_member(found_view(found)) is None,
        },
{
    match found {
        None => Some(None),
        Some(v) => {
            if v.is_null() {
                Some(None)
            } else {
                match v.as_str() {
                    Some(s) => Some(Some(s.to_owned())),
                    None => None,
                }
            }
        },
    }
}

pub fn decode_time(found: Option<&Json>) -> (r: Option<Timestamp>)
    ensures
        opt_time_view(r) == time_member(found_view(found)),
{
    match found {
        Some(v) => match v.as_str() {
            Some(s) => Timestamp::parse(s),
            None => None,
        },
        None => None,
    }
}

pub fn decode_opt_time(found: Option<&Json>) -> (r: Option<Option<Timestamp>>)
    ensures
        match r {
            Some(t) => opt_time_member(found_view(found)) == Some(opt_time_view(t)),
            None => opt_time_member(found_view(found)) is None,
        },
{
    match found {
        None => Some(None),
        Some(v) => {
            if v.is_null() {
                Some(None)
            } else {
                match decode_time(found) {
                    Some(t) => Some(Some(t)),
                    None => None,
                }
            }
        },
    }
}

pub fn decode_u64(found: Option<&Json>) -> (r: Option<u64>)
    ensures
        r == u64_member(found_view(found)),
{
    match found {
        Some(v) => v.as_u64(),
        None => None,
    }
}

pub fn decode_bool(found: Option<&Json>) -> (r: Option<bool>)
    ensures
        r == bool_member(found_view(found)),
{
    match found {
        Some(v) => v.as_bool(),
        None => None,
    }
}

pub fn decode_object(found: Option<&Json>) -> (r: Option<Vec<(String, Json)>>)
    ensures
        opt_members_view(r) == object_member(found_view(found)),
{
    match found {
        Some(v) => match v.as_object() {
            Some(members) => Some(Json::duplicate_members(members)),
            None => None,
        },
        None => None,
    }
}

pub fn decode_opt_bool(found: Option<&Json>) -> (r: Option<Option<bool>>)
    ensures
        r == opt_bool_member(found_view(found)),
{
    match found {
        None => Some(None),
        Some(v) => {
            if v.is_null() {
                Some(None)
            } else {
                match v.as_bool() {
                    Some(b) => Some(Some(b)),
                    None => None,
                }
            }
        },
    }
}

pub fn decode_opt_object(found: Option<&Json>) -> (r: Option<Option<Vec<(String, Json)>>>)
    ensures
        match r {
            Some(m) => opt_object_member(found_view(found)) == Some(opt_members_view(m)),
            None => opt_object_member(found_view(found)) is None,
        },
{
    match found {
        None => Some(None),
        Some(v) => {
            if v.is_null() {
                Some(None)
            } else {
                match decode_object(found) {
                    Some(m) => Some(Some(m)),
                    None => None,
                }
            }
        },
    }
}

/// Any member that is present, taken as it is.
pub fn decode_any(found: Option<&Json>) -> (r: Option<Json>)
    ensures
        match r {
            Some(value) => found_view(found) == Some(value@),
            None => found_view(found) is None,
        },
{
    match found {
        Some(v) => Some(v.duplicate()),
        None => None,
    }
}

pub fn decode_texts(found: Option<&Json>) -> (r: Option<Vec<String>>)
    ensures
        opt_texts_view(r) == texts_member(found_view(found)),
{
    match found {
        None => None,
        Some(v) => match v.as_array() {
            None => None,
            Some(items) => {
                let mut out: Vec<String> = Vec::new();
                let mut i: usize = 0;
                while i < items.len()
                    invariant
                        i <= items.len(),
                        out.len() == i,
                        found_view(found) == Some(JsonView::Array(views(items@))),
                        forall|k: int| 0 <= k < i ==> (#[trigger] views(items@)[k]) is String,
                        forall|k: int| 0 <= k < i ==> out[k]@ == views(items@)[k]->String_0,
                    decreases items.len() - i,
                {
                    match items[i].as_str() {
                        Some(s) => {
                            out.push(s.to_owned());
                        },
                        None => {
                            assert(!(views(items@)[i as int] is String));
                            return None;
                        },
                    }
                    i += 1;
                }
                assert(texts_view(out@) =~= texts_member(found_view(found))->Some_0);
                Some(out)
            },
        },
    }
}

pub fn decode_opt_texts(found: Option<&Json>) -> (r: Option<Option<Vec<String>>>)
    ensures
        match r {
            Some(t) => opt_texts_member(found_view(found)) == Some(opt_texts_view(t)),
            None => opt_texts_member(found_view(found)) is None,
        },
{
    match found {
        None => Some(None),
        Some(v) => {
            if v.is_null() {
                Some(None)
            } else {
                match decode_texts(found) {
                    Some(t) => Some(Some(t)),
                    None => None,
                }
            }
        },
    }
}

pub fn decode_pairs(found: Option<&Json>) -> (r: Option<Vec<(String, String)>>)
    ensures
        opt_pairs_view(r) == pairs_member(found_view(found)),
{
    match found {
        None => None,
        Some(v) => match v.as_object() {
            None => None,
            Some(members) => {
                let mut out: Vec<(String, String)> = Vec::new();
                let mut i: usize = 0;
                while i < members.len()
                    invariant
                        i <= members.len(),
                        out.len() == i,
                        found_view(found) == Some(JsonView::Object(member_views(members@))),
                        forall|k: int|
                            0 <= k < i ==> (#[trigger] member_views(members@)[k]).1 is String,
                        forall|k: int|
                            0 <= k < i ==> out[k].0@ == member_views(members@)[k].0 && out[k].1@
                                == member_views(members@)[k].1->String_0,
                    decreases members.len() - i,
                {
                    match members[i].1.as_str() {
                        Some(s) => {
                            out.push((members[i].0.clone(), s.to_owned()));
                        },
                        None => {
                            assert(!(member_views(members@)[i as int].1 is String));
                            return None;
                        },
                    }
                    i += 1;
                }
                assert(pairs_view(out@) =~= pairs_member(found_view(found))->Some_0);
                Some(out)
            },
        },
    }
}

pub fn decode_opt_pairs(found: Option<&Json>) -> (r: Option<Option<Vec<(String, String)>>>)
    ensures
        match r {
            Some(p) => opt_pairs_member(found_view(found)) == Some(opt_pairs_view(p)),
            None => opt_pairs_member(found_view(found)) is None,
        },
{
    match found {
        None => Some(None),
        Some(v) => {
            if v.is_null() {
                Some(None)
            } else {
                match decode_pairs(found) {
                    Some(p) => Some(Some(p)),
                    None => None,
                }
            }
        },
    }
}

pub fn decode_opt_shape<T: Shape>(found: Option<&Json>) -> (r: Option<Option<T>>)
    ensures
        match r {
            Some(value) => opt_shape_accepts::<T>(found_view(found)) && opt_shape_json(value)
                == opt_shape_normal::<T>(found_view(found)),
            None => !opt_shape_accepts::<T>(found_view(found)),
        },
{
    match found {
        None => Some(None),
        Some(v) => {
            if v.is_null() {
                Some(None)
            } else {
                match T::from_json(v) {
                    Some(value) => Some(Some(value)),
                    None => None,
                }
            }
        },
    }
}

pub fn decode_shape<T: Shape>(found: Option<&Json>) -> (r: Option<T>)
    ensures
        match r {
            Some(value) => shape_member_accepts::<T>(found_view(found)) && value.json_view()
                == T::normal(found_view(found)->Some_0),
            None => !shape_member_accepts::<T>(found_view(found)),
        },
{
    match found {
        None => None,
        Some(v) => T::from_json(v),
    }
}

pub fn decode_list<T: Shape>(found: Option<&Json>) -> (r: Option<Vec<T>>)
    ensures
        match r {
            Some(items) => list_member_accepts::<T>(found_view(found)) && list_json(items@)
                == list_normal::<T>(found_view(found)->Some_0),
            None => !list_member_accepts::<T>(found_view(found)),
        },
{
    match found {
        None => None,
        Some(v) => list_from_json::<T>(v),
    }
}

} // verus!
