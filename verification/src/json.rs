//! The JSON trees that tunnel columns are stored as.
//!
//! A column is read with [`parse_json`] and written with [`render_json`]; every
//! rule in between works on [`Json`], whose objects are maps from text to tree.

use crate::text::{blank, same_text};
use vstd::prelude::*;

verus! {

/// A JSON number as `serde_json` keeps it.
#[verifier::external_type_specification]
#[verifier::external_body]
pub struct ExNumber(serde_json::Number);

/// A JSON value as `serde_json` keeps it.
#[verifier::external_type_specification]
#[verifier::external_body]
pub struct ExValue(serde_json::Value);

/// The `i64` that a JSON number denotes, when it is an integer in that range.
pub uninterp spec fn number_int(number: serde_json::Number) -> Option<i64>;

/// The `u64` that a JSON number denotes, when it is an integer in that range.
pub uninterp spec fn number_uint(number: serde_json::Number) -> Option<u64>;

/// The JSON number that denotes a `u64`.
pub uninterp spec fn uint_number(value: u64) -> serde_json::Number;

/// The tree that a `serde_json` value holds.
pub uninterp spec fn value_tree(value: serde_json::Value) -> JsonView;

/// What `serde_json` makes of a text: the tree of one JSON document, or the
/// words in which it turns the text away.
pub uninterp spec fn parsed_text(text: Seq<char>) -> Result<JsonView, Seq<char>>;

/// The tree that a text holds, or nothing where it is not one JSON document.
pub open spec fn json_of_text(text: Seq<char>) -> Option<JsonView> {
    match parsed_text(text) {
        Ok(tree) => Some(tree),
        Err(_) => None,
    }
}

/// The words in which a text that is not JSON is turned away.
pub open spec fn json_complaint(text: Seq<char>) -> Seq<char> {
    match parsed_text(text) {
        Ok(_) => Seq::empty(),
        Err(words) => words,
    }
}

/// The compact text that `serde_json` writes for a tree.
pub uninterp spec fn text_of_json(tree: JsonView) -> Seq<char>;

/// A JSON tree.
#[derive(Debug)]
pub enum Json {
    Null,
    Bool(bool),
    Number(serde_json::Number),
    Text(String),
    Array(Vec<Json>),
    Object(Vec<(String, Json)>),
}

/// What a JSON tree means: integers by value, objects as maps.
pub enum JsonView {
    Null,
    Bool(bool),
    Int(i64),
    Real(serde_json::Number),
    Text(Seq<char>),
    Array(Seq<JsonView>),
    Object(Map<Seq<char>, JsonView>),
}

/// The map that a list of entries spells, a later entry replacing an earlier one.
pub open spec fn entry_map(entries: Seq<(String, Json)>) -> Map<Seq<char>, JsonView>
    decreases entries,
{
    if entries.len() == 0 {
        Map::empty()
    } else {
        entry_map(entries.drop_last()).insert(
            entries[entries.len() - 1].0@,
            tree_view(entries[entries.len() - 1].1),
        )
    }
}

/// The meanings of a list of trees.
pub open spec fn tree_views(items: Seq<Json>) -> Seq<JsonView>
    decreases items,
{
    if items.len() == 0 {
        Seq::empty()
    } else {
        tree_views(items.drop_last()).push(tree_view(items[items.len() - 1]))
    }
}

/// The meaning of one tree.
pub open spec fn tree_view(tree: Json) -> JsonView
    decreases tree,
{
    match tree {
        Json::Null => JsonView::Null,
        Json::Bool(flag) => JsonView::Bool(flag),
        Json::Number(number) => match number_int(number) {
            Some(value) => JsonView::Int(value),
            None => JsonView::Real(number),
        },
        Json::Text(text) => JsonView::Text(text@),
        Json::Array(items) => JsonView::Array(tree_views(items@)),
        Json::Object(entries) => JsonView::Object(entry_map(entries@)),
    }
}

impl View for Json {
    type V = JsonView;

    open spec fn view(&self) -> JsonView {
        tree_view(*self)
    }
}

/// The meaning of an optional tree.
pub open spec fn tree_option(tree: Option<Json>) -> Option<JsonView> {
    match tree {
        Some(tree) => Some(tree@),
        None => None,
    }
}

impl JsonView {
    /// The value stored under `key`, when this is an object that has it.
    pub open spec fn get(self, key: Seq<char>) -> Option<JsonView> {
        match self {
            JsonView::Object(map) => if map.dom().contains(key) {
                Some(map[key])
            } else {
                None
            },
            _ => None,
        }
    }

    /// The integer this is.
    pub open spec fn int_value(self) -> Option<i64> {
        match self {
            JsonView::Int(value) => Some(value),
            _ => None,
        }
    }

    /// The natural number this is.
    pub open spec fn uint_value(self) -> Option<u64> {
        match self {
            JsonView::Int(value) => if value >= 0 {
                Some(value as u64)
            } else {
                None
            },
            JsonView::Real(number) => number_uint(number),
            _ => None,
        }
    }

    /// The items this lists.
    pub open spec fn items(self) -> Option<Seq<JsonView>> {
        match self {
            JsonView::Array(items) => Some(items),
            _ => None,
        }
    }

    /// This object, or the empty one when it is no object.
    pub open spec fn or_empty(self) -> JsonView {
        match self {
            JsonView::Object(_) => self,
            _ => object(),
        }
    }

    /// Whether this is a number.
    pub open spec fn is_number(self) -> bool {
        self is Int || self is Real
    }

    /// The text this is.
    pub open spec fn text_value(self) -> Option<Seq<char>> {
        match self {
            JsonView::Text(text) => Some(text),
            _ => None,
        }
    }

    /// The flag this is.
    pub open spec fn bool_value(self) -> Option<bool> {
        match self {
            JsonView::Bool(flag) => Some(flag),
            _ => None,
        }
    }

    /// The integer stored under `key`.
    pub open spec fn int_at(self, key: Seq<char>) -> Option<i64> {
        match self.get(key) {
            Some(value) => value.int_value(),
            None => None,
        }
    }

    /// The natural number stored under `key`.
    pub open spec fn uint_at(self, key: Seq<char>) -> Option<u64> {
        match self.get(key) {
            Some(value) => value.uint_value(),
            None => None,
        }
    }

    /// The text stored under `key`.
    pub open spec fn text_at(self, key: Seq<char>) -> Option<Seq<char>> {
        match self.get(key) {
            Some(value) => value.text_value(),
            None => None,
        }
    }

    /// The flag stored under `key`.
    pub open spec fn bool_at(self, key: Seq<char>) -> Option<bool> {
        match self.get(key) {
            Some(value) => value.bool_value(),
            None => None,
        }
    }

    /// This object with `key` set, or this value unchanged when it is no object.
    pub open spec fn with(self, key: Seq<char>, value: JsonView) -> JsonView {
        match self {
            JsonView::Object(map) => JsonView::Object(map.insert(key, value)),
            _ => self,
        }
    }

    /// This object without `key`, or this value unchanged when it is no object.
    pub open spec fn without(self, key: Seq<char>) -> JsonView {
        match self {
            JsonView::Object(map) => JsonView::Object(map.remove(key)),
            _ => self,
        }
    }

    /// Whether containers nest at most `levels` deep and every number is an
    /// integer in the `i64` range.
    pub open spec fn is_plain(self, levels: nat) -> bool
        decreases levels,
    {
        match self {
            JsonView::Real(_) => false,
            JsonView::Array(items) => levels > 0 && forall|i: int|
                0 <= i < items.len() ==> (#[trigger] items[i]).is_plain((levels - 1) as nat),
            JsonView::Object(map) => levels > 0 && forall|key: Seq<char>|
                map.dom().contains(key) ==> (#[trigger] map[key]).is_plain((levels - 1) as nat),
            _ => true,
        }
    }

    /// Whether containers nest at most `levels` deep.
    pub open spec fn nests(self, levels: nat) -> bool
        decreases levels,
    {
        match self {
            JsonView::Array(items) => levels > 0 && forall|i: int|
                0 <= i < items.len() ==> (#[trigger] items[i]).nests((levels - 1) as nat),
            JsonView::Object(map) => levels > 0 && forall|key: Seq<char>|
                map.dom().contains(key) ==> (#[trigger] map[key]).nests((levels - 1) as nat),
            _ => true,
        }
    }

    /// Whether two trees that nest at most `levels` deep are equal apart from
    /// their fractions. Where one has a number beyond the `i64` range, so has
    /// the other; natural numbers among those are equal, fractions need not be.
    pub open spec fn agrees(self, other: JsonView, levels: nat) -> bool
        decreases levels,
    {
        match (self, other) {
            (JsonView::Real(a), JsonView::Real(b)) => number_uint(a) == number_uint(b),
            (JsonView::Array(a), JsonView::Array(b)) => levels > 0 && a.len() == b.len()
                && forall|i: int|
                0 <= i < a.len() ==> (#[trigger] a[i]).agrees(b[i], (levels - 1) as nat),
            (JsonView::Object(a), JsonView::Object(b)) => levels > 0 && a.dom() == b.dom()
                && forall|key: Seq<char>|
                a.dom().contains(key) ==> (#[trigger] a[key]).agrees(b[key], (levels - 1) as nat),
            _ => self == other && !(self is Array) && !(self is Object),
        }
    }
}

/// Whether a text is no white space and reads as a tree equal to the given one
/// apart from fractions.
pub open spec fn reads_back(text: Seq<char>, tree: JsonView) -> bool {
    &&& !blank(text)
    &&& json_of_text(text) matches Some(back)
    &&& back.agrees(tree, 127)
}

/// Calls `serde_json::Number::as_i64`. The result is named [`number_int`].
#[verifier::external_body]
fn number_to_i64(number: &serde_json::Number) -> (value: Option<i64>)
    ensures
        value == number_int(*number),
{
    number.as_i64()
}

/// Calls `serde_json::Number::as_u64`. The result is named [`number_uint`]; a
/// number that is an `i64` is also a `u64` exactly when it is not negative.
#[verifier::external_body]
fn number_to_u64(number: &serde_json::Number) -> (value: Option<u64>)
    ensures
        value == number_uint(*number),
        number_int(*number) matches Some(i) ==> value == (if i >= 0 {
            Some(i as u64)
        } else {
            None
        }),
{
    number.as_u64()
}

/// Calls `serde_json::Number::from` on an `i64`, whose result reads back as
/// the same integer.
#[verifier::external_body]
fn number_from_i64(value: i64) -> (number: serde_json::Number)
    ensures
        number_int(number) == Some(value),
{
    serde_json::Number::from(value)
}

/// Calls `serde_json::Number::from` on a `u64`. The result is named
/// [`uint_number`]; it reads back as the same number, and as an `i64` exactly
/// when it is in that range.
#[verifier::external_body]
fn number_from_u64(value: u64) -> (number: serde_json::Number)
    ensures
        number == uint_number(value),
        number_uint(number) == Some(value),
        number_int(number) == (if value <= i64::MAX {
            Some(value as i64)
        } else {
            None
        }),
{
    serde_json::Number::from(value)
}

/// Calls `serde_json::Number::clone`, which copies the number.
#[verifier::external_body]
fn number_copy(number: &serde_json::Number) -> (copy: serde_json::Number)
    ensures
        copy == *number,
{
    number.clone()
}

/// Calls `serde_json::from_str` for a `serde_json::Value`. The tree of the
/// result, or the text that its error displays, is named [`parsed_text`]. White
/// space alone is an error, and so is a document that nests more than 127
/// containers deep.
#[verifier::external_body]
fn value_from_text(text: &str) -> (value: Result<serde_json::Value, String>)
    ensures
        match value {
            Ok(v) => parsed_text(text@) == Ok::<JsonView, Seq<char>>(value_tree(v)),
            Err(words) => parsed_text(text@) == Err::<JsonView, Seq<char>>(words@),
        },
        blank(text@) ==> value is Err,
        value matches Ok(v) ==> value_tree(v).nests(127),
{
    match serde_json::from_str::<serde_json::Value>(text) {
        Ok(value) => Ok(value),
        Err(error) => Err(error.to_string()),
    }
}

/// Calls `serde_json::Value::to_string`, the compact form. The text is named
/// [`text_of_json`]. A tree of integers, texts, flags and nulls that nests at
/// most 127 containers deep reads back from its own text. One that has fractions
/// too reads back as the same tree apart from those, which are read to the
/// precision of the reader; a natural number beyond the `i64` range is read
/// exactly.
#[verifier::external_body]
fn value_to_text(value: &serde_json::Value) -> (text: String)
    ensures
        text@ == text_of_json(value_tree(*value)),
        value_tree(*value).is_plain(127) ==> json_of_text(text@) == Some(value_tree(*value)),
        value_tree(*value).nests(127) ==> reads_back(text@, value_tree(*value)),
{
    value.to_string()
}

/// Takes a `serde_json::Value` apart, variant by variant, into a [`Json`] of
/// the same tree.
#[verifier::external_body]
fn tree_from_value(value: serde_json::Value) -> (tree: Json)
    ensures
        tree@ == value_tree(value),
{
    match value {
        serde_json::Value::Null => Json::Null,
        serde_json::Value::Bool(flag) => Json::Bool(flag),
        serde_json::Value::Number(number) => Json::Number(number),
        serde_json::Value::String(text) => Json::Text(text),
        serde_json::Value::Array(items) => {
            Json::Array(items.into_iter().map(tree_from_value).collect())
        },
        serde_json::Value::Object(map) => {
            Json::Object(map.into_iter().map(|e| (e.0, tree_from_value(e.1))).collect())
        },
    }
}

/// Puts a [`Json`] together as a `serde_json::Value` of the same tree, through
/// `serde_json::Map::insert` for the entries of an object in their order.
#[verifier::external_body]
fn value_from_tree(tree: Json) -> (value: serde_json::Value)
    ensures
        value_tree(value) == tree@,
{
    match tree {
        Json::Null => serde_json::Value::Null,
        Json::Bool(flag) => serde_json::Value::Bool(flag),
        Json::Number(number) => serde_json::Value::Number(number),
        Json::Text(text) => serde_json::Value::String(text),
        Json::Array(items) => serde_json::Value::Array(items.into_iter().map(value_from_tree).collect()),
        Json::Object(entries) => serde_json::Value::Object(
            entries.into_iter().fold(serde_json::Map::new(), |mut map, e| {
                map.insert(e.0, value_from_tree(e.1));
                map
            }),
        ),
    }
}

/// Reads one JSON document.
pub fn parse_json(text: &str) -> (tree: Option<Json>)
    ensures
        tree_option(tree) == json_of_text(text@),
        blank(text@) ==> tree is None,
        tree matches Some(t) ==> t@.nests(127),
{
    match value_from_text(text) {
        Ok(value) => Some(tree_from_value(value)),
        Err(_) => None,
    }
}

/// Reads one JSON document, or tells in which words it is turned away.
pub fn read_json(text: &str) -> (read: Result<Json, String>)
    ensures
        match read {
            Ok(tree) => json_of_text(text@) == Some(tree@) && tree@.nests(127),
            Err(words) => json_of_text(text@) is None && words@ == json_complaint(text@),
        },
{
    match value_from_text(text) {
        Ok(value) => Ok(tree_from_value(value)),
        Err(words) => Err(words),
    }
}

/// Writes a tree as compact JSON.
pub fn render_json(tree: Json) -> (text: String)
    ensures
        text@ == text_of_json(tree@),
        tree@.is_plain(127) ==> json_of_text(text@) == Some(tree@),
        tree@.nests(127) ==> reads_back(text@, tree@),
{
    value_to_text(&value_from_tree(tree))
}

/// A list of trees means, place by place, what its trees mean.
pub proof fn lemma_views_index(items: Seq<Json>)
    ensures
        tree_views(items).len() == items.len(),
        forall|i: int| 0 <= i < items.len() ==> #[trigger] tree_views(items)[i] == tree_view(items[i]),
    decreases items.len(),
{
    if items.len() > 0 {
        lemma_views_index(items.drop_last());
    }
}

/// Two lists of trees mean the same when they mean the same place by place.
proof fn lemma_views_equal(a: Seq<Json>, b: Seq<Json>)
    requires
        a.len() == b.len(),
        forall|i: int| 0 <= i < a.len() ==> tree_view(#[trigger] a[i]) == tree_view(b[i]),
    ensures
        tree_views(a) == tree_views(b),
{
    lemma_views_index(a);
    lemma_views_index(b);
    assert(tree_views(a) =~= tree_views(b));
}

/// A key is in an entry map exactly when an entry has it.
pub proof fn lemma_entries_absent(entries: Seq<(String, Json)>, key: Seq<char>)
    ensures
        entry_map(entries).dom().contains(key) <==> exists|i: int|
            0 <= i < entries.len() && #[trigger] entries[i].0@ == key,
    decreases entries.len(),
{
    if entries.len() > 0 {
        let rest = entries.drop_last();
        lemma_entries_absent(rest, key);
        if entry_map(rest).dom().contains(key) {
            let i = choose|i: int| 0 <= i < rest.len() && #[trigger] rest[i].0@ == key;
            assert(entries[i].0@ == key);
        }
        if exists|i: int| 0 <= i < entries.len() && #[trigger] entries[i].0@ == key {
            let i = choose|i: int| 0 <= i < entries.len() && #[trigger] entries[i].0@ == key;
            if i < rest.len() {
                assert(rest[i].0@ == key);
            }
        }
    }
}

proof fn lemma_entries_last(entries: Seq<(String, Json)>, at: int)
    requires
        0 <= at < entries.len(),
        forall|i: int| at < i < entries.len() ==> (#[trigger] entries[i]).0@ != entries[at].0@,
    ensures
        entry_map(entries).dom().contains(entries[at].0@),
        entry_map(entries)[entries[at].0@] == tree_view(entries[at].1),
    decreases entries.len(),
{
    if at < entries.len() - 1 {
        let rest = entries.drop_last();
        assert(rest[at] == entries[at]);
        lemma_entries_last(rest, at);
    }
}

proof fn lemma_entries_update(
    entries: Seq<(String, Json)>,
    updated: Seq<(String, Json)>,
    at: int,
)
    requires
        0 <= at < entries.len(),
        updated.len() == entries.len(),
        updated[at].0@ == entries[at].0@,
        forall|i: int| 0 <= i < entries.len() && i != at ==> #[trigger] updated[i] == entries[i],
        forall|i: int| at < i < entries.len() ==> (#[trigger] entries[i]).0@ != entries[at].0@,
    ensures
        entry_map(updated) == entry_map(entries).insert(
            entries[at].0@,
            tree_view(updated[at].1),
        ),
    decreases entries.len(),
{
    let last = entries.len() - 1;
    if at == last {
        assert(updated.drop_last() =~= entries.drop_last());
        assert(entry_map(updated) =~= entry_map(entries).insert(
            entries[at].0@,
            tree_view(updated[at].1),
        ));
    } else {
        let rest = entries.drop_last();
        let rest_updated = updated.drop_last();
        assert(rest[at] == entries[at]);
        assert forall|i: int| 0 <= i < rest.len() && i != at implies #[trigger] rest_updated[i]
            == rest[i] by {
            assert(updated[i] == entries[i]);
        }
        assert forall|i: int| at < i < rest.len() implies (#[trigger] rest[i]).0@
            != rest[at].0@ by {
            assert(entries[i].0@ != entries[at].0@);
        }
        lemma_entries_update(rest, rest_updated, at);
        assert(updated[last] == entries[last]);
        assert(entries[last].0@ != entries[at].0@);
        assert(entry_map(updated) =~= entry_map(entries).insert(
            entries[at].0@,
            tree_view(updated[at].1),
        ));
    }
}

impl Clone for Json {
    fn clone(&self) -> (copy: Json)
        ensures
            copy@ == self@,
        decreases *self,
    {
        match self {
            Json::Null => Json::Null,
            Json::Bool(flag) => Json::Bool(*flag),
            Json::Number(number) => Json::Number(number_copy(number)),
            Json::Text(text) => Json::Text(text.clone()),
            Json::Array(items) => {
                let mut copies: Vec<Json> = Vec::new();
                let mut i: usize = 0;
                while i < items.len()
                    invariant
                        i <= items.len(),
                        copies.len() == i,
                        *self == Json::Array(*items),
                        forall|j: int|
                            0 <= j < i ==> tree_view(#[trigger] copies[j]) == tree_view(items[j]),
                    decreases items.len() - i,
                {
                    assert(decreases_to!(*self => self->Array_0));
                    assert(decreases_to!(items@ => items@[i as int]));
                    let copy = items[i].clone();
                    copies.push(copy);
                    i = i + 1;
                }
                proof {
                    lemma_views_equal(copies@, items@);
                }
                Json::Array(copies)
            },
            Json::Object(entries) => {
                let mut copies: Vec<(String, Json)> = Vec::new();
                let mut i: usize = 0;
                while i < entries.len()
                    invariant
                        i <= entries.len(),
                        copies.len() == i,
                        *self == Json::Object(*entries),
                        entry_map(copies@) == entry_map(entries@.subrange(0, i as int)),
                    decreases entries.len() - i,
                {
                    assert(decreases_to!(*self => self->Object_0));
                    assert(decreases_to!(entries@ => entries@[i as int]));
                    let ghost copied = copies@;
                    let value = entries[i].1.clone();
                    copies.push((entries[i].0.clone(), value));
                    proof {
                        let next = entries@.subrange(0, i + 1);
                        assert(next.drop_last() =~= entries@.subrange(0, i as int));
                        assert(copies@.drop_last() =~= copied);
                    }
                    i = i + 1;
                }
                assert(entries@.subrange(0, i as int) =~= entries@);
                Json::Object(copies)
            },
        }
    }
}

/// A natural number as a tree.
pub open spec fn uint_tree(value: u64) -> JsonView {
    if value <= i64::MAX {
        JsonView::Int(value as i64)
    } else {
        JsonView::Real(uint_number(value))
    }
}

impl Json {
    /// The natural number `value` as a tree.
    pub fn from_u64(value: u64) -> (tree: Json)
        ensures
            tree@ == uint_tree(value),
            tree@.uint_value() == Some(value),
    {
        Json::Number(number_from_u64(value))
    }

    /// The integer `value` as a tree.
    pub fn from_i64(value: i64) -> (tree: Json)
        ensures
            tree@ == JsonView::Int(value),
    {
        Json::Number(number_from_i64(value))
    }

    /// A text as a tree.
    pub fn from_text(text: &str) -> (tree: Json)
        ensures
            tree@ == JsonView::Text(text@),
    {
        Json::Text(text.to_owned())
    }

    /// An optional integer as a tree, absent as null.
    pub fn from_optional_i64(value: Option<i64>) -> (tree: Json)
        ensures
            tree@ == optional_int(value),
    {
        match value {
            Some(value) => Json::from_i64(value),
            None => Json::Null,
        }
    }

    /// An optional text as a tree, absent as null.
    pub fn from_optional_text(text: Option<&str>) -> (tree: Json)
        ensures
            tree@ == optional_text(crate::text::str_view(text)),
    {
        match text {
            Some(text) => Json::from_text(text),
            None => Json::Null,
        }
    }

    /// A list of texts as a tree.
    pub fn from_texts(list: &Vec<String>) -> (tree: Json)
        ensures
            tree@ == text_array(crate::text::texts(list@)),
    {
        let mut items: Vec<Json> = Vec::new();
        let mut i: usize = 0;
        while i < list.len()
            invariant
                i <= list.len(),
                items.len() == i,
                forall|j: int|
                    0 <= j < i ==> tree_view(#[trigger] items@[j]) == JsonView::Text(list@[j]@),
            decreases list.len() - i,
        {
            items.push(Json::Text(list[i].clone()));
            i = i + 1;
        }
        proof {
            lemma_views_index(items@);
            let wanted = crate::text::texts(list@).map_values(|t: Seq<char>| JsonView::Text(t));
            assert forall|j: int| 0 <= j < wanted.len() implies tree_views(items@)[j]
                == wanted[j] by {
                assert(tree_views(items@)[j] == tree_view(items@[j]));
            }
            assert(tree_views(items@) =~= wanted);
        }
        Json::Array(items)
    }

    /// The object without entries.
    pub fn empty_object() -> (tree: Json)
        ensures
            tree@ == JsonView::Object(Map::empty()),
    {
        Json::Object(Vec::new())
    }

    /// Whether this is an object.
    pub fn is_object(&self) -> (answer: bool)
        ensures
            answer == (self@ is Object),
    {
        matches!(self, Json::Object(_))
    }

    /// The value stored under `key`, when this is an object that has it.
    pub fn get(&self, key: &str) -> (value: Option<&Json>)
        ensures
            match value {
                Some(v) => self@.get(key@) == Some(v@),
                None => self@.get(key@) is None,
            },
    {
        match self {
            Json::Object(entries) => {
                let mut i: usize = entries.len();
                while i > 0
                    invariant
                        i <= entries.len(),
                        self@ == JsonView::Object(entry_map(entries@)),
                        forall|j: int|
                            i <= j < entries.len() ==> (#[trigger] entries@[j]).0@ != key@,
                    decreases i,
                {
                    i = i - 1;
                    if same_text(entries[i].0.as_str(), key) {
                        proof {
                            lemma_entries_last(entries@, i as int);
                        }
                        return Some(&entries[i].1);
                    }
                }
                proof {
                    lemma_entries_absent(entries@, key@);
                }
                None
            },
            _ => None,
        }
    }

    /// The integer this is.
    pub fn as_i64(&self) -> (value: Option<i64>)
        ensures
            value == self@.int_value(),
    {
        match self {
            Json::Number(number) => number_to_i64(number),
            _ => None,
        }
    }

    /// The natural number this is.
    pub fn as_u64(&self) -> (value: Option<u64>)
        ensures
            value == self@.uint_value(),
    {
        match self {
            Json::Number(number) => number_to_u64(number),
            _ => None,
        }
    }

    /// The items this lists.
    pub fn as_items(&self) -> (items: Option<&Vec<Json>>)
        ensures
            match items {
                Some(items) => self@.items() == Some(tree_views(items@)),
                None => self@.items() is None,
            },
    {
        match self {
            Json::Array(items) => Some(items),
            _ => None,
        }
    }

    /// This object, or the empty one when it is no object.
    pub fn object_or_empty(self) -> (tree: Json)
        ensures
            tree@ == self@.or_empty(),
    {
        match self {
            Json::Object(entries) => Json::Object(entries),
            _ => Json::empty_object(),
        }
    }

    /// Whether this is the object without entries.
    pub fn is_empty_object(&self) -> (answer: bool)
        ensures
            answer == (self@ == object()),
    {
        match self {
            Json::Object(entries) => {
                proof {
                    if entries.len() > 0 {
                        let last = entries@[entries.len() - 1].0@;
                        assert(entry_map(entries@).dom().contains(last));
                        assert(!Map::<Seq<char>, JsonView>::empty().dom().contains(last));
                    }
                }
                entries.len() == 0
            },
            _ => false,
        }
    }

    /// Whether this is a number.
    pub fn is_number(&self) -> (answer: bool)
        ensures
            answer == self@.is_number(),
    {
        matches!(self, Json::Number(_))
    }

    /// A list of integers as a tree.
    pub fn from_ints(list: &Vec<i64>) -> (tree: Json)
        ensures
            tree@ == int_array(list@),
    {
        let mut items: Vec<Json> = Vec::new();
        let mut i: usize = 0;
        while i < list.len()
            invariant
                i <= list.len(),
                items.len() == i,
                forall|j: int|
                    0 <= j < i ==> tree_view(#[trigger] items@[j]) == JsonView::Int(list@[j]),
            decreases list.len() - i,
        {
            items.push(Json::from_i64(list[i]));
            i = i + 1;
        }
        proof {
            lemma_views_index(items@);
            let wanted = list@.map_values(|n: i64| JsonView::Int(n));
            assert forall|j: int| 0 <= j < wanted.len() implies tree_views(items@)[j]
                == wanted[j] by {
                assert(tree_views(items@)[j] == tree_view(items@[j]));
            }
            assert(tree_views(items@) =~= wanted);
        }
        Json::Array(items)
    }

    /// The text this is.
    pub fn as_text(&self) -> (text: Option<&str>)
        ensures
            crate::text::str_view(text) == self@.text_value(),
    {
        match self {
            Json::Text(text) => Some(text.as_str()),
            _ => None,
        }
    }

    /// The flag this is.
    pub fn as_bool(&self) -> (flag: Option<bool>)
        ensures
            flag == self@.bool_value(),
    {
        match self {
            Json::Bool(flag) => Some(*flag),
            _ => None,
        }
    }

    /// The integer stored under `key`.
    pub fn int_at(&self, key: &str) -> (value: Option<i64>)
        ensures
            value == self@.int_at(key@),
    {
        match self.get(key) {
            Some(value) => value.as_i64(),
            None => None,
        }
    }

    /// The natural number stored under `key`.
    pub fn uint_at(&self, key: &str) -> (value: Option<u64>)
        ensures
            value == self@.uint_at(key@),
    {
        match self.get(key) {
            Some(value) => value.as_u64(),
            None => None,
        }
    }

    /// The text stored under `key`.
    pub fn text_at(&self, key: &str) -> (text: Option<&str>)
        ensures
            crate::text::str_view(text) == self@.text_at(key@),
    {
        match self.get(key) {
            Some(value) => value.as_text(),
            None => None,
        }
    }

    /// The flag stored under `key`.
    pub fn bool_at(&self, key: &str) -> (flag: Option<bool>)
        ensures
            flag == self@.bool_at(key@),
    {
        match self.get(key) {
            Some(value) => value.as_bool(),
            None => None,
        }
    }

    /// Sets `key` in an object; any other tree stays as it is.
    pub fn set(&mut self, key: &str, value: Json)
        ensures
            final(self)@ == old(self)@.with(key@, value@),
    {
        match self {
            Json::Object(entries) => {
                set_entry(entries, key, value);
            },
            _ => {},
        }
    }

    /// Removes `key` from an object; any other tree stays as it is.
    pub fn unset(&mut self, key: &str)
        ensures
            final(self)@ == old(self)@.without(key@),
    {
        match self {
            Json::Object(entries) => {
                unset_entry(entries, key);
            },
            _ => {},
        }
    }
}

fn set_entry(entries: &mut Vec<(String, Json)>, key: &str, value: Json)
    ensures
        entry_map(final(entries)@) == entry_map(old(entries)@).insert(key@, value@),
{
    let ghost before = entries@;
    let mut i: usize = entries.len();
    while i > 0
        invariant
            i <= entries.len(),
            entries@ == before,
            before == old(entries)@,
            forall|j: int| i <= j < entries.len() ==> (#[trigger] entries@[j]).0@ != key@,
        decreases i,
    {
        i = i - 1;
        if same_text(entries[i].0.as_str(), key) {
            entries.set(i, (key.to_owned(), value));
            proof {
                lemma_entries_update(before, entries@, i as int);
            }
            return;
        }
    }
    entries.push((key.to_owned(), value));
    assert(entries@.drop_last() =~= before);
}

fn unset_entry(entries: &mut Vec<(String, Json)>, key: &str)
    ensures
        entry_map(final(entries)@) == entry_map(old(entries)@).remove(key@),
{
    let ghost before = entries@;
    let mut kept: Vec<(String, Json)> = Vec::new();
    let mut taken: Vec<(String, Json)> = Vec::new();
    std::mem::swap(&mut taken, entries);
    let mut i: usize = 0;
    while i < taken.len()
        invariant
            i <= taken.len(),
            taken@ == before,
            entry_map(kept@) == entry_map(before.subrange(0, i as int)).remove(key@),
        decreases taken.len() - i,
    {
        proof {
            let next = before.subrange(0, i + 1);
            assert(next.drop_last() =~= before.subrange(0, i as int));
            assert(next.last() == before[i as int]);
        }
        if !same_text(taken[i].0.as_str(), key) {
            let value = taken[i].1.clone();
            let ghost kept_before = kept@;
            kept.push((taken[i].0.clone(), value));
            proof {
                assert(kept@.drop_last() =~= kept_before);
                assert(entry_map(kept@) =~= entry_map(before.subrange(0, i + 1)).remove(key@));
            }
        } else {
            assert(entry_map(kept@) =~= entry_map(before.subrange(0, i + 1)).remove(key@));
        }
        i = i + 1;
    }
    assert(before.subrange(0, i as int) =~= before);
    std::mem::swap(&mut kept, entries);
}

/// Setting a plain value that nests one level less keeps a tree plain.
pub proof fn lemma_with_is_plain(tree: JsonView, key: Seq<char>, value: JsonView, levels: nat)
    requires
        tree.is_plain(levels),
        levels > 0,
        value.is_plain((levels - 1) as nat),
    ensures
        tree.with(key, value).is_plain(levels),
{
    match tree {
        JsonView::Object(map) => {
            let next = map.insert(key, value);
            assert forall|k: Seq<char>| next.dom().contains(k) implies (
            #[trigger] next[k]).is_plain((levels - 1) as nat) by {
                if k != key {
                    assert(map.dom().contains(k));
                    assert(next[k] == map[k]);
                }
            }
        },
        _ => {},
    }
}

/// Setting plain values, one level down, keeps every tree plain.
pub proof fn lemma_withs_are_plain(levels: nat)
    requires
        levels > 0,
    ensures
        object().is_plain(levels),
        forall|tree: JsonView, key: Seq<char>, value: JsonView|
            #![trigger tree.with(key, value)]
            tree.is_plain(levels) && value.is_plain((levels - 1) as nat) ==> tree.with(
                key,
                value,
            ).is_plain(levels),
{
    assert forall|tree: JsonView, key: Seq<char>, value: JsonView|
        #![trigger tree.with(key, value)]
        tree.is_plain(levels) && value.is_plain((levels - 1) as nat) implies tree.with(
        key,
        value,
    ).is_plain(levels) by {
        lemma_with_is_plain(tree, key, value, levels);
    }
}

/// Setting a value that nests one level less keeps a tree's depth.
pub proof fn lemma_with_nests(tree: JsonView, key: Seq<char>, value: JsonView, levels: nat)
    requires
        tree.nests(levels),
        levels > 0,
        value.nests((levels - 1) as nat),
    ensures
        tree.with(key, value).nests(levels),
{
    match tree {
        JsonView::Object(map) => {
            let next = map.insert(key, value);
            assert forall|k: Seq<char>| next.dom().contains(k) implies (
            #[trigger] next[k]).nests((levels - 1) as nat) by {
                if k != key {
                    assert(map.dom().contains(k));
                    assert(next[k] == map[k]);
                }
            }
        },
        _ => {},
    }
}

/// Setting values one level down, and removing them, keeps the depth of every
/// tree; what stands in a tree nests one level less.
pub proof fn lemma_edits_nest(levels: nat)
    requires
        levels > 0,
    ensures
        object().nests(levels),
        forall|tree: JsonView, key: Seq<char>, value: JsonView|
            #![trigger tree.with(key, value)]
            tree.nests(levels) && value.nests((levels - 1) as nat) ==> tree.with(key, value).nests(
                levels,
            ),
        forall|tree: JsonView, key: Seq<char>|
            #![trigger tree.without(key)]
            tree.nests(levels) ==> tree.without(key).nests(levels),
        forall|tree: JsonView, key: Seq<char>|
            #![trigger tree.get(key)]
            tree.nests(levels) && tree.get(key) is Some ==> tree.get(key)->0.nests(
                (levels - 1) as nat,
            ),
{
    assert forall|tree: JsonView, key: Seq<char>, value: JsonView|
        #![trigger tree.with(key, value)]
        tree.nests(levels) && value.nests((levels - 1) as nat) implies tree.with(key, value).nests(
        levels,
    ) by {
        lemma_with_nests(tree, key, value, levels);
    }
    assert forall|tree: JsonView, key: Seq<char>|
        #![trigger tree.without(key)]
        tree.nests(levels) implies tree.without(key).nests(levels) by {
        match tree {
            JsonView::Object(map) => {
                let next = map.remove(key);
                assert forall|k: Seq<char>| next.dom().contains(k) implies (
                #[trigger] next[k]).nests((levels - 1) as nat) by {
                    assert(map.dom().contains(k));
                    assert(next[k] == map[k]);
                }
            },
            _ => {},
        }
    }
    assert forall|tree: JsonView, key: Seq<char>|
        #![trigger tree.get(key)]
        tree.nests(levels) && tree.get(key) is Some implies tree.get(key)->0.nests(
        (levels - 1) as nat,
    ) by {
        assert(tree->Object_0[key].nests((levels - 1) as nat));
    }
}

/// A plain tree nests as deep as it is plain, and at any greater depth.
pub proof fn lemma_plain_nests(tree: JsonView, levels: nat, more: nat)
    requires
        tree.is_plain(levels),
        levels <= more,
    ensures
        tree.nests(more),
        tree.is_plain(more),
    decreases levels,
{
    match tree {
        JsonView::Array(items) => {
            assert forall|i: int| 0 <= i < items.len() implies (#[trigger] items[i]).nests(
                (more - 1) as nat,
            ) && items[i].is_plain((more - 1) as nat) by {
                lemma_plain_nests(items[i], (levels - 1) as nat, (more - 1) as nat);
            }
        },
        JsonView::Object(map) => {
            assert forall|key: Seq<char>| map.dom().contains(key) implies (#[trigger] map[key]).nests(
                (more - 1) as nat,
            ) && map[key].is_plain((more - 1) as nat) by {
                lemma_plain_nests(map[key], (levels - 1) as nat, (more - 1) as nat);
            }
        },
        _ => {},
    }
}

/// A tree that agrees with a plain one is that tree.
pub proof fn lemma_agrees_plain(tree: JsonView, plain: JsonView, levels: nat)
    requires
        tree.agrees(plain, levels),
        plain.is_plain(levels),
    ensures
        tree == plain,
    decreases levels,
{
    match (tree, plain) {
        (JsonView::Array(a), JsonView::Array(b)) => {
            assert forall|i: int| 0 <= i < a.len() implies #[trigger] a[i] == b[i] by {
                assert(b[i].is_plain((levels - 1) as nat));
                lemma_agrees_plain(a[i], b[i], (levels - 1) as nat);
            }
            assert(a =~= b);
        },
        (JsonView::Object(a), JsonView::Object(b)) => {
            assert forall|key: Seq<char>| a.dom().contains(key) implies #[trigger] a[key]
                == b[key] by {
                assert(b[key].is_plain((levels - 1) as nat));
                lemma_agrees_plain(a[key], b[key], (levels - 1) as nat);
            }
            assert(a =~= b);
        },
        _ => {},
    }
}

/// Trees that agree are the same text, flag or natural number, if any.
pub proof fn lemma_agrees_values(a: JsonView, b: JsonView, levels: nat)
    requires
        a.agrees(b, levels),
    ensures
        a.text_value() == b.text_value(),
        a.uint_value() == b.uint_value(),
{
}

/// Trees that agree have the same keys, and agreeing values under them.
pub proof fn lemma_agrees_at(a: JsonView, b: JsonView, key: Seq<char>, levels: nat)
    requires
        a.agrees(b, levels),
    ensures
        a is Object == b is Object,
        a.get(key) is Some == b.get(key) is Some,
        a.get(key) is Some ==> levels > 0 && a.get(key)->0.agrees(
            b.get(key)->0,
            (levels - 1) as nat,
        ),
        a.int_at(key) == b.int_at(key),
        a.uint_at(key) == b.uint_at(key),
        a.text_at(key) == b.text_at(key),
        a.bool_at(key) == b.bool_at(key),
{
    match (a, b) {
        (JsonView::Object(x), JsonView::Object(y)) => {
            if x.dom().contains(key) {
                assert(x[key].agrees(y[key], (levels - 1) as nat));
            }
        },
        _ => {},
    }
}

/// An optional integer, absent as null.
pub open spec fn optional_int(value: Option<i64>) -> JsonView {
    match value {
        Some(value) => JsonView::Int(value),
        None => JsonView::Null,
    }
}

/// A list of texts.
pub open spec fn text_array(list: Seq<Seq<char>>) -> JsonView {
    JsonView::Array(list.map_values(|t: Seq<char>| JsonView::Text(t)))
}

/// The object without entries, to which [`JsonView::with`] adds.
pub open spec fn object() -> JsonView {
    JsonView::Object(Map::empty())
}

/// A list of integers.
pub open spec fn int_array(list: Seq<i64>) -> JsonView {
    JsonView::Array(list.map_values(|n: i64| JsonView::Int(n)))
}

/// The integers among a list of trees, in their order.
pub open spec fn ints_of(items: Seq<JsonView>) -> Seq<i64>
    decreases items.len(),
{
    if items.len() == 0 {
        Seq::empty()
    } else {
        match items.last().int_value() {
            Some(value) => ints_of(items.drop_last()).push(value),
            None => ints_of(items.drop_last()),
        }
    }
}

/// Collects the integers among a list of trees.
pub fn collect_ints(items: &Vec<Json>) -> (list: Vec<i64>)
    ensures
        list@ == ints_of(tree_views(items@)),
{
    let ghost views = tree_views(items@);
    proof {
        lemma_views_index(items@);
    }
    let mut list: Vec<i64> = Vec::new();
    let mut i: usize = 0;
    while i < items.len()
        invariant
            i <= items.len(),
            views.len() == items.len(),
            forall|j: int| 0 <= j < items.len() ==> #[trigger] views[j] == tree_view(items@[j]),
            list@ == ints_of(views.subrange(0, i as int)),
        decreases items.len() - i,
    {
        proof {
            let next = views.subrange(0, i + 1);
            assert(next.drop_last() =~= views.subrange(0, i as int));
            assert(next.last() == views[i as int]);
        }
        match items[i].as_i64() {
            Some(value) => {
                list.push(value);
            },
            None => {},
        }
        i = i + 1;
    }
    assert(views.subrange(0, i as int) =~= views);
    list
}

/// A list of integers reads back from its tree.
pub proof fn lemma_ints_read_back(list: Seq<i64>)
    ensures
        ints_of(int_array(list)->Array_0) == list,
    decreases list.len(),
{
    let items = int_array(list)->Array_0;
    if list.len() > 0 {
        let rest = list.drop_last();
        lemma_ints_read_back(rest);
        assert(items.drop_last() =~= int_array(rest)->Array_0);
        assert(items.last() == JsonView::Int(list.last()));
        assert(list =~= rest.push(list.last()));
    } else {
        assert(list =~= Seq::empty());
    }
}

/// The object that a column holds, empty where it holds none.
pub open spec fn column_object(column: Option<Seq<char>>) -> JsonView {
    match column {
        Some(text) => match json_of_text(text) {
            Some(tree) => tree.or_empty(),
            None => object(),
        },
        None => object(),
    }
}

/// Reads the object that a column holds, empty where it holds none.
pub fn read_object(column: Option<&str>) -> (tree: Json)
    ensures
        tree@ == column_object(crate::text::str_view(column)),
        tree@ is Object,
        tree@.nests(127),
        column matches Some(text) ==> blank(text@) ==> tree@ == object(),
{
    match column {
        Some(text) => match parse_json(text) {
            Some(tree) => tree.object_or_empty(),
            None => Json::empty_object(),
        },
        None => Json::empty_object(),
    }
}

/// An optional text, absent as null.
pub open spec fn optional_text(text: Option<Seq<char>>) -> JsonView {
    match text {
        Some(text) => JsonView::Text(text),
        None => JsonView::Null,
    }
}

} // verus!
