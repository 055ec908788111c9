//! JSON values as plain data, with `serde_json` doing the reading and writing
//! of text.

use vstd::prelude::*;
use crate::text::str_eq;

verus! {

/// `serde_json::Number`, carried as it is.
#[verifier::external_type_specification]
#[verifier::external_body]
pub struct ExJsonNumber(serde_json::Number);

/// `serde_json::Value`, on its way from a text or to one.
#[verifier::external_type_specification]
#[verifier::external_body]
pub struct ExJsonValue(serde_json::Value);

/// A JSON value. Numbers are carried as `serde_json` made them; an object is
/// the list of its members, and a key is looked up from the front.
#[derive(Debug, PartialEq, Eq)]
pub enum Json {
    Null,
    Bool(bool),
    Number(serde_json::Number),
    Str(String),
    Array(Vec<Json>),
    Object(Vec<(String, Json)>),
}

/// What a JSON number holds: a whole number that is not negative, a
/// negative whole number, or a number with a fraction or an exponent. Of
/// the last it gives the bits of its double-precision form, and that number
/// cut to a 64-bit integer as a cast does it (towards zero, to the nearest
/// bound where it lies outside).
pub enum NumV {
    Pos(u64),
    Neg(i64),
    Real { bits: u64, whole: i64 },
}

impl NumV {
    /// The number that stands for an `i64`.
    pub open spec fn of(i: i64) -> NumV {
        if i < 0 {
            NumV::Neg(i)
        } else {
            NumV::Pos(i as u64)
        }
    }

    /// The number as an `i64`, where it is a whole number in that range.
    pub open spec fn as_i64(self) -> Option<i64> {
        match self {
            NumV::Pos(u) => if u <= i64::MAX as u64 {
                Some(u as i64)
            } else {
                None
            },
            NumV::Neg(i) => Some(i),
            NumV::Real { .. } => None,
        }
    }

    /// The number as a `u64`, where it is a whole number that is not
    /// negative.
    pub open spec fn as_u64(self) -> Option<u64> {
        match self {
            NumV::Pos(u) => Some(u),
            _ => None,
        }
    }

    /// The integer that the number stands for as a request id: the number
    /// itself where it is whole and in the `i64` range, nothing where it is
    /// a larger whole number, and the number cut to an integer where it has
    /// a fraction or an exponent.
    pub open spec fn as_id(self) -> Option<i64> {
        match self {
            NumV::Real { whole, .. } => Some(whole),
            _ => self.as_i64(),
        }
    }
}

/// The mathematical value a [`Json`] stands for.
pub enum JsonV {
    Null,
    Bool(bool),
    Number(NumV),
    Str(Seq<char>),
    Array(Seq<JsonV>),
    Object(Seq<(Seq<char>, JsonV)>),
}

/// The tree of plain values that `j` holds.
pub open spec fn tree(j: &Json) -> JsonV
    decreases j,
{
    match j {
        Json::Null => JsonV::Null,
        Json::Bool(b) => JsonV::Bool(*b),
        Json::Number(n) => JsonV::Number(number_value(*n)),
        Json::Str(s) => JsonV::Str(s@),
        Json::Array(items) => JsonV::Array(
            Seq::new(
                items@.len(),
                |i: int|
                    if 0 <= i < items@.len() {
                        tree(&items@[i])
                    } else {
                        JsonV::Null
                    },
            ),
        ),
        Json::Object(entries) => JsonV::Object(
            Seq::new(
                entries@.len(),
                |i: int|
                    if 0 <= i < entries@.len() {
                        (entries@[i].0@, tree(&entries@[i].1))
                    } else {
                        (Seq::empty(), JsonV::Null)
                    },
            ),
        ),
    }
}

impl View for Json {
    type V = JsonV;

    open spec fn view(&self) -> JsonV {
        tree(self)
    }
}

/// The values of a list of `Json`, one for one.
pub open spec fn items_view(items: Seq<Json>) -> Seq<JsonV> {
    Seq::new(items.len(), |i: int| items[i]@)
}

/// The members of an object, each key and value by its view.
pub open spec fn entries_view(entries: Seq<(String, Json)>) -> Seq<(Seq<char>, JsonV)> {
    Seq::new(entries.len(), |i: int| (entries[i].0@, entries[i].1@))
}

/// The view of an optional reference to a `Json`.
pub open spec fn opt_view(j: Option<&Json>) -> Option<JsonV> {
    match j {
        Some(x) => Some(x@),
        None => None,
    }
}

/// The value stored under `key` in a member list: that of the first member
/// with this key.
pub open spec fn lookup(entries: Seq<(Seq<char>, JsonV)>, key: Seq<char>) -> Option<JsonV>
    decreases entries.len(),
{
    if entries.len() == 0 {
        None
    } else if entries[0].0 == key {
        Some(entries[0].1)
    } else {
        lookup(entries.drop_first(), key)
    }
}

impl JsonV {
    /// The member `key` of an object; `None` for anything but an object that
    /// has it.
    pub open spec fn get(self, key: Seq<char>) -> Option<JsonV> {
        match self {
            JsonV::Object(entries) => lookup(entries, key),
            _ => None,
        }
    }

    /// The text of a string value.
    pub open spec fn as_str(self) -> Option<Seq<char>> {
        match self {
            JsonV::Str(s) => Some(s),
            _ => None,
        }
    }

    /// The items of an array value.
    pub open spec fn as_array(self) -> Option<Seq<JsonV>> {
        match self {
            JsonV::Array(items) => Some(items),
            _ => None,
        }
    }

    /// The text of the string member `key`, if there is such a member and it
    /// is a string.
    pub open spec fn get_str(self, key: Seq<char>) -> Option<Seq<char>> {
        match self.get(key) {
            Some(v) => v.as_str(),
            None => None,
        }
    }

    /// The items of the array member `key`.
    pub open spec fn get_array(self, key: Seq<char>) -> Option<Seq<JsonV>> {
        match self.get(key) {
            Some(v) => v.as_array(),
            None => None,
        }
    }
}

/// The view of an array is the array of the views of its items.
pub proof fn lemma_array_view(items: Vec<Json>)
    ensures
        Json::Array(items)@ == JsonV::Array(items_view(items@)),
{
    assert(Json::Array(items)@->Array_0 =~= items_view(items@));
}

/// The view of an object is the list of its members, each by its view.
pub proof fn lemma_object_view(entries: Vec<(String, Json)>)
    ensures
        Json::Object(entries)@ == JsonV::Object(entries_view(entries@)),
{
    assert(Json::Object(entries)@->Object_0 =~= entries_view(entries@));
}

/// Looking a key up skips the members in front that have another key.
pub proof fn lemma_lookup_skip(entries: Seq<(Seq<char>, JsonV)>, key: Seq<char>, n: int)
    requires
        0 <= n <= entries.len(),
        forall|i: int| 0 <= i < n ==> entries[i].0 != key,
    ensures
        lookup(entries, key) == lookup(entries.skip(n), key),
    decreases n,
{
    if n == 0 {
        assert(entries.skip(0) =~= entries);
    } else {
        assert(entries.drop_first().skip(n - 1) =~= entries.skip(n));
        lemma_lookup_skip(entries.drop_first(), key, n - 1);
    }
}

/// What `serde_json::from_str` makes of a text: the tree of the value it
/// reads, or `None` where it reports an error.
pub uninterp spec fn parsed(text: Seq<char>) -> Option<JsonV>;

/// What a `serde_json::Value` holds, as a tree of plain values; the members
/// of an object in the order in which its map hands them out.
pub uninterp spec fn value_tree(v: serde_json::Value) -> JsonV;

/// What a `serde_json::Number` holds.
pub uninterp spec fn number_value(n: serde_json::Number) -> NumV;

/// A tree as a `serde_json::Value` holds it, once its objects have been put
/// into maps member by member.
pub uninterp spec fn stored(j: JsonV) -> JsonV;

/// The compact text that `serde_json` writes for a value that holds the
/// tree.
pub uninterp spec fn tree_text(j: JsonV) -> Seq<char>;

/// Calls `serde_json::from_str` for a `Value`. What it reads is a function
/// of the text alone; an error is returned as `None`.
#[verifier::external_body]
fn parse_value(text: &str) -> (r: Option<serde_json::Value>)
    ensures
        match r {
            Some(v) => parsed(text@) == Some(value_tree(v)),
            None => parsed(text@) is None,
        },
{
    serde_json::from_str::<serde_json::Value>(text).ok()
}

/// Copies a `serde_json::Value` into a `Json`, variant by variant; an object's
/// members come in the order in which its map hands them out.
#[verifier::external_body]
fn json_from_value(v: &serde_json::Value) -> (j: Json)
    ensures
        j@ == value_tree(*v),
{
    match v {
        serde_json::Value::Null => Json::Null,
        serde_json::Value::Bool(b) => Json::Bool(*b),
        serde_json::Value::Number(n) => Json::Number(n.clone()),
        serde_json::Value::String(s) => Json::Str(s.clone()),
        serde_json::Value::Array(a) => Json::Array(a.iter().map(json_from_value).collect()),
        serde_json::Value::Object(m) => Json::Object(
            m.iter().map(|(k, x)| (k.clone(), json_from_value(x))).collect(),
        ),
    }
}

/// Copies a `Json` into a `serde_json::Value`, variant by variant; the members
/// of an object are inserted into its map in their order.
#[verifier::external_body]
fn value_from_json(j: &Json) -> (v: serde_json::Value)
    ensures
        value_tree(v) == stored(j@),
{
    match j {
        Json::Null => serde_json::Value::Null,
        Json::Bool(b) => serde_json::Value::Bool(*b),
        Json::Number(n) => serde_json::Value::Number(n.clone()),
        Json::Str(s) => serde_json::Value::String(s.clone()),
        Json::Array(a) => serde_json::Value::Array(a.iter().map(value_from_json).collect()),
        Json::Object(m) => serde_json::Value::Object(
            m.iter().map(|e| (e.0.clone(), value_from_json(&e.1))).collect(),
        ),
    }
}

/// Calls `to_string` on a `serde_json::Value`, which writes it as compact
/// JSON text. The text is a function of what the value holds.
#[verifier::external_body]
fn render_value(v: &serde_json::Value) -> (s: String)
    ensures
        s@ == tree_text(value_tree(*v)),
{
    v.to_string()
}

/// `serde_json::Number::from` for an `i64`: a negative integer is kept as
/// it is, any other as an unsigned one.
#[verifier::external_body]
fn number_from_i64(i: i64) -> (n: serde_json::Number)
    ensures
        number_value(n) == NumV::of(i),
{
    serde_json::Number::from(i)
}

/// `serde_json::Number::as_i64`: a whole number, where it fits.
#[verifier::external_body]
fn number_as_i64(n: &serde_json::Number) -> (r: Option<i64>)
    ensures
        r == number_value(*n).as_i64(),
{
    n.as_i64()
}

/// `serde_json::Number::as_u64`: a whole number that is not negative.
#[verifier::external_body]
fn number_as_u64(n: &serde_json::Number) -> (r: Option<u64>)
    ensures
        r == number_value(*n).as_u64(),
{
    n.as_u64()
}

/// `serde_json::Number::as_f64`, the double then cast to `i64`. Of a number
/// with a fraction or an exponent this is the number cut to an integer.
#[verifier::external_body]
fn number_as_whole(n: &serde_json::Number) -> (r: Option<i64>)
    ensures
        number_value(*n) matches NumV::Real { whole, .. } ==> r == Some(whole),
{
    n.as_f64().map(|x| x as i64)
}

/// `Clone` of a `serde_json::Number`: a number that holds the same.
#[verifier::external_body]
fn number_clone(n: &serde_json::Number) -> (r: serde_json::Number)
    ensures
        number_value(r) == number_value(*n),
{
    n.clone()
}

/// The JSON text of a tree.
pub open spec fn rendered(j: JsonV) -> Seq<char> {
    tree_text(stored(j))
}

impl JsonV {
    /// The object with one more member at its end; any other value as it is.
    pub open spec fn with(self, key: Seq<char>, value: JsonV) -> JsonV {
        match self {
            JsonV::Object(entries) => JsonV::Object(entries.push((key, value))),
            _ => self,
        }
    }

    /// The object with no members.
    pub open spec fn object() -> JsonV {
        JsonV::Object(Seq::empty())
    }

    /// The integer number `i`.
    pub open spec fn integer(i: i64) -> JsonV {
        JsonV::Number(NumV::of(i))
    }

    /// The integer of a number value, as a request id reads it.
    pub open spec fn as_id(self) -> Option<i64> {
        match self {
            JsonV::Number(n) => n.as_id(),
            _ => None,
        }
    }
}

impl Json {
    /// Parses one JSON text.
    pub fn parse(text: &str) -> (r: Option<Json>)
        ensures
            match r {
                Some(j) => parsed(text@) == Some(j@),
                None => parsed(text@) is None,
            },
    {
        match parse_value(text) {
            Some(v) => Some(json_from_value(&v)),
            None => None,
        }
    }

    /// Writes the value as compact JSON text.
    pub fn render(&self) -> (s: String)
        ensures
            s@ == rendered(self@),
    {
        let v = value_from_json(self);
        render_value(&v)
    }

    /// The number `i`.
    pub fn integer(i: i64) -> (j: Json)
        ensures
            j@ == JsonV::integer(i),
            j@.as_id() == Some(i),
    {
        Json::Number(number_from_i64(i))
    }

    /// A string value with the text of `s`.
    pub fn text(s: &str) -> (j: Json)
        ensures
            j@ == JsonV::Str(s@),
    {
        Json::Str(s.to_owned())
    }

    /// An object with no members yet, to be filled by [`Json::with`].
    pub fn object() -> (j: Json)
        ensures
            j@ == JsonV::Object(Seq::empty()),
    {
        let entries: Vec<(String, Json)> = Vec::new();
        proof {
            lemma_object_view(entries);
            assert(entries_view(entries@) =~= Seq::empty());
        }
        Json::Object(entries)
    }

    /// The object with one more member at its end. Anything but an object
    /// is handed back as it is.
    pub fn with(self, key: &str, value: Json) -> (j: Json)
        ensures
            j@ == self@.with(key@, value@),
    {
        match self {
            Json::Object(mut entries) => {
                proof {
                    lemma_object_view(entries);
                }
                let ghost before = entries_view(entries@);
                entries.push((key.to_owned(), value));
                proof {
                    lemma_object_view(entries);
                    assert(entries_view(entries@) =~= before.push((key@, value@)));
                }
                Json::Object(entries)
            },
            other => other,
        }
    }

    /// An empty array.
    pub fn array() -> (j: Json)
        ensures
            j@ == JsonV::Array(Seq::empty()),
    {
        let items: Vec<Json> = Vec::new();
        proof {
            lemma_array_view(items);
            assert(items_view(items@) =~= Seq::empty());
        }
        Json::Array(items)
    }

    /// The array of the given items.
    pub fn list(items: Vec<Json>) -> (j: Json)
        ensures
            j@ == JsonV::Array(items_view(items@)),
    {
        proof {
            lemma_array_view(items);
        }
        Json::Array(items)
    }

    /// The integer of a number value, as a request id reads it.
    pub fn as_id(&self) -> (r: Option<i64>)
        ensures
            r == self@.as_id(),
    {
        match self {
            Json::Number(n) => {
                match number_as_i64(n) {
                    Some(v) => Some(v),
                    None => match number_as_u64(n) {
                        Some(u) => if u <= 0x7fff_ffff_ffff_ffffu64 {
                            Some(u as i64)
                        } else {
                            None
                        },
                        None => number_as_whole(n),
                    },
                }
            },
            _ => None,
        }
    }

    /// The member `key` of an object.
    pub fn get(&self, key: &str) -> (r: Option<&Json>)
        ensures
            opt_view(r) == self@.get(key@),
            r matches Some(x) ==> decreases_to!(*self => *x),
    {
        match self {
            Json::Object(entries) => {
                proof {
                    lemma_object_view(*entries);
                }
                let ghost all = entries_view(entries@);
                let mut i: usize = 0;
                while i < entries.len()
                    invariant
                        0 <= i <= entries.len(),
                        all == entries_view(entries@),
                        self@ == JsonV::Object(all),
                        decreases_to!(*self => *entries),
                        forall|k: int| 0 <= k < i ==> all[k].0 != key@,
                    decreases entries.len() - i,
                {
                    if str_eq(entries[i].0.as_str(), key) {
                        proof {
                            lemma_lookup_skip(all, key@, i as int);
                            assert(all.skip(i as int)[0] == all[i as int]);
                            assert(all[i as int].1 == entries@[i as int].1@);
                            assert(decreases_to!(*entries => entries[i as int]));
                            assert(decreases_to!(entries[i as int] => entries[i as int].1));
                        }
                        return Some(&entries[i].1);
                    }
                    i = i + 1;
                }
                proof {
                    lemma_lookup_skip(all, key@, i as int);
                }
                None
            },
            _ => None,
        }
    }

    /// The text of a string value.
    pub fn as_str(&self) -> (r: Option<&str>)
        ensures
            match r {
                Some(s) => self@.as_str() == Some(s@),
                None => self@.as_str() is None,
            },
    {
        match self {
            Json::Str(s) => Some(s.as_str()),
            _ => None,
        }
    }

    /// The items of an array value.
    pub fn as_array(&self) -> (r: Option<&Vec<Json>>)
        ensures
            match r {
                Some(items) => self@.as_array() == Some(items_view(items@)),
                None => self@.as_array() is None,
            },
            r matches Some(items) ==> decreases_to!(*self => *items),
    {
        match self {
            Json::Array(items) => {
                proof {
                    lemma_array_view(*items);
                }
                Some(items)
            },
            _ => None,
        }
    }

    /// The text of the string member `key`.
    pub fn get_str(&self, key: &str) -> (r: Option<&str>)
        ensures
            match r {
                Some(s) => self@.get_str(key@) == Some(s@),
                None => self@.get_str(key@) is None,
            },
    {
        match self.get(key) {
            Some(v) => v.as_str(),
            None => None,
        }
    }

    /// The items of the array member `key`.
    pub fn get_array(&self, key: &str) -> (r: Option<&Vec<Json>>)
        ensures
            match r {
                Some(items) => self@.get_array(key@) == Some(items_view(items@)),
                None => self@.get_array(key@) is None,
            },
    {
        match self.get(key) {
            Some(v) => v.as_array(),
            None => None,
        }
    }

    /// A copy of the value.
    pub fn duplicate(&self) -> (r: Json)
        ensures
            r@ == self@,
        decreases self,
    {
        match self {
            Json::Null => Json::Null,
            Json::Bool(b) => Json::Bool(*b),
            Json::Number(n) => Json::Number(number_clone(n)),
            Json::Str(s) => Json::Str(s.clone()),
            Json::Array(items) => {
                let mut out: Vec<Json> = Vec::new();
                let mut i: usize = 0;
                while i < items.len()
                    invariant
                        decreases_to!(*self => *items),
                        0 <= i <= items.len(),
                        out@.len() == i,
                        forall|k: int| 0 <= k < i ==> out@[k]@ == items@[k]@,
                    decreases items.len() - i,
                {
                    assert(decreases_to!(*items => items[i as int]));
                    out.push(items[i].duplicate());
                    i = i + 1;
                }
                proof {
                    lemma_array_view(*items);
                    lemma_array_view(out);
                    assert(items_view(out@) =~= items_view(items@));
                }
                Json::Array(out)
            },
            Json::Object(entries) => {
                let mut out: Vec<(String, Json)> = Vec::new();
                let mut i: usize = 0;
                while i < entries.len()
                    invariant
                        decreases_to!(*self => *entries),
                        0 <= i <= entries.len(),
                        out@.len() == i,
                        forall|k: int|
                            0 <= k < i ==> out@[k].0@ == entries@[k].0@ && out@[k].1@
                                == entries@[k].1@,
                    decreases entries.len() - i,
                {
                    assert(decreases_to!(*entries => entries[i as int]));
                    assert(decreases_to!(entries[i as int] => entries[i as int].1));
                    out.push((entries[i].0.clone(), entries[i].1.duplicate()));
                    i = i + 1;
                }
                proof {
                    lemma_object_view(*entries);
                    lemma_object_view(out);
                    assert(entries_view(out@) =~= entries_view(entries@));
                }
                Json::Object(out)
            },
        }
    }
}

} // verus!
