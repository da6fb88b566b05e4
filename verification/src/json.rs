//! JSON documents: the handshake that a client sends, and the greeting and
//! status messages that the server sends.

use vstd::prelude::*;

verus! {

/// A JSON document as the library reads and writes it.
///
/// A number is kept as the unsigned integer it denotes, when it denotes one
/// that fits in a `u64`, and as `None` otherwise: that is all the handshake
/// reads of a number.
pub enum JsonValue {
    Null,
    Bool(bool),
    Number(Option<u64>),
    String(String),
    Array(Vec<JsonValue>),
    Object(Vec<(String, JsonValue)>),
}

/// The mathematical model of a JSON document: strings are character sequences.
pub enum JsonView {
    Null,
    Bool(bool),
    Number(Option<u64>),
    String(Seq<char>),
    Array(Seq<JsonView>),
    Object(Seq<(Seq<char>, JsonView)>),
}

/// The model of a document, node for node.
pub open spec fn view_of(v: JsonValue) -> JsonView
    decreases v,
{
    match v {
        JsonValue::Null => JsonView::Null,
        JsonValue::Bool(b) => JsonView::Bool(b),
        JsonValue::Number(n) => JsonView::Number(n),
        JsonValue::String(s) => JsonView::String(s@),
        JsonValue::Array(items) => JsonView::Array(
            Seq::new(
                items@.len(),
                |i: int|
                    if 0 <= i < items@.len() {
                        view_of(items@[i])
                    } else {
                        JsonView::Null
                    },
            ),
        ),
        JsonValue::Object(entries) => JsonView::Object(
            Seq::new(
                entries@.len(),
                |i: int|
                    if 0 <= i < entries@.len() {
                        (entries@[i].0@, view_of(entries@[i].1))
                    } else {
                        (Seq::empty(), JsonView::Null)
                    },
            ),
        ),
    }
}

impl View for JsonValue {
    type V = JsonView;

    open spec fn view(&self) -> JsonView {
        view_of(*self)
    }
}

/// The model of the members of an object, in order.
pub open spec fn entries_view(entries: Seq<(String, JsonValue)>) -> Seq<(Seq<char>, JsonView)> {
    Seq::new(entries.len(), |i: int| (entries[i].0@, entries[i].1@))
}

/// The value of the first member named `key`, if there is one.
pub open spec fn lookup(entries: Seq<(Seq<char>, JsonView)>, key: Seq<char>) -> Option<JsonView>
    decreases entries.len(),
{
    if entries.len() == 0 {
        None
    } else if entries[0].0 == key {
        Some(entries[0].1)
    } else {
        lookup(entries.drop_first(), key)
    }
}

impl JsonView {
    /// The member `key` of an object; nothing for any other document.
    pub open spec fn field(self, key: Seq<char>) -> Option<JsonView> {
        match self {
            JsonView::Object(entries) => lookup(entries, key),
            _ => None,
        }
    }

    /// The text of a string; nothing for any other document.
    pub open spec fn text(self) -> Option<Seq<char>> {
        match self {
            JsonView::String(s) => Some(s),
            _ => None,
        }
    }

    /// The unsigned integer that a number denotes; nothing for any other document.
    pub open spec fn unsigned(self) -> Option<u64> {
        match self {
            JsonView::Number(n) => n,
            _ => None,
        }
    }
}

/// Whether every number in the document is an unsigned integer, so that the
/// model holds all there is to write of it.
pub open spec fn writable(v: JsonView) -> bool
    decreases v,
{
    match v {
        JsonView::Number(n) => n is Some,
        JsonView::Array(items) => forall|i: int|
            0 <= i < items.len() ==> #[trigger] writable(items[i]),
        JsonView::Object(entries) => forall|i: int|
            0 <= i < entries.len() ==> #[trigger] writable(entries[i].1),
        _ => true,
    }
}

impl JsonValue {
    /// The member `key` of an object, as `serde_json::Value::get` gives it.
    pub fn get(&self, key: &String) -> (r: Option<&JsonValue>)
        ensures
            match r {
                Some(x) => self@.field(key@) == Some(x@),
                None => self@.field(key@) is None,
            },
    {
        match self {
            JsonValue::Object(entries) => {
                let ghost model = entries_view(entries@);
                assert(self@ == JsonView::Object(model)) by {
                    assert(model =~= self@->Object_0);
                }
                let n = entries.len();
                let mut i: usize = 0;
                assert(model.skip(0) =~= model);
                while i < n
                    invariant
                        0 <= i <= n,
                        n == entries@.len(),
                        model == entries_view(entries@),
                        self@ == JsonView::Object(model),
                        lookup(model, key@) == lookup(model.skip(i as int), key@),
                    decreases n - i,
                {
                    assert(model.skip(i as int).drop_first() =~= model.skip(i + 1));
                    assert(model.skip(i as int)[0] == model[i as int]);
                    if entries[i].0 == *key {
                        return Some(&entries[i].1);
                    }
                    i = i + 1;
                }
                None
            },
            _ => None,
        }
    }

    /// The text of a string, as `serde_json::Value::as_str` gives it.
    pub fn as_str(&self) -> (r: Option<&String>)
        ensures
            match r {
                Some(s) => self@.text() == Some(s@),
                None => self@.text() is None,
            },
    {
        match self {
            JsonValue::String(s) => Some(s),
            _ => None,
        }
    }

    /// The unsigned integer of a number, as `serde_json::Value::as_u64` gives it.
    pub fn as_u64(&self) -> (r: Option<u64>)
        ensures
            r == self@.unsigned(),
    {
        match self {
            JsonValue::Number(n) => *n,
            _ => None,
        }
    }

    /// The members of an object, as `serde_json::Value::as_object` gives them.
    pub fn as_object(&self) -> (r: Option<&Vec<(String, JsonValue)>>)
        ensures
            match r {
                Some(entries) => self@ == JsonView::Object(entries_view(entries@)),
                None => !(self@ is Object),
            },
    {
        match self {
            JsonValue::Object(entries) => {
                assert(entries_view(entries@) =~= self@->Object_0);
                Some(entries)
            },
            _ => None,
        }
    }
}

/// `serde_json::Value`, the document tree of `serde_json`, held opaque.
#[verifier::external_type_specification]
#[verifier::external_body]
pub struct ExSerdeValue(serde_json::Value);

/// What `serde_json::from_str::<serde_json::Value>` makes of a text, taken
/// through the model: the document, or the text of the error it reports.
pub uninterp spec fn json_parse(text: Seq<char>) -> Result<JsonView, Seq<char>>;

/// The compact text that `serde_json` writes for a document (the `Display`
/// of `serde_json::Value`, members of an object in the order of its map).
pub uninterp spec fn json_text(value: JsonView) -> Seq<char>;

/// Converts a `serde_json` document into the library's, node for node; a
/// number becomes what `serde_json::Number::as_u64` gives of it.
#[verifier::external_body]
fn from_serde(value: serde_json::Value) -> JsonValue {
    match value {
        serde_json::Value::Null => JsonValue::Null,
        serde_json::Value::Bool(b) => JsonValue::Bool(b),
        serde_json::Value::Number(n) => JsonValue::Number(n.as_u64()),
        serde_json::Value::String(s) => JsonValue::String(s),
        serde_json::Value::Array(items) => JsonValue::Array(items.into_iter().map(from_serde).collect()),
        serde_json::Value::Object(map) => JsonValue::Object(map.into_iter().map(|(k, v)| (k, from_serde(v))).collect()),
    }
}

/// Converts the library's document into a `serde_json` one, node for node; a
/// number is written through `serde_json::Value::from` of its `u64`.
#[verifier::external_body]
fn to_serde(value: &JsonValue) -> serde_json::Value {
    match value {
        JsonValue::Null => serde_json::Value::Null,
        JsonValue::Bool(b) => serde_json::Value::Bool(*b),
        JsonValue::Number(n) => serde_json::Value::from(*n),
        JsonValue::String(s) => serde_json::Value::String(s.clone()),
        JsonValue::Array(items) => serde_json::Value::Array(items.iter().map(to_serde).collect()),
        JsonValue::Object(entries) => serde_json::Value::Object(entries.iter().map(|(k, v)| (k.clone(), to_serde(v))).collect()),
    }
}

/// Parses a text with `serde_json::from_str::<serde_json::Value>`.
///
/// Claimed: the result is `json_parse` of the text, the document taken
/// through the model, or the `Display` text of `serde_json::Error`. What
/// `json_parse` gives on a given text is not stated here.
#[verifier::external_body]
pub(crate) fn parse_json(text: &str) -> (r: Result<JsonValue, String>)
    ensures
        match (r, json_parse(text@)) {
            (Ok(v), Ok(w)) => v@ == w,
            (Err(e), Err(m)) => e@ == m,
            _ => false,
        },
{
    match serde_json::from_str::<serde_json::Value>(text) {
        Ok(value) => Ok(from_serde(value)),
        Err(err) => Err(err.to_string()),
    }
}

/// The members of an object have pairwise distinct names.
pub open spec fn distinct_names(entries: Seq<(Seq<char>, JsonView)>) -> bool {
    forall|i: int, j: int|
        0 <= i < j < entries.len() ==> (#[trigger] entries[i]).0 != (#[trigger] entries[j]).0
}

/// A document that `serde_json` reads back as it was written: every number an
/// unsigned integer, every object with distinct member names, and no more
/// than `depth` arrays and objects nested along any path.
pub open spec fn round_trips(v: JsonView, depth: int) -> bool
    decreases v,
{
    match v {
        JsonView::Number(n) => n is Some,
        JsonView::Array(items) => depth > 0 && forall|i: int|
            0 <= i < items.len() ==> #[trigger] round_trips(items[i], depth - 1),
        JsonView::Object(entries) => depth > 0 && distinct_names(entries) && forall|i: int|
            0 <= i < entries.len() ==> #[trigger] round_trips(entries[i].1, depth - 1),
        _ => true,
    }
}

/// `w` is the document `v` up to the order of object members: scalars are
/// equal, arrays agree item by item, and objects have the same member names,
/// each member agreeing with its counterpart.
pub open spec fn agrees(w: JsonView, v: JsonView) -> bool
    decreases v,
{
    match v {
        JsonView::Array(items) => w is Array && w->Array_0.len() == items.len() && forall|i: int|
            0 <= i < items.len() ==> #[trigger] agrees(w->Array_0[i], items[i]),
        JsonView::Object(entries) => w is Object && (forall|j: int|
            0 <= j < w->Object_0.len() ==> #[trigger] lookup(entries, w->Object_0[j].0) is Some)
            && (forall|i: int|
            0 <= i < entries.len() ==> match #[trigger] lookup(w->Object_0, entries[i].0) {
                Some(x) => agrees(x, entries[i].1),
                None => false,
            }),
        _ => w == v,
    }
}

/// A member is found exactly when some member has that name.
pub proof fn lemma_lookup_some(entries: Seq<(Seq<char>, JsonView)>, key: Seq<char>)
    ensures
        lookup(entries, key) is Some <==> exists|j: int| 0 <= j < entries.len() && #[trigger] entries[j].0 == key,
    decreases entries.len(),
{
    if entries.len() > 0 {
        lemma_lookup_some(entries.drop_first(), key);
        if lookup(entries.drop_first(), key) is Some {
            let j = choose|j: int| 0 <= j < entries.drop_first().len() && #[trigger] entries.drop_first()[j].0 == key;
            assert(entries[j + 1].0 == key);
        }
        if exists|j: int| 0 <= j < entries.len() && #[trigger] entries[j].0 == key {
            let j = choose|j: int| 0 <= j < entries.len() && #[trigger] entries[j].0 == key;
            if j > 0 {
                assert(entries.drop_first()[j - 1].0 == key);
            }
        }
    }
}

/// Under distinct names, looking a member's name up finds that member.
pub proof fn lemma_lookup_distinct(entries: Seq<(Seq<char>, JsonView)>, i: int)
    requires
        distinct_names(entries),
        0 <= i < entries.len(),
    ensures
        lookup(entries, entries[i].0) == Some(entries[i].1),
    decreases i,
{
    if i > 0 {
        let rest = entries.drop_first();
        assert(entries[0].0 != entries[i].0);
        assert(distinct_names(rest)) by {
            assert forall|a: int, b: int| 0 <= a < b < rest.len() implies (#[trigger] rest[a]).0
                != (#[trigger] rest[b]).0 by {
                assert(rest[a] == entries[a + 1] && rest[b] == entries[b + 1]);
            }
        }
        assert(rest[i - 1] == entries[i]);
        lemma_lookup_distinct(rest, i - 1);
    }
}

/// Reading a member of a document that agrees with an object of distinct
/// names gives a member agreeing with the object's, and nothing where the
/// object has nothing.
pub proof fn lemma_agrees_field(w: JsonView, v: JsonView, key: Seq<char>)
    requires
        v is Object,
        distinct_names(v->Object_0),
        agrees(w, v),
    ensures
        match v.field(key) {
            Some(x) => w.field(key) is Some && agrees(w.field(key).unwrap(), x),
            None => w.field(key) is None,
        },
{
    let entries = v->Object_0;
    let found = w->Object_0;
    lemma_lookup_some(entries, key);
    lemma_lookup_some(found, key);
    if lookup(entries, key) is Some {
        let i = choose|i: int| 0 <= i < entries.len() && #[trigger] entries[i].0 == key;
        lemma_lookup_distinct(entries, i);
        assert(match lookup(found, entries[i].0) {
            Some(x) => agrees(x, entries[i].1),
            None => false,
        });
    } else if lookup(found, key) is Some {
        let j = choose|j: int| 0 <= j < found.len() && #[trigger] found[j].0 == key;
        assert(lookup(entries, found[j].0) is Some);
    }
}

/// Writes a document with the `Display` of `serde_json::Value` (compact text).
///
/// Claimed: the text is `json_text` of the document's model. Only documents
/// whose numbers are all unsigned integers are accepted, so that the model
/// holds the whole document. What `json_text` gives is not stated here,
/// except this: a document that `round_trips` within the parser's nesting
/// limit (127 arrays and objects deep; `serde_json::Deserializer` starts with
/// a depth of 128) is parsed back by `serde_json::from_str` to a document
/// that `agrees` with it: strings are escaped on writing and unescaped on
/// parsing, unsigned integers are written and read as such, and object
/// members may come back in another order (the map sorts them).
#[verifier::external_body]
pub(crate) fn write_json(value: &JsonValue) -> (r: String)
    requires
        writable(value@),
    ensures
        r@ == json_text(value@),
        round_trips(value@, 127) ==> (json_parse(r@) is Ok && agrees(json_parse(r@)->Ok_0, value@)),
{
    to_serde(value).to_string()
}

} // verus!
