//! JSON documents as the library reads and builds them: an owned tree of
//! plain values with a mathematical view, read from text by serde_json.
use vstd::prelude::*;
use crate::text::same_text;

verus! {

broadcast use vstd::std_specs::vec::group_vec_axioms;

/// A JSON document. Numbers keep the text that serde_json prints for them;
/// an object keeps its members in order, each key at most once.
#[derive(Debug, PartialEq)]
pub enum Json {
    Null,
    Bool(bool),
    Number(String),
    Str(String),
    Array(Vec<Json>),
    Object(Vec<(String, Json)>),
}

/// The mathematical value of a JSON document.
pub enum JsonView {
    Null,
    Bool(bool),
    Number(Seq<char>),
    Str(Seq<char>),
    Array(Seq<JsonView>),
    Object(Seq<(Seq<char>, JsonView)>),
}

pub open spec fn json_view(j: Json) -> JsonView
    decreases j,
{
    match j {
        Json::Null => JsonView::Null,
        Json::Bool(b) => JsonView::Bool(b),
        Json::Number(n) => JsonView::Number(n@),
        Json::Str(s) => JsonView::Str(s@),
        Json::Array(items) => {
            proof {
                vstd::std_specs::vec::axiom_vec_decreases_to_view(items);
            }
            JsonView::Array(items_view(items@))
        },
        Json::Object(entries) => {
            proof {
                vstd::std_specs::vec::axiom_vec_decreases_to_view(entries);
            }
            JsonView::Object(entries_view(entries@))
        },
    }
}

pub open spec fn items_view(s: Seq<Json>) -> Seq<JsonView>
    decreases s,
{
    if s.len() == 0 {
        Seq::empty()
    } else {
        items_view(s.drop_last()).push(json_view(s.last()))
    }
}

pub open spec fn entries_view(s: Seq<(String, Json)>) -> Seq<(Seq<char>, JsonView)>
    decreases s,
{
    if s.len() == 0 {
        Seq::empty()
    } else {
        entries_view(s.drop_last()).push((s.last().0@, json_view(s.last().1)))
    }
}

impl View for Json {
    type V = JsonView;

    open spec fn view(&self) -> JsonView {
        json_view(*self)
    }
}

pub proof fn lemma_items_view(s: Seq<Json>)
    ensures
        items_view(s).len() == s.len(),
        forall|i: int| 0 <= i < s.len() ==> #[trigger] items_view(s)[i] == json_view(s[i]),
    decreases s.len(),
{
    if s.len() > 0 {
        lemma_items_view(s.drop_last());
    }
}

pub proof fn lemma_entries_view(s: Seq<(String, Json)>)
    ensures
        entries_view(s).len() == s.len(),
        forall|i: int|
            0 <= i < s.len() ==> #[trigger] entries_view(s)[i] == (s[i].0@, json_view(s[i].1)),
    decreases s.len(),
{
    if s.len() > 0 {
        lemma_entries_view(s.drop_last());
    }
}

// ---------------------------------------------------------------------------
// Reading a document.
// ---------------------------------------------------------------------------

/// The value of the first member named `key` among `entries[i..]`.
pub open spec fn entry_from(entries: Seq<(Seq<char>, JsonView)>, key: Seq<char>, i: int) -> Option<
    JsonView,
>
    decreases entries.len() - i,
{
    if i < 0 || i >= entries.len() {
        None
    } else if entries[i].0 == key {
        Some(entries[i].1)
    } else {
        entry_from(entries, key, i + 1)
    }
}

/// `Value::get` with a key: the member named `key` of an object, `None` for
/// anything else.
pub open spec fn member(v: JsonView, key: Seq<char>) -> Option<JsonView> {
    match v {
        JsonView::Object(entries) => entry_from(entries, key, 0),
        _ => None,
    }
}

/// `Value::as_str`: the text of a string.
pub open spec fn text_of(v: JsonView) -> Option<Seq<char>> {
    match v {
        JsonView::Str(s) => Some(s),
        _ => None,
    }
}

/// `Value::as_bool`.
pub open spec fn bool_of(v: JsonView) -> Option<bool> {
    match v {
        JsonView::Bool(b) => Some(b),
        _ => None,
    }
}

/// `Value::as_array`: the items of an array.
pub open spec fn items_of(v: JsonView) -> Option<Seq<JsonView>> {
    match v {
        JsonView::Array(items) => Some(items),
        _ => None,
    }
}

/// The text of the member named `key`, when it is a string.
pub open spec fn member_text(v: JsonView, key: Seq<char>) -> Option<Seq<char>> {
    match member(v, key) {
        Some(m) => text_of(m),
        None => None,
    }
}

pub open spec fn opt_view(o: Option<&Json>) -> Option<JsonView> {
    match o {
        Some(j) => Some(j@),
        None => None,
    }
}

impl Json {
    /// `Value::is_object`.
    pub fn is_object(&self) -> (r: bool)
        ensures
            r == (self@ is Object),
    {
        match self {
            Json::Object(_) => true,
            _ => false,
        }
    }

    /// `Value::as_str`.
    pub fn as_str(&self) -> (r: Option<&str>)
        ensures
            match r {
                Some(s) => text_of(self@) == Some(s@),
                None => text_of(self@) is None,
            },
    {
        match self {
            Json::Str(s) => Some(s.as_str()),
            _ => None,
        }
    }

    /// `Value::as_bool`.
    pub fn as_bool(&self) -> (r: Option<bool>)
        ensures
            r == bool_of(self@),
    {
        match self {
            Json::Bool(b) => Some(*b),
            _ => None,
        }
    }

    /// `Value::as_array`.
    pub fn as_array(&self) -> (r: Option<&Vec<Json>>)
        ensures
            match r {
                Some(items) => items_of(self@) == Some(items_view(items@)),
                None => items_of(self@) is None,
            },
    {
        match self {
            Json::Array(items) => Some(items),
            _ => None,
        }
    }

    /// `Value::get` with a key.
    #[verifier::loop_isolation(false)]
    pub fn get(&self, key: &str) -> (r: Option<&Json>)
        ensures
            opt_view(r) == member(self@, key@),
    {
        match self {
            Json::Object(entries) => {
                proof {
                    lemma_entries_view(entries@);
                }
                let ghost ev = entries_view(entries@);
                let mut i: usize = 0;
                while i < entries.len()
                    invariant
                        i <= entries.len(),
                        ev == entries_view(entries@),
                        ev.len() == entries@.len(),
                        forall|k: int|
                            0 <= k < entries@.len() ==> #[trigger] ev[k] == (
                                entries@[k].0@,
                                json_view(entries@[k].1),
                            ),
                        entry_from(ev, key@, 0) == entry_from(ev, key@, i as int),
                    decreases entries.len() - i,
                {
                    if same_text(entries[i].0.as_str(), key) {
                        return Some(&entries[i].1);
                    }
                    i += 1;
                }
                None
            },
            _ => None,
        }
    }

    /// The text of the member named `key`, when it is a string.
    pub fn get_str(&self, key: &str) -> (r: Option<&str>)
        ensures
            match r {
                Some(s) => member_text(self@, key@) == Some(s@),
                None => member_text(self@, key@) is None,
            },
    {
        match self.get(key) {
            Some(m) => m.as_str(),
            None => None,
        }
    }

    /// A copy of the document.
    #[verifier::loop_isolation(false)]
    pub fn copy(&self) -> (r: Json)
        ensures
            r@ == self@,
        decreases self,
    {
        match self {
            Json::Null => Json::Null,
            Json::Bool(b) => Json::Bool(*b),
            Json::Number(n) => Json::Number(n.clone()),
            Json::Str(s) => Json::Str(s.clone()),
            Json::Array(items) => {
                let mut out: Vec<Json> = Vec::new();
                let mut i: usize = 0;
                proof {
                    lemma_items_view(items@);
                }
                while i < items.len()
                    invariant
                        i <= items.len(),
                        out@.len() == i,
                        forall|k: int|
                            0 <= k < i ==> #[trigger] json_view(out@[k]) == json_view(items@[k]),
                    decreases items.len() - i,
                {
                    proof {
                        vstd::std_specs::vec::axiom_vec_index_decreases(*items, i as int);
                        assert(decreases_to!(*self => items[i as int]));
                    }
                    let c = items[i].copy();
                    out.push(c);
                    i += 1;
                }
                proof {
                    lemma_items_view(out@);
                    lemma_items_view(items@);
                    assert(items_view(out@) =~= items_view(items@));
                }
                Json::Array(out)
            },
            Json::Object(entries) => {
                let mut out: Vec<(String, Json)> = Vec::new();
                let mut i: usize = 0;
                while i < entries.len()
                    invariant
                        i <= entries.len(),
                        out@.len() == i,
                        forall|k: int| 0 <= k < i ==> (#[trigger] out@[k]).0@ == entries@[k].0@,
                        forall|k: int|
                            0 <= k < i ==> json_view((#[trigger] out@[k]).1) == json_view(
                                entries@[k].1,
                            ),
                    decreases entries.len() - i,
                {
                    proof {
                        vstd::std_specs::vec::axiom_vec_index_decreases(*entries, i as int);
                        assert(decreases_to!(*self => entries[i as int].1));
                    }
                    let k = entries[i].0.clone();
                    let c = entries[i].1.copy();
                    out.push((k, c));
                    i += 1;
                }
                proof {
                    lemma_entries_view(out@);
                    lemma_entries_view(entries@);
                    assert(entries_view(out@) =~= entries_view(entries@));
                }
                Json::Object(out)
            },
        }
    }
}

// ---------------------------------------------------------------------------
// Changing a document.
// ---------------------------------------------------------------------------

/// The members of an object once the member named `key` is set to `value`:
/// replaced where it stands, or added at the end.
pub open spec fn set_entry(entries: Seq<(Seq<char>, JsonView)>, key: Seq<char>, value: JsonView) -> Seq<
    (Seq<char>, JsonView),
> {
    if exists|i: int| 0 <= i < entries.len() && #[trigger] entries[i].0 == key {
        let i = choose|i: int| 0 <= i < entries.len() && #[trigger] entries[i].0 == key && forall|
            j: int,
        |
            0 <= j < i ==> #[trigger] entries[j].0 != key;
        entries.update(i, (key, value))
    } else {
        entries.push((key, value))
    }
}

proof fn lemma_entry_from_frame(
    es: Seq<(Seq<char>, JsonView)>,
    fs: Seq<(Seq<char>, JsonView)>,
    key: Seq<char>,
    i: int,
)
    requires
        0 <= i <= es.len(),
        es.len() <= fs.len(),
        forall|j: int| i <= j < es.len() ==> #[trigger] es[j] == fs[j],
        forall|j: int| es.len() <= j < fs.len() ==> #[trigger] fs[j].0 != key,
    ensures
        entry_from(es, key, i) == entry_from(fs, key, i),
    decreases es.len() - i,
{
    if i < es.len() {
        lemma_entry_from_frame(es, fs, key, i + 1);
    } else {
        lemma_entry_from_none(fs, key, i);
    }
}

proof fn lemma_entry_from_none(fs: Seq<(Seq<char>, JsonView)>, key: Seq<char>, i: int)
    requires
        0 <= i,
        forall|j: int| i <= j < fs.len() ==> #[trigger] fs[j].0 != key,
    ensures
        entry_from(fs, key, i) is None,
    decreases fs.len() - i,
{
    if i < fs.len() {
        lemma_entry_from_none(fs, key, i + 1);
    }
}

/// `request[key] = value` on an object: the member named `key` takes the
/// value; every other member stays as it was.
pub fn set_member(obj: &mut Json, key: &str, value: Json)
    requires
        old(obj)@ is Object,
    ensures
        final(obj)@ == JsonView::Object(set_entry(old(obj)@->Object_0, key@, value@)),
{
    let ghost value_view = value@;
    match obj {
        Json::Object(entries) => {
            proof {
                lemma_entries_view(entries@);
            }
            let ghost ev = entries_view(entries@);
            let mut i: usize = 0;
            while i < entries.len() && !same_text(entries[i].0.as_str(), key)
                invariant
                    i <= entries.len(),
                    ev == entries_view(entries@),
                    ev.len() == entries@.len(),
                    forall|k: int|
                        0 <= k < entries@.len() ==> #[trigger] ev[k] == (
                            entries@[k].0@,
                            json_view(entries@[k].1),
                        ),
                    forall|k: int| 0 <= k < i ==> #[trigger] ev[k].0 != key@,
                decreases entries.len() - i,
            {
                i += 1;
            }
            let ghost chosen = i;
            if i < entries.len() {
                let k = entries[i].0.clone();
                entries.set(i, (k, value));
                proof {
                    assert(ev[chosen as int].0 == key@);
                    let c = choose|c: int|
                        0 <= c < ev.len() && #[trigger] ev[c].0 == key@ && forall|j: int|
                            0 <= j < c ==> #[trigger] ev[j].0 != key@;
                    assert(c == chosen) by {
                        if c < chosen {
                            assert(ev[c].0 != key@);
                        }
                        if chosen < c {
                            assert(ev[chosen as int].0 != key@);
                        }
                    }
                    lemma_entries_view(entries@);
                    assert(entries_view(entries@) =~= set_entry(ev, key@, value_view));
                }
            } else {
                let k = String::from_str(key);
                entries.push((k, value));
                proof {
                    lemma_entries_view(entries@);
                    assert(entries_view(entries@) =~= set_entry(ev, key@, value_view));
                }
            }
        },
        _ => {},
    }
}

/// Setting a member and then reading it gives back the value that was set,
/// and reading any other member gives what it held before.
pub proof fn law_set_then_get(
    entries: Seq<(Seq<char>, JsonView)>,
    key: Seq<char>,
    value: JsonView,
    other: Seq<char>,
)
    ensures
        member(JsonView::Object(set_entry(entries, key, value)), key) == Some(value),
        other != key ==> member(JsonView::Object(set_entry(entries, key, value)), other) == member(
            JsonView::Object(entries),
            other,
        ),
{
    let s = set_entry(entries, key, value);
    if exists|i: int| 0 <= i < entries.len() && #[trigger] entries[i].0 == key {
        let w = choose|i: int| 0 <= i < entries.len() && #[trigger] entries[i].0 == key;
        lemma_first_match(entries, key, w);
        let i = choose|i: int| 0 <= i < entries.len() && #[trigger] entries[i].0 == key && forall|
            j: int,
        |
            0 <= j < i ==> #[trigger] entries[j].0 != key;
        lemma_entry_at_first(s, key, i, 0);
        if other != key {
            lemma_entry_update_other(entries, key, value, other, i, 0);
        }
    } else {
        lemma_entry_from_none(entries, key, 0);
        lemma_entry_push(entries, key, value, 0);
        if other != key {
            lemma_entry_from_frame(entries, s, other, 0);
        }
    }
}

proof fn lemma_first_match(entries: Seq<(Seq<char>, JsonView)>, key: Seq<char>, w: int)
    requires
        0 <= w < entries.len(),
        entries[w].0 == key,
    ensures
        exists|i: int|
            0 <= i < entries.len() && #[trigger] entries[i].0 == key && forall|j: int|
                0 <= j < i ==> #[trigger] entries[j].0 != key,
    decreases w,
{
    if exists|j: int| 0 <= j < w && #[trigger] entries[j].0 == key {
        let j = choose|j: int| 0 <= j < w && #[trigger] entries[j].0 == key;
        lemma_first_match(entries, key, j);
    } else {
        assert(forall|j: int| 0 <= j < w ==> #[trigger] entries[j].0 != key);
    }
}

proof fn lemma_entry_at_first(s: Seq<(Seq<char>, JsonView)>, key: Seq<char>, i: int, k: int)
    requires
        0 <= k <= i < s.len(),
        s[i].0 == key,
        forall|j: int| 0 <= j < i ==> #[trigger] s[j].0 != key,
    ensures
        entry_from(s, key, k) == Some(s[i].1),
    decreases i - k,
{
    if k < i {
        lemma_entry_at_first(s, key, i, k + 1);
    }
}

proof fn lemma_entry_update_other(
    entries: Seq<(Seq<char>, JsonView)>,
    key: Seq<char>,
    value: JsonView,
    other: Seq<char>,
    i: int,
    k: int,
)
    requires
        0 <= i < entries.len(),
        0 <= k <= entries.len(),
        entries[i].0 == key,
        other != key,
    ensures
        entry_from(entries.update(i, (key, value)), other, k) == entry_from(entries, other, k),
    decreases entries.len() - k,
{
    if k < entries.len() {
        lemma_entry_update_other(entries, key, value, other, i, k + 1);
    }
}

proof fn lemma_entry_push(entries: Seq<(Seq<char>, JsonView)>, key: Seq<char>, value: JsonView, k: int)
    requires
        0 <= k <= entries.len(),
        forall|j: int| 0 <= j < entries.len() ==> #[trigger] entries[j].0 != key,
    ensures
        entry_from(entries.push((key, value)), key, k) == Some(value),
    decreases entries.len() - k,
{
    if k < entries.len() {
        lemma_entry_push(entries, key, value, k + 1);
    }
}

// ---------------------------------------------------------------------------
// Reading JSON text (serde_json).
// ---------------------------------------------------------------------------

#[verifier::external_type_specification]
#[verifier::external_body]
pub struct ExValue(serde_json::Value);

/// Turns a serde_json value into the library's document, node for node:
/// numbers by the text serde_json prints for them, object members in the
/// order in which the map yields them.
#[verifier::external_body]
fn document_of(v: serde_json::Value) -> Json {
    match v {
        serde_json::Value::Null => Json::Null,
        serde_json::Value::Bool(b) => Json::Bool(b),
        serde_json::Value::Number(n) => Json::Number(n.to_string()),
        serde_json::Value::String(s) => Json::Str(s),
        serde_json::Value::Array(items) => Json::Array(items.into_iter().map(document_of).collect()),
        serde_json::Value::Object(m) => Json::Object(
            m.into_iter().map(|(k, x)| (k, document_of(x))).collect(),
        ),
    }
}

/// What `serde_json::from_str::<serde_json::Value>` gives back for a text:
/// the document, or the message of its error.
pub uninterp spec fn json_of_text(text: Seq<char>) -> Result<JsonView, Seq<char>>;

/// What `serde_json::from_slice::<serde_json::Value>` gives back for bytes.
pub uninterp spec fn json_of_bytes(bytes: Seq<u8>) -> Result<JsonView, Seq<char>>;

/// What `serde_json::from_slice::<Vec<serde_json::Value>>` gives back for
/// bytes: the items of a top-level array, or the message of its error.
pub uninterp spec fn json_items_of_bytes(bytes: Seq<u8>) -> Result<Seq<JsonView>, Seq<char>>;

/// `serde_json::from_str::<Value>`: the document that `text` holds, or the
/// error's message. The contract says only that the result is the one
/// `json_of_text` names for this text.
#[verifier::external_body]
pub fn parse_json(text: &str) -> (r: Result<Json, String>)
    ensures
        match r {
            Ok(j) => json_of_text(text@) == Ok::<JsonView, Seq<char>>(j@),
            Err(e) => json_of_text(text@) == Err::<JsonView, Seq<char>>(e@),
        },
{
    match serde_json::from_str::<serde_json::Value>(text) {
        Ok(v) => Ok(document_of(v)),
        Err(e) => Err(e.to_string()),
    }
}

/// `serde_json::from_slice::<Value>`: the document that `bytes` hold, or the
/// error's message, as `json_of_bytes` names it.
#[verifier::external_body]
pub fn parse_json_bytes(bytes: &[u8]) -> (r: Result<Json, String>)
    ensures
        match r {
            Ok(j) => json_of_bytes(bytes@) == Ok::<JsonView, Seq<char>>(j@),
            Err(e) => json_of_bytes(bytes@) == Err::<JsonView, Seq<char>>(e@),
        },
{
    match serde_json::from_slice::<serde_json::Value>(bytes) {
        Ok(v) => Ok(document_of(v)),
        Err(e) => Err(e.to_string()),
    }
}

/// `serde_json::from_slice::<Vec<Value>>`: the items of the top-level array
/// that `bytes` hold, or the error's message, as `json_items_of_bytes` names it.
#[verifier::external_body]
pub fn parse_json_items(bytes: &[u8]) -> (r: Result<Vec<Json>, String>)
    ensures
        match r {
            Ok(items) => json_items_of_bytes(bytes@) == Ok::<Seq<JsonView>, Seq<char>>(
                items_view(items@),
            ),
            Err(e) => json_items_of_bytes(bytes@) == Err::<Seq<JsonView>, Seq<char>>(e@),
        },
{
    match serde_json::from_slice::<Vec<serde_json::Value>>(bytes) {
        Ok(v) => Ok(v.into_iter().map(document_of).collect()),
        Err(e) => Err(e.to_string()),
    }
}

} // verus!
