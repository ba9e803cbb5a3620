//! JSON documents as the library reads and writes them.

use vstd::prelude::*;
use vstd::string::*;
use crate::text::{split, split_on, texts};

verus! {

/// A JSON value.
#[derive(Debug, PartialEq, Eq)]
pub enum Json {
    /// `null`.
    Null,
    /// `true` or `false`.
    Bool(bool),
    /// A non-negative integer that fits 64 bits.
    Number(u64),
    /// A number of any other kind, negative or fractional; its value is
    /// not kept.
    Other,
    /// A string.
    String(String),
    /// An array.
    Array(Vec<Json>),
    /// An object, as its members in the order in which the reader hands
    /// them out.
    Object(Vec<(String, Json)>),
}

/// The mathematical value of a `Json`.
pub enum JsonView {
    Null,
    Bool(bool),
    Number(nat),
    Other,
    String(Seq<char>),
    Array(Seq<JsonView>),
    Object(Seq<(Seq<char>, JsonView)>),
}

/// The value of `j`.
pub open spec fn json_view(j: Json) -> JsonView
    decreases j, 0nat,
{
    match j {
        Json::Null => JsonView::Null,
        Json::Bool(b) => JsonView::Bool(b),
        Json::Number(n) => JsonView::Number(n as nat),
        Json::Other => JsonView::Other,
        Json::String(s) => JsonView::String(s@),
        Json::Array(items) => JsonView::Array(items_view(items, items.len() as nat)),
        Json::Object(members) => JsonView::Object(members_view(members, members.len() as nat)),
    }
}

/// The values of the first `n` of `items`.
pub open spec fn items_view(items: Vec<Json>, n: nat) -> Seq<JsonView>
    decreases items, n,
{
    if n == 0 || n > items.len() {
        Seq::empty()
    } else {
        items_view(items, (n - 1) as nat).push(json_view(items[n - 1]))
    }
}

/// The names and values of the first `n` of `members`.
pub open spec fn members_view(members: Vec<(String, Json)>, n: nat) -> Seq<(Seq<char>, JsonView)>
    decreases members, n,
{
    if n == 0 || n > members.len() {
        Seq::empty()
    } else {
        members_view(members, (n - 1) as nat).push(
            (members[n - 1].0@, json_view(members[n - 1].1)),
        )
    }
}

impl View for Json {
    type V = JsonView;

    open spec fn view(&self) -> JsonView {
        json_view(*self)
    }
}

/// The value of an array holds the values of its items, one for one.
pub proof fn lemma_items_view(items: Vec<Json>, n: nat)
    requires
        n <= items.len(),
    ensures
        items_view(items, n).len() == n,
        forall|i: int| 0 <= i < n ==> items_view(items, n)[i] == #[trigger] items[i]@,
    decreases n,
{
    if n > 0 {
        lemma_items_view(items, (n - 1) as nat);
    }
}

/// The value of an object holds the names and values of its members, one for one.
pub proof fn lemma_members_view(members: Vec<(String, Json)>, n: nat)
    requires
        n <= members.len(),
    ensures
        members_view(members, n).len() == n,
        forall|i: int|
            0 <= i < n ==> members_view(members, n)[i] == (
                #[trigger] members[i].0@,
                members[i].1@,
            ),
    decreases n,
{
    if n > 0 {
        lemma_members_view(members, (n - 1) as nat);
    }
}

/// `serde_json::Value`, carried through as a value that is not looked into.
#[verifier::external_type_specification]
#[verifier::external_body]
pub struct ExValue(serde_json::Value);

/// `serde_json::Error`, carried through to be shown.
#[verifier::external_type_specification]
#[verifier::external_body]
pub struct ExJsonError(serde_json::Error);

/// The document that `bytes` spell, as `serde_json::from_slice` reads it;
/// `None` where it reports an error.
pub uninterp spec fn json_document(bytes: Seq<u8>) -> Option<JsonView>;

/// What a `serde_json::Value` holds. A number is `Number` where
/// `serde_json::Number::as_u64` gives it, and `Other` where it does not.
pub uninterp spec fn value_view(v: serde_json::Value) -> JsonView;

/// Calls `serde_json::from_slice` for a `serde_json::Value`. The contract
/// names the document read, and says that an error comes exactly when there
/// is none.
#[verifier::external_body]
fn value_from_slice(bytes: &[u8]) -> (r: Result<serde_json::Value, serde_json::Error>)
    ensures
        match r {
            Ok(v) => json_document(bytes@) == Some(value_view(v)),
            Err(_) => json_document(bytes@) is None,
        },
{
    serde_json::from_slice::<serde_json::Value>(bytes)
}

/// Moves a `serde_json::Value` into a `Json`, variant by variant. The
/// contract says that nothing but the kind of a number is lost.
#[verifier::external_body]
fn json_from_value(v: serde_json::Value) -> (j: Json)
    ensures
        j@ == value_view(v),
{
    match v {
        serde_json::Value::Null => Json::Null,
        serde_json::Value::Bool(b) => Json::Bool(b),
        serde_json::Value::Number(n) => n.as_u64().map_or(Json::Other, Json::Number),
        serde_json::Value::String(s) => Json::String(s),
        serde_json::Value::Array(a) => Json::Array(a.into_iter().map(json_from_value).collect()),
        serde_json::Value::Object(o) => Json::Object(
            o.into_iter().map(|(k, v)| (k, json_from_value(v))).collect(),
        ),
    }
}

/// The values of a sequence of documents.
pub open spec fn json_views(items: Seq<Json>) -> Seq<JsonView> {
    items.map_values(|j: Json| j@)
}

/// The value of a document that may be absent.
pub open spec fn opt_view(j: Option<Json>) -> Option<JsonView> {
    match j {
        Some(j) => Some(j@),
        None => None,
    }
}

impl JsonView {
    /// The first member named `key` among `members`.
    pub open spec fn lookup(members: Seq<(Seq<char>, JsonView)>, key: Seq<char>) -> Option<
        JsonView,
    >
        decreases members.len(),
    {
        if members.len() == 0 {
            None
        } else if members[0].0 == key {
            Some(members[0].1)
        } else {
            Self::lookup(members.drop_first(), key)
        }
    }

    /// The member named `key`, if this is an object that has one.
    pub open spec fn member(self, key: Seq<char>) -> Option<JsonView> {
        match self {
            JsonView::Object(members) => Self::lookup(members, key),
            _ => None,
        }
    }

    /// The text of the member named `key`, if it is a string.
    pub open spec fn text_member(self, key: Seq<char>) -> Option<Seq<char>> {
        match self.member(key) {
            Some(JsonView::String(s)) => Some(s),
            _ => None,
        }
    }

    /// The elements, if this is an array.
    pub open spec fn elements(self) -> Option<Seq<JsonView>> {
        match self {
            JsonView::Array(items) => Some(items),
            _ => None,
        }
    }
}

impl Json {
    /// Reads a JSON document. The error is the parser's message.
    pub fn parse(bytes: &[u8]) -> (r: Result<Json, String>)
        ensures
            match r {
                Ok(j) => json_document(bytes@) == Some(j@),
                Err(_) => json_document(bytes@) is None,
            },
    {
        match value_from_slice(bytes) {
            Ok(v) => Ok(json_from_value(v)),
            Err(e) => Err(e.to_string()),
        }
    }

    /// The member named `key`, if this is an object that has one.
    pub fn get(&self, key: &str) -> (r: Option<&Json>)
        ensures
            match r {
                Some(j) => self@.member(key@) == Some(j@),
                None => self@.member(key@) is None,
            },
    {
        match self {
            Json::Object(members) => {
                let wanted = String::from_str(key);
                let ghost all = self@->Object_0;
                proof {
                    lemma_members_view(*members, members.len() as nat);
                }
                assert(all.skip(0) == all);
                let mut i: usize = 0;
                while i < members.len()
                    invariant
                        i <= members.len(),
                        wanted@ == key@,
                        self@ == JsonView::Object(all),
                        all.len() == members.len(),
                        forall|k: int|
                            0 <= k < members.len() ==> all[k] == (
                                #[trigger] members[k].0@,
                                members[k].1@,
                            ),
                        JsonView::lookup(all, key@) == JsonView::lookup(all.skip(i as int), key@),
                    decreases members.len() - i,
                {
                    let ghost rest = all.skip(i as int);
                    assert(rest.drop_first() == all.skip(i + 1));
                    if members[i].0 == wanted {
                        return Some(&members[i].1);
                    }
                    i += 1;
                }
                None
            },
            _ => None,
        }
    }

    /// The text, if this is a string.
    pub fn as_str(&self) -> (r: Option<&String>)
        ensures
            match r {
                Some(s) => self@ == JsonView::String(s@),
                None => !(self@ is String),
            },
    {
        match self {
            Json::String(s) => Some(s),
            _ => None,
        }
    }

    /// The number, if this is a non-negative integer.
    pub fn as_u64(&self) -> (r: Option<u64>)
        ensures
            match r {
                Some(n) => self@ == JsonView::Number(n as nat),
                None => !(self@ is Number),
            },
    {
        match self {
            Json::Number(n) => Some(*n),
            _ => None,
        }
    }

    /// The truth value, if this is a boolean.
    pub fn as_bool(&self) -> (r: Option<bool>)
        ensures
            match r {
                Some(b) => self@ == JsonView::Bool(b),
                None => !(self@ is Bool),
            },
    {
        match self {
            Json::Bool(b) => Some(*b),
            _ => None,
        }
    }

    /// The elements, if this is an array.
    pub fn as_array(&self) -> (r: Option<&Vec<Json>>)
        ensures
            match r {
                Some(items) => self@.elements() == Some(json_views(items@)),
                None => self@.elements() is None,
            },
    {
        match self {
            Json::Array(items) => {
                proof {
                    lemma_items_view(*items, items.len() as nat);
                }
                Some(items)
            },
            _ => None,
        }
    }

    /// The text of the member named `key`, if it is a string.
    pub fn text_member(&self, key: &str) -> (r: Option<&String>)
        ensures
            match r {
                Some(s) => self@.text_member(key@) == Some(s@),
                None => self@.text_member(key@) is None,
            },
    {
        match self.get(key) {
            Some(j) => j.as_str(),
            None => None,
        }
    }
}

/// The value reached from `j` by going into the member named by each
/// part of `path` in turn; `None` where a member is missing on the way.
pub open spec fn descend(j: JsonView, path: Seq<Seq<char>>) -> Option<JsonView>
    decreases path.len(),
{
    if path.len() == 0 {
        Some(j)
    } else {
        match j.member(path[0]) {
            Some(m) => descend(m, path.drop_first()),
            None => None,
        }
    }
}

/// Looks up a key with dots in it: `a.b` is the member `b` of the member
/// `a`.
pub fn remove_fold<'a>(json: &'a Json, key: &str) -> (r: Option<&'a Json>)
    ensures
        match r {
            Some(j) => descend(json@, split_on(key@, '.')) == Some(j@),
            None => descend(json@, split_on(key@, '.')) is None,
        },
{
    let parts = split(key, '.');
    let ghost path = split_on(key@, '.');
    let mut current = json;
    let mut i: usize = 0;
    assert(path.skip(0) == path);
    while i < parts.len()
        invariant
            i <= parts.len(),
            path == texts(parts@),
            path == split_on(key@, '.'),
            descend(json@, path) == descend(current@, path.skip(i as int)),
        decreases parts.len() - i,
    {
        let ghost rest = path.skip(i as int);
        assert(rest.drop_first() == path.skip(i + 1));
        match current.get(parts[i].as_str()) {
            Some(m) => {
                current = m;
            },
            None => {
                return None;
            },
        }
        i += 1;
    }
    Some(current)
}

} // verus!
