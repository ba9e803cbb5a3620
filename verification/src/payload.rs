//! The body of a request that creates or clears a silence.

use vstd::prelude::*;
use vstd::string::*;
use crate::err::SensuError;
use crate::expire::Expire;
use crate::json::{value_view, JsonView};
use crate::text::copy_of;

verus! {

/// The value of one member of a request body.
#[derive(Debug, Clone, PartialEq, Eq)]
pub enum Field {
    /// A string.
    Text(String),
    /// A boolean.
    Flag(bool),
    /// A non-negative integer.
    Count(u64),
}

impl View for Field {
    type V = JsonView;

    open spec fn view(&self) -> JsonView {
        match self {
            Field::Text(s) => JsonView::String(s@),
            Field::Flag(b) => JsonView::Bool(*b),
            Field::Count(n) => JsonView::Number(*n as nat),
        }
    }
}

/// The names and values of a sequence of members.
pub open spec fn field_views(fields: Seq<(String, Field)>) -> Seq<(Seq<char>, JsonView)> {
    fields.map_values(|f: (String, Field)| (f.0@, f.1@))
}

/// The names and values of a sequence of members that hold `serde_json`
/// values.
pub open spec fn entry_views(entries: Seq<(String, serde_json::Value)>) -> Seq<
    (Seq<char>, JsonView),
> {
    entries.map_values(|e: (String, serde_json::Value)| (e.0@, value_view(e.1)))
}

/// Whether `v` is a value that a member of a request body holds: a string,
/// a boolean or a non-negative integer. Such a value is all that the
/// `serde_json::Value` with this view holds.
pub open spec fn is_plain(v: JsonView) -> bool {
    v is String || v is Bool || v is Number
}

/// Whether every member holds a string, a boolean or a non-negative
/// integer.
pub open spec fn all_plain(members: Seq<(Seq<char>, JsonView)>) -> bool {
    forall|i: int| 0 <= i < members.len() ==> is_plain(#[trigger] members[i].1)
}

/// The text that `serde_json::to_string` writes for the object made of these
/// members, each of which holds a string, a boolean or a non-negative
/// integer.
pub uninterp spec fn json_text(members: Seq<(Seq<char>, JsonView)>) -> Seq<char>;

/// Makes the `serde_json::Value` for `f`: `Value::String`, `Value::Bool`,
/// or `Value::Number` of `serde_json::Number::from`. The contract says that
/// the value holds what the field holds.
#[verifier::external_body]
fn field_value(f: &Field) -> (v: serde_json::Value)
    ensures
        value_view(v) == f@,
{
    match f {
        Field::Text(s) => serde_json::Value::String(s.clone()),
        Field::Flag(b) => serde_json::Value::Bool(*b),
        Field::Count(n) => serde_json::Value::Number(serde_json::Number::from(*n)),
    }
}

/// Collects the members into a `serde_json::Map` and calls
/// `serde_json::to_string` on it. It is for members that hold a string, a
/// boolean or a non-negative integer: of those the view is all there is, so
/// that the contract can name the text written, and the writer, which
/// writes into memory and fails on no such value, always succeeds.
#[verifier::external_body]
fn object_text(entries: Vec<(String, serde_json::Value)>) -> (r: Result<
    String,
    serde_json::Error,
>)
    requires
        all_plain(entry_views(entries@)),
    ensures
        r is Ok,
        r matches Ok(s) ==> s@ == json_text(entry_views(entries@)),
{
    serde_json::to_string(
        &entries.into_iter().collect::<serde_json::Map<String, serde_json::Value>>(),
    )
}

/// The members of a request body hold nothing but strings, booleans and
/// non-negative integers.
pub proof fn lemma_fields_are_plain(fields: Seq<(String, Field)>)
    ensures
        all_plain(field_views(fields)),
{
}

/// Writes the members as the text of one JSON object. It always succeeds:
/// the error is the writer's, and the writer refuses no member.
pub fn encode(fields: &Vec<(String, Field)>) -> (r: Result<String, SensuError>)
    ensures
        r is Ok,
        r matches Ok(s) ==> s@ == json_text(field_views(fields@)),
{
    let mut entries: Vec<(String, serde_json::Value)> = Vec::new();
    let mut i: usize = 0;
    while i < fields.len()
        invariant
            i <= fields.len(),
            entry_views(entries@) == field_views(fields@).take(i as int),
        decreases fields.len() - i,
    {
        let entry = (fields[i].0.clone(), field_value(&fields[i].1));
        assert(entry_views(entries@.push(entry)) == entry_views(entries@).push(
            (entry.0@, value_view(entry.1)),
        ));
        entries.push(entry);
        i += 1;
    }
    assert(field_views(fields@).take(fields.len() as int) == field_views(fields@));
    proof {
        lemma_fields_are_plain(fields@);
    }
    match object_text(entries) {
        Ok(s) => Ok(s),
        Err(e) => Err(SensuError::Message(e.to_string())),
    }
}

/// What one request asks to silence or to clear.
#[derive(Debug, Clone, PartialEq, Eq)]
pub struct SensuPayload {
    /// The resource in its wire form; every resource where absent.
    pub res: Option<String>,
    /// The check; every check where absent.
    pub chk: Option<String>,
    /// The expiration policy; absent in a request that clears.
    pub expire: Option<Expire>,
}

/// The mathematical value of a `SensuPayload`.
pub struct PayloadView {
    pub res: Option<Seq<char>>,
    pub chk: Option<Seq<char>>,
    pub expire: Option<Expire>,
}

impl View for SensuPayload {
    type V = PayloadView;

    open spec fn view(&self) -> PayloadView {
        PayloadView {
            res: match self.res {
                Some(s) => Some(s@),
                None => None,
            },
            chk: match self.chk {
                Some(s) => Some(s@),
                None => None,
            },
            expire: self.expire,
        }
    }
}

/// The values of a sequence of payloads.
pub open spec fn payload_views(v: Seq<SensuPayload>) -> Seq<PayloadView> {
    v.map_values(|p: SensuPayload| p@)
}

impl PayloadView {
    /// The members that say which resource and check are meant.
    pub open spec fn target_members(self) -> Seq<(Seq<char>, JsonView)> {
        (match self.res {
            Some(r) => seq![("subscription"@, JsonView::String(r))],
            None => seq![],
        }) + (match self.chk {
            Some(c) => seq![("check"@, JsonView::String(c))],
            None => seq![],
        })
    }

    /// The members that say when the silence ends. A silence without a time
    /// limit has no `expire`, and `expire_on_resolve` is written only where
    /// it is true.
    pub open spec fn expire_members(self) -> Seq<(Seq<char>, JsonView)> {
        match self.expire {
            Some(Expire::Expire(n, on_resolve)) => seq![("expire"@, JsonView::Number(n as nat))]
                + (if on_resolve {
                seq![("expire_on_resolve"@, JsonView::Bool(true))]
            } else {
                seq![]
            }),
            Some(Expire::NoExpiration(true)) => seq![
                ("expire_on_resolve"@, JsonView::Bool(true)),
            ],
            _ => seq![],
        }
    }

    /// The members of the request body: the creator first, then the target,
    /// then the expiration.
    pub open spec fn members(self, creator: Seq<char>) -> Seq<(Seq<char>, JsonView)> {
        seq![("creator"@, JsonView::String(creator))] + self.target_members()
            + self.expire_members()
    }
}

impl SensuPayload {
    /// A copy of this payload.
    pub fn duplicate(&self) -> (p: Self)
        ensures
            p@ == self@,
    {
        SensuPayload { res: copy_of(&self.res), chk: copy_of(&self.chk), expire: self.expire }
    }

    /// The members of the request body for this payload, made in the name of
    /// `creator`.
    pub fn into_fields(self, creator: String) -> (fields: Vec<(String, Field)>)
        ensures
            field_views(fields@) == self@.members(creator@),
    {
        let mut fields: Vec<(String, Field)> = Vec::new();
        fields.push((String::from_str("creator"), Field::Text(creator)));
        if let Some(r) = self.res {
            fields.push((String::from_str("subscription"), Field::Text(r)));
        }
        if let Some(c) = self.chk {
            fields.push((String::from_str("check"), Field::Text(c)));
        }
        match self.expire {
            Some(Expire::Expire(n, on_resolve)) => {
                fields.push((String::from_str("expire"), Field::Count(n as u64)));
                if on_resolve {
                    fields.push((String::from_str("expire_on_resolve"), Field::Flag(true)));
                }
            },
            Some(Expire::NoExpiration(true)) => {
                fields.push((String::from_str("expire_on_resolve"), Field::Flag(true)));
            },
            _ => {},
        }
        fields
    }
}

} // verus!
