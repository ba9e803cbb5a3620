//! The silences that are in force, chosen by pattern and shown as text.

use vstd::prelude::*;
use vstd::string::*;
use crate::json::{json_views, Json, JsonView};
use crate::pattern::{filter_of, Filter, FilterView};
use crate::text::{as_str_of, decimal_text, opt_text, to_decimal};

verus! {

/// One silence as the server lists it.
#[derive(Debug, Clone, PartialEq, Eq)]
pub struct Silence {
    /// What is silenced: a subscription, a client after `client:`, or `all`.
    pub subscription: String,
    /// The check that is silenced, or `all`.
    pub check: String,
    /// The seconds until the silence ends, where it has a time limit.
    pub expire: Option<u64>,
    /// Whether the silence ends when the check resolves.
    pub expire_on_resolve: bool,
    /// Who made the silence, or `unknown`.
    pub creator: String,
}

/// The mathematical value of a `Silence`.
pub struct SilenceView {
    pub subscription: Seq<char>,
    pub check: Seq<char>,
    pub expire: Option<nat>,
    pub expire_on_resolve: bool,
    pub creator: Seq<char>,
}

impl View for Silence {
    type V = SilenceView;

    open spec fn view(&self) -> SilenceView {
        SilenceView {
            subscription: self.subscription@,
            check: self.check@,
            expire: match self.expire {
                Some(n) => Some(n as nat),
                None => None,
            },
            expire_on_resolve: self.expire_on_resolve,
            creator: self.creator@,
        }
    }
}

/// The values of a sequence of silences.
pub open spec fn silence_views(v: Seq<Silence>) -> Seq<SilenceView> {
    v.map_values(|s: Silence| s@)
}

/// The text of the member `key` of `entry`, or `default` where it has no
/// such member or the member is no string.
pub open spec fn text_or(entry: JsonView, key: Seq<char>, default: Seq<char>) -> Seq<char> {
    match entry.text_member(key) {
        Some(t) => t,
        None => default,
    }
}

/// The silence that an entry of the server's list describes; `None` where
/// the entry is no object. A subscription or a check that is missing reads
/// as `all`, a creator that is missing as `unknown`.
pub open spec fn silence_of(entry: JsonView) -> Option<SilenceView> {
    if entry is Object {
        Some(
            SilenceView {
                subscription: text_or(entry, "subscription"@, "all"@),
                check: text_or(entry, "check"@, "all"@),
                expire: match entry.member("expire"@) {
                    Some(JsonView::Number(n)) => Some(n),
                    _ => None,
                },
                expire_on_resolve: entry.member("expire_on_resolve"@) == Some(JsonView::Bool(true)),
                creator: text_or(entry, "creator"@, "unknown"@),
            },
        )
    } else {
        None
    }
}

/// The silence of `entry` where it is one that passes both filters: its
/// subscription the one, and its check the other.
pub open spec fn choice(sub: FilterView, chk: FilterView) -> spec_fn(JsonView) -> Option<
    SilenceView,
> {
    |entry: JsonView|
        match silence_of(entry) {
            Some(s) => if sub.accepts(s.subscription) && chk.accepts(s.check) {
                Some(s)
            } else {
                None
            },
            None => None,
        }
}

/// The silences among `entries` that pass both filters, in the order of the
/// entries.
pub open spec fn selected(entries: Seq<JsonView>, sub: FilterView, chk: FilterView) -> Seq<
    SilenceView,
> {
    entries.filter_map(choice(sub, chk))
}

impl SilenceView {
    /// When the silence ends, in words: never where it has no time limit,
    /// else on resolve where it ends when the check resolves, else after
    /// its seconds.
    pub open spec fn expiry(self) -> Seq<char> {
        match self.expire {
            None => "never"@,
            Some(n) => if self.expire_on_resolve {
                "on resolve"@
            } else {
                "in "@ + decimal_text(n) + " seconds"@
            },
        }
    }

    /// The lines that show the silence, after a blank line; with its
    /// creator where `with_creator` asks for it.
    pub open spec fn text(self, with_creator: bool) -> Seq<char> {
        "\n\n\tSubscription: "@ + self.subscription + "\n\tCheck: "@ + self.check
            + "\n\tExpires "@ + self.expiry() + (if with_creator {
            "\n\tCreator: "@ + self.creator
        } else {
            Seq::empty()
        })
    }
}

/// The texts of `silences`, one after another.
pub open spec fn entries_text(silences: Seq<SilenceView>, with_creator: bool) -> Seq<char>
    decreases silences.len(),
{
    if silences.len() == 0 {
        Seq::empty()
    } else {
        entries_text(silences.drop_last(), with_creator) + silences.last().text(with_creator)
    }
}

/// The text that shows `silences` under a heading; `None` where there are
/// none.
pub open spec fn listing_text(silences: Seq<SilenceView>, with_creator: bool) -> Option<
    Seq<char>,
> {
    if silences.len() == 0 {
        None
    } else {
        Some("Active silences:"@ + entries_text(silences, with_creator))
    }
}

fn owned_or(found: Option<&String>, default: &str) -> (s: String)
    ensures
        s@ == match found {
            Some(t) => t@,
            None => default@,
        },
{
    match found {
        Some(t) => t.clone(),
        None => String::from_str(default),
    }
}

impl Silence {
    /// Reads a silence out of an entry of the server's list.
    pub fn from_json(entry: &Json) -> (r: Option<Silence>)
        ensures
            match r {
                Some(s) => silence_of(entry@) == Some(s@),
                None => silence_of(entry@) is None,
            },
    {
        match entry {
            Json::Object(_) => {},
            _ => {
                return None;
            },
        }
        let expire = match entry.get("expire") {
            Some(j) => j.as_u64(),
            None => None,
        };
        let expire_on_resolve = match entry.get("expire_on_resolve") {
            Some(j) => match j.as_bool() {
                Some(b) => b,
                None => false,
            },
            None => false,
        };
        Some(
            Silence {
                subscription: owned_or(entry.text_member("subscription"), "all"),
                check: owned_or(entry.text_member("check"), "all"),
                expire,
                expire_on_resolve,
                creator: owned_or(entry.text_member("creator"), "unknown"),
            },
        )
    }

    /// When the silence ends, in words.
    pub fn expiry(&self) -> (s: String)
        ensures
            s@ == self@.expiry(),
    {
        match self.expire {
            None => String::from_str("never"),
            Some(n) => {
                if self.expire_on_resolve {
                    String::from_str("on resolve")
                } else {
                    let mut s = String::from_str("in ");
                    s.append(to_decimal(n).as_str());
                    s.append(" seconds");
                    s
                }
            },
        }
    }

    /// The lines that show the silence, after a blank line.
    pub fn to_text(&self, with_creator: bool) -> (s: String)
        ensures
            s@ == self@.text(with_creator),
    {
        let mut s = String::from_str("\n\n\tSubscription: ");
        s.append(self.subscription.as_str());
        s.append("\n\tCheck: ");
        s.append(self.check.as_str());
        s.append("\n\tExpires ");
        s.append(self.expiry().as_str());
        if with_creator {
            s.append("\n\tCreator: ");
            s.append(self.creator.as_str());
        }
        s
    }
}

/// Picks the silences among `entries` that pass both filters.
pub fn select(entries: &Vec<Json>, sub: &Filter, chk: &Filter) -> (kept: Vec<Silence>)
    ensures
        silence_views(kept@) == selected(json_views(entries@), sub@, chk@),
{
    let ghost views = json_views(entries@);
    let ghost pick = choice(sub@, chk@);
    let mut kept: Vec<Silence> = Vec::new();
    let mut i: usize = 0;
    while i < entries.len()
        invariant
            i <= entries.len(),
            views == json_views(entries@),
            pick == choice(sub@, chk@),
            silence_views(kept@) == views.take(i as int).filter_map(pick),
        decreases entries.len() - i,
    {
        assert(views.take(i + 1).drop_last() == views.take(i as int));
        if let Some(s) = Silence::from_json(&entries[i]) {
            if sub.accepts(s.subscription.as_str()) && chk.accepts(s.check.as_str()) {
                kept.push(s);
            }
        }
        i += 1;
    }
    assert(views.take(entries.len() as int) == views);
    kept
}

/// Shows `silences` under a heading; `None` where there are none.
pub fn render(silences: &Vec<Silence>, with_creator: bool) -> (r: Option<String>)
    ensures
        match r {
            Some(s) => listing_text(silence_views(silences@), with_creator) == Some(s@),
            None => listing_text(silence_views(silences@), with_creator) is None,
        },
{
    if silences.len() == 0 {
        return None;
    }
    let ghost all = silence_views(silences@);
    let mut s = String::from_str("Active silences:");
    let mut i: usize = 0;
    while i < silences.len()
        invariant
            i <= silences.len(),
            all == silence_views(silences@),
            s@ == "Active silences:"@ + entries_text(all.take(i as int), with_creator),
        decreases silences.len() - i,
    {
        assert(all.take(i + 1).drop_last() == all.take(i as int));
        s.append(silences[i].to_text(with_creator).as_str());
        i += 1;
    }
    assert(all.take(silences.len() as int) == all);
    Some(s)
}

/// Shows the silences among `vec` whose subscription matches `sub` and
/// whose check matches `chk`, without their creators; `None` where none
/// does. A pattern that is absent or is no valid expression lets every
/// text pass.
pub fn filter_vec(vec: Vec<Json>, sub: Option<String>, chk: Option<String>) -> (r: Option<String>)
    ensures
        match r {
            Some(s) => Some(s@),
            None => None,
        } == listing_text(
            selected(
                json_views(vec@),
                filter_of(opt_text(sub)),
                filter_of(opt_text(chk)),
            ),
            false,
        ),
{
    let (by_sub, _) = Filter::new(as_str_of(&sub));
    let (by_chk, _) = Filter::new(as_str_of(&chk));
    let kept = select(&vec, &by_sub, &by_chk);
    render(&kept, false)
}

} // verus!
