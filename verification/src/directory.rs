//! What a listing of the server's clients says: which client runs on which
//! fleet node, and which subscriptions exist.

use vstd::prelude::*;
use vstd::string::*;
use crate::json::{json_views, opt_view, Json, JsonView};
use crate::text::texts;

verus! {

/// The texts of a sequence of pairs of strings.
pub open spec fn pair_texts(entries: Seq<(String, String)>) -> Seq<(Seq<char>, Seq<char>)> {
    entries.map_values(|e: (String, String)| (e.0@, e.1@))
}

/// The map that a sequence of pairs spells, a later pair replacing an
/// earlier one with the same key.
pub open spec fn map_of(pairs: Seq<(Seq<char>, Seq<char>)>) -> Map<Seq<char>, Seq<char>>
    decreases pairs.len(),
{
    if pairs.len() == 0 {
        Map::empty()
    } else {
        map_of(pairs.drop_last()).insert(pairs.last().0, pairs.last().1)
    }
}

/// The client names of a listing by fleet node. It is made from one listing
/// and used up as nodes are looked for: a node that was found is taken out.
pub struct ClientDirectory {
    entries: Vec<(String, String)>,
}

impl View for ClientDirectory {
    type V = Map<Seq<char>, Seq<char>>;

    closed spec fn view(&self) -> Map<Seq<char>, Seq<char>> {
        map_of(pair_texts(self.entries@))
    }
}

impl ClientDirectory {
    /// A directory without entries.
    pub fn new() -> (d: Self)
        ensures
            d@ == Map::<Seq<char>, Seq<char>>::empty(),
    {
        let d = ClientDirectory { entries: Vec::new() };
        d
    }

    /// Records that `client` runs on `node`, in place of what was recorded
    /// for `node` before.
    pub fn insert(&mut self, node: String, client: String)
        ensures
            final(self)@ == old(self)@.insert(node@, client@),
    {
        let ghost before = pair_texts(self.entries@);
        self.entries.push((node, client));
        assert(pair_texts(self.entries@).drop_last() == before);
    }

    /// Takes the entry of `node` out and returns its client, if there is one.
    pub fn remove(&mut self, node: &str) -> (r: Option<String>)
        ensures
            match r {
                Some(c) => old(self)@.contains_key(node@) && c@ == old(self)@[node@],
                None => !old(self)@.contains_key(node@),
            },
            final(self)@ == old(self)@.remove(node@),
    {
        let wanted = String::from_str(node);
        let mut kept: Vec<(String, String)> = Vec::new();
        let mut found: Option<String> = None;
        let mut i: usize = 0;
        while i < self.entries.len()
            invariant
                i <= self.entries.len(),
                wanted@ == node@,
                *self == *old(self),
                map_of(pair_texts(kept@)) == map_of(pair_texts(self.entries@.take(i as int))).remove(
                    node@,
                ),
                match found {
                    Some(c) => map_of(pair_texts(self.entries@.take(i as int))).contains_key(node@)
                        && c@ == map_of(pair_texts(self.entries@.take(i as int)))[node@],
                    None => !map_of(pair_texts(self.entries@.take(i as int))).contains_key(node@),
                },
            decreases self.entries.len() - i,
        {
            let ghost seen = pair_texts(self.entries@.take(i as int));
            let ghost next = pair_texts(self.entries@.take(i + 1));
            assert(next.drop_last() == seen);
            if self.entries[i].0 == wanted {
                found = Some(self.entries[i].1.clone());
            } else {
                let entry = (self.entries[i].0.clone(), self.entries[i].1.clone());
                let ghost kept_before = pair_texts(kept@);
                kept.push(entry);
                assert(pair_texts(kept@).drop_last() == kept_before);
            }
            i += 1;
        }
        assert(self.entries@.take(self.entries.len() as int) == self.entries@);
        self.entries = kept;
        found
    }
}

/// The directory that a sequence of client objects spells. An object counts
/// where both its `instance_id` and its `name` are strings; a later object
/// replaces an earlier one on the same node.
pub open spec fn directory_entries(clients: Seq<JsonView>) -> Map<Seq<char>, Seq<char>>
    decreases clients.len(),
{
    if clients.len() == 0 {
        Map::empty()
    } else {
        let before = directory_entries(clients.drop_last());
        match (
            clients.last().text_member("instance_id"@),
            clients.last().text_member("name"@),
        ) {
            (Some(node), Some(name)) => before.insert(node, name),
            _ => before,
        }
    }
}

/// The directory that a listing spells: that of its client objects where it
/// is an array, and an empty one where it is anything else.
pub open spec fn directory_of(listing: Option<JsonView>) -> Map<Seq<char>, Seq<char>> {
    match listing {
        Some(JsonView::Array(clients)) => directory_entries(clients),
        _ => Map::empty(),
    }
}

impl ClientDirectory {
    /// Reads the directory out of a listing of clients.
    pub fn from_listing(listing: &Option<Json>) -> (d: Self)
        ensures
            d@ == directory_of(opt_view(*listing)),
    {
        let mut d = ClientDirectory::new();
        let clients = match listing {
            Some(j) => match j.as_array() {
                Some(clients) => clients,
                None => {
                    return d;
                },
            },
            None => {
                return d;
            },
        };
        let ghost views = json_views(clients@);
        let mut i: usize = 0;
        while i < clients.len()
            invariant
                i <= clients.len(),
                views == json_views(clients@),
                d@ == directory_entries(views.take(i as int)),
            decreases clients.len() - i,
        {
            assert(views.take(i + 1).drop_last() == views.take(i as int));
            let node = clients[i].text_member("instance_id");
            let name = clients[i].text_member("name");
            match (node, name) {
                (Some(node), Some(name)) => {
                    d.insert(node.clone(), name.clone());
                },
                _ => {},
            }
            i += 1;
        }
        assert(views.take(clients.len() as int) == views);
        d
    }
}

/// The strings among the elements of an array.
pub open spec fn names_in(elements: Seq<JsonView>) -> Set<Seq<char>>
    decreases elements.len(),
{
    if elements.len() == 0 {
        Set::empty()
    } else {
        match elements.last() {
            JsonView::String(t) => names_in(elements.drop_last()).insert(t),
            _ => names_in(elements.drop_last()),
        }
    }
}

/// The subscriptions of one client object: the strings in its
/// `subscriptions` array, and none where it has no such array.
pub open spec fn subscriptions_of(client: JsonView) -> Set<Seq<char>> {
    match client.member("subscriptions"@) {
        Some(JsonView::Array(elements)) => names_in(elements),
        _ => Set::empty(),
    }
}

/// The subscriptions of all the client objects together.
pub open spec fn known_subscriptions(clients: Seq<JsonView>) -> Set<Seq<char>>
    decreases clients.len(),
{
    if clients.len() == 0 {
        Set::empty()
    } else {
        known_subscriptions(clients.drop_last()).union(subscriptions_of(clients.last()))
    }
}

/// The names of the server's subscriptions, as one listing shows them.
pub struct SubscriptionSet {
    names: Vec<String>,
}

/// The set of the texts in `names`.
pub open spec fn set_of(names: Seq<Seq<char>>) -> Set<Seq<char>>
    decreases names.len(),
{
    if names.len() == 0 {
        Set::empty()
    } else {
        set_of(names.drop_last()).insert(names.last())
    }
}

/// A text is in `set_of` exactly when it is one of the names.
pub proof fn lemma_set_of(names: Seq<Seq<char>>, t: Seq<char>)
    ensures
        set_of(names).contains(t) <==> names.contains(t),
    decreases names.len(),
{
    if names.len() > 0 {
        lemma_set_of(names.drop_last(), t);
        if names.drop_last().contains(t) {
            let i = choose|i: int| 0 <= i < names.drop_last().len() && names.drop_last()[i] == t;
        }
        if names.contains(t) && names.last() != t {
            let i = choose|i: int| 0 <= i < names.len() && names[i] == t;
            assert(names.drop_last()[i] == t);
        }
    }
}

impl View for SubscriptionSet {
    type V = Set<Seq<char>>;

    closed spec fn view(&self) -> Set<Seq<char>> {
        set_of(texts(self.names@))
    }
}

impl SubscriptionSet {
    /// A set without names.
    pub fn new() -> (s: Self)
        ensures
            s@ == Set::<Seq<char>>::empty(),
    {
        let s = SubscriptionSet { names: Vec::new() };
        s
    }

    /// Adds `name`.
    pub fn insert(&mut self, name: String)
        ensures
            final(self)@ == old(self)@.insert(name@),
    {
        let ghost before = texts(self.names@);
        self.names.push(name);
        assert(texts(self.names@).drop_last() == before);
    }

    /// Adds the strings among `elements`.
    pub fn extend(&mut self, elements: &Vec<Json>)
        ensures
            final(self)@ == old(self)@.union(names_in(json_views(elements@))),
    {
        let ghost views = json_views(elements@);
        let mut i: usize = 0;
        while i < elements.len()
            invariant
                i <= elements.len(),
                views == json_views(elements@),
                self@ == old(self)@.union(names_in(views.take(i as int))),
            decreases elements.len() - i,
        {
            assert(views.take(i + 1).drop_last() == views.take(i as int));
            if let Some(name) = elements[i].as_str() {
                self.insert(name.clone());
            }
            i += 1;
        }
        assert(views.take(elements.len() as int) == views);
    }

    /// Reads the subscriptions out of the client objects of a listing.
    pub fn from_clients(clients: &Vec<Json>) -> (s: Self)
        ensures
            s@ == known_subscriptions(json_views(clients@)),
    {
        let mut s = SubscriptionSet::new();
        let ghost views = json_views(clients@);
        let mut i: usize = 0;
        while i < clients.len()
            invariant
                i <= clients.len(),
                views == json_views(clients@),
                s@ == known_subscriptions(views.take(i as int)),
            decreases clients.len() - i,
        {
            assert(views.take(i + 1).drop_last() == views.take(i as int));
            if let Some(member) = clients[i].get("subscriptions") {
                if let Some(elements) = member.as_array() {
                    s.extend(elements);
                }
            }
            i += 1;
        }
        assert(views.take(clients.len() as int) == views);
        s
    }

    /// Whether `name` is in the set.
    pub fn contains(&self, name: &String) -> (b: bool)
        ensures
            b == self@.contains(name@),
    {
        let ghost all = texts(self.names@);
        proof {
            lemma_set_of(all, name@);
        }
        let mut i: usize = 0;
        while i < self.names.len()
            invariant
                i <= self.names.len(),
                all == texts(self.names@),
                self@.contains(name@) <==> all.contains(name@),
                forall|k: int| 0 <= k < i ==> all[k] != name@,
            decreases self.names.len() - i,
        {
            if self.names[i] == *name {
                assert(all[i as int] == name@);
                return true;
            }
            i += 1;
        }
        false
    }
}

} // verus!
