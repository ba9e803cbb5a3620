//! What the operator names as the target of a silence.

use vstd::prelude::*;
use vstd::string::*;
use crate::text::{join, join_with, texts};

verus! {

/// How the identifiers of a target address the server's resources.
#[derive(PartialEq, Eq, Structural, Debug, Clone, Copy)]
pub enum ShushResourceType {
    /// Fleet nodes, by the provider's instance identifier.
    Node,
    /// Monitoring clients, by name.
    Client,
    /// Subscriptions, by name.
    Sub,
}

impl ShushResourceType {
    /// The words that introduce a list of identifiers of this kind.
    pub open spec fn label(self) -> Seq<char> {
        match self {
            ShushResourceType::Node => "Instance IDs: "@,
            ShushResourceType::Client => "Sensu clients: "@,
            ShushResourceType::Sub => "Subscriptions: "@,
        }
    }
}

/// The identifiers that the operator named, and their kind. A command that
/// names none addresses every resource and carries no value of this type.
#[derive(PartialEq, Eq, Debug)]
pub struct ShushResources {
    /// The kind of the identifiers.
    pub res_type: ShushResourceType,
    /// The identifiers, in the order given.
    pub resources: Vec<String>,
}

impl ShushResources {
    /// The identifiers as texts.
    pub open spec fn names(&self) -> Seq<Seq<char>> {
        texts(self.resources@)
    }

    /// A target names at least one identifier.
    pub open spec fn wf(&self) -> bool {
        self.resources.len() > 0
    }

    /// The line that shows the target: its kind, then the identifiers with
    /// commas between them.
    pub open spec fn text(&self) -> Seq<char> {
        self.res_type.label() + join_with(self.names(), ", "@)
    }

    /// The line that shows the target; `None` where it names no identifier.
    pub fn to_text(&self) -> (r: Option<String>)
        ensures
            match r {
                Some(s) => self.wf() && s@ == self.text(),
                None => !self.wf(),
            },
    {
        if self.resources.len() == 0 {
            return None;
        }
        let mut s = match self.res_type {
            ShushResourceType::Node => String::from_str("Instance IDs: "),
            ShushResourceType::Client => String::from_str("Sensu clients: "),
            ShushResourceType::Sub => String::from_str("Subscriptions: "),
        };
        s.append(join(&self.resources, ", ").as_str());
        Some(s)
    }

    /// Hands the identifiers out one by one, in order.
    pub fn into_iter(self) -> (it: ShushResourceIterator)
        ensures
            it.remaining() == self.names(),
    {
        ShushResourceIterator { items: self.resources, next: 0 }
    }
}

/// The identifiers of a target that have not been handed out yet.
pub struct ShushResourceIterator {
    items: Vec<String>,
    next: usize,
}

impl ShushResourceIterator {
    /// The identifiers still to come, in order.
    pub closed spec fn remaining(&self) -> Seq<Seq<char>> {
        if self.next <= self.items.len() {
            texts(self.items@.skip(self.next as int))
        } else {
            Seq::empty()
        }
    }

    /// The next identifier, or `None` when all have been handed out.
    pub fn next(&mut self) -> (r: Option<String>)
        ensures
            match r {
                Some(s) => old(self).remaining().len() > 0 && s@ == old(self).remaining()[0]
                    && final(self).remaining() == old(self).remaining().drop_first(),
                None => old(self).remaining().len() == 0 && final(self).remaining()
                    == old(self).remaining(),
            },
    {
        if self.next < self.items.len() {
            let s = self.items[self.next].clone();
            self.next = self.next + 1;
            Some(s)
        } else {
            None
        }
    }
}

} // verus!
