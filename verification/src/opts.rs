//! What a command line asks for.

use vstd::prelude::*;
use vstd::string::*;
use crate::err::ConfigError;
use crate::expire::{expiration_of, get_expiration, Expire};
use crate::resources::{ShushResourceType, ShushResources};
use crate::text::{copy_of, opt_text, opt_texts, split, split_on};

verus! {

/// What to silence, and for how long.
#[derive(Debug, PartialEq, Eq)]
pub struct SilenceOpts {
    /// The target; every resource where absent.
    pub resources: Option<ShushResources>,
    /// The checks; every check where absent.
    pub checks: Option<Vec<String>>,
    /// When the silences end.
    pub expire: Expire,
}

/// Which silences to clear.
#[derive(Debug, PartialEq, Eq)]
pub struct ClearOpts {
    /// The target; every resource where absent.
    pub resources: Option<ShushResources>,
    /// The checks; every check where absent.
    pub checks: Option<Vec<String>>,
}

/// Which silences to list.
#[derive(Debug, PartialEq, Eq)]
pub struct ListOpts {
    /// A pattern for the subscription.
    pub sub: Option<String>,
    /// A pattern for the check.
    pub chk: Option<String>,
}

/// One command.
#[derive(Debug, PartialEq, Eq)]
pub enum ShushOpts {
    Silence(SilenceOpts),
    Clear(ClearOpts),
    List(ListOpts),
}

/// The kind and the identifiers of an optional target.
pub open spec fn opt_target(r: Option<ShushResources>) -> Option<
    (ShushResourceType, Seq<Seq<char>>),
> {
    match r {
        Some(r) => Some((r.res_type, r.names())),
        None => None,
    }
}

/// The mathematical value of a command.
pub enum OptsView {
    Silence {
        resources: Option<(ShushResourceType, Seq<Seq<char>>)>,
        checks: Option<Seq<Seq<char>>>,
        expire: Expire,
    },
    Clear { resources: Option<(ShushResourceType, Seq<Seq<char>>)>, checks: Option<Seq<Seq<char>>> },
    List { sub: Option<Seq<char>>, chk: Option<Seq<char>> },
}

impl View for ShushOpts {
    type V = OptsView;

    open spec fn view(&self) -> OptsView {
        match self {
            ShushOpts::Silence(s) => OptsView::Silence {
                resources: opt_target(s.resources),
                checks: opt_texts(s.checks),
                expire: s.expire,
            },
            ShushOpts::Clear(c) => OptsView::Clear {
                resources: opt_target(c.resources),
                checks: opt_texts(c.checks),
            },
            ShushOpts::List(l) => OptsView::List { sub: opt_text(l.sub), chk: opt_text(l.chk) },
        }
    }
}

/// The values of the flags of a command line.
#[derive(Debug, Clone, PartialEq, Eq)]
pub struct Args {
    /// Fleet nodes, with commas between them.
    pub nodes: Option<String>,
    /// Client names, with commas between them.
    pub ids: Option<String>,
    /// Subscriptions, with commas between them.
    pub subscriptions: Option<String>,
    /// Whether silences are to be cleared.
    pub remove: bool,
    /// Whether silences are to be listed.
    pub list: bool,
    /// Checks, with commas between them.
    pub checks: Option<String>,
    /// The expiration.
    pub expire: Option<String>,
    /// Whether silences end when the check resolves.
    pub expire_on_resolve: bool,
    /// The path of the configuration file.
    pub config_file: Option<String>,
}

/// The mathematical value of `Args`.
pub struct ArgsView {
    pub nodes: Option<Seq<char>>,
    pub ids: Option<Seq<char>>,
    pub subscriptions: Option<Seq<char>>,
    pub remove: bool,
    pub list: bool,
    pub checks: Option<Seq<char>>,
    pub expire: Option<Seq<char>>,
    pub expire_on_resolve: bool,
    pub config_file: Option<Seq<char>>,
}

impl View for Args {
    type V = ArgsView;

    open spec fn view(&self) -> ArgsView {
        ArgsView {
            nodes: opt_text(self.nodes),
            ids: opt_text(self.ids),
            subscriptions: opt_text(self.subscriptions),
            remove: self.remove,
            list: self.list,
            checks: opt_text(self.checks),
            expire: opt_text(self.expire),
            expire_on_resolve: self.expire_on_resolve,
            config_file: opt_text(self.config_file),
        }
    }
}

/// The pieces of an optional text between its commas.
pub open spec fn listed(value: Option<Seq<char>>) -> Option<Seq<Seq<char>>> {
    match value {
        Some(v) => Some(split_on(v, ',')),
        None => None,
    }
}

impl ArgsView {
    /// The value of the flag that is called `option`.
    pub open spec fn value(self, option: Seq<char>) -> Option<Seq<char>> {
        if option == "nodes"@ {
            self.nodes
        } else if option == "ids"@ {
            self.ids
        } else if option == "subscriptions"@ {
            self.subscriptions
        } else if option == "checks"@ {
            self.checks
        } else if option == "expire"@ {
            self.expire
        } else if option == "configfile"@ {
            self.config_file
        } else {
            None
        }
    }

    /// The kind of the target and the text that names it: nodes before
    /// clients, clients before subscriptions.
    pub open spec fn target(self) -> Option<(ShushResourceType, Seq<char>)> {
        match (self.nodes, self.ids, self.subscriptions) {
            (Some(v), _, _) => Some((ShushResourceType::Node, v)),
            (None, Some(v), _) => Some((ShushResourceType::Client, v)),
            (None, None, Some(v)) => Some((ShushResourceType::Sub, v)),
            (None, None, None) => None,
        }
    }

    /// The target with its identifiers taken apart at the commas.
    pub open spec fn resources(self) -> Option<(ShushResourceType, Seq<Seq<char>>)> {
        match self.target() {
            Some((kind, v)) => Some((kind, split_on(v, ','))),
            None => None,
        }
    }

    /// The expiration of the silences. An expiration time and
    /// expire-on-resolve cannot be given together.
    pub open spec fn expiration(self) -> Result<Expire, ConfigError> {
        if self.expire is Some && self.expire_on_resolve {
            Err(ConfigError::ConflictingExpiration)
        } else {
            expiration_of(self.expire, self.expire_on_resolve)
        }
    }

    /// The command that the flags stand for. Clearing goes before listing,
    /// and silencing is meant where neither is asked for. A listing takes
    /// the text of the target as the pattern for the subscription.
    pub open spec fn command(self) -> Result<OptsView, ConfigError> {
        if self.remove {
            Ok(OptsView::Clear { resources: self.resources(), checks: listed(self.checks) })
        } else if self.list {
            Ok(
                OptsView::List {
                    sub: match self.target() {
                        Some((_, v)) => Some(v),
                        None => None,
                    },
                    chk: self.checks,
                },
            )
        } else {
            match self.expiration() {
                Ok(expire) => Ok(
                    OptsView::Silence {
                        resources: self.resources(),
                        checks: listed(self.checks),
                        expire,
                    },
                ),
                Err(e) => Err(e),
            }
        }
    }
}

fn pieces_of(s: &Option<String>) -> (r: Option<Vec<String>>)
    ensures
        opt_texts(r) == listed(opt_text(*s)),
{
    match s {
        Some(t) => Some(split(t.as_str(), ',')),
        None => None,
    }
}

impl Args {
    /// The value of the flag that is called `option`.
    pub fn get_match(&self, option: &str) -> (r: Option<String>)
        ensures
            opt_text(r) == self@.value(option@),
    {
        let name = String::from_str(option);
        if name == String::from_str("nodes") {
            copy_of(&self.nodes)
        } else if name == String::from_str("ids") {
            copy_of(&self.ids)
        } else if name == String::from_str("subscriptions") {
            copy_of(&self.subscriptions)
        } else if name == String::from_str("checks") {
            copy_of(&self.checks)
        } else if name == String::from_str("expire") {
            copy_of(&self.expire)
        } else if name == String::from_str("configfile") {
            copy_of(&self.config_file)
        } else {
            None
        }
    }

    /// The value of the flag that is called `option`, taken apart at the
    /// commas.
    pub fn get_match_as_vec(&self, option: &str) -> (r: Option<Vec<String>>)
        ensures
            opt_texts(r) == listed(self@.value(option@)),
    {
        let value = self.get_match(option);
        pieces_of(&value)
    }

    /// The target that the flags name.
    pub fn resources(&self) -> (r: Option<ShushResources>)
        ensures
            opt_target(r) == self@.resources(),
            r matches Some(t) ==> t.wf(),
    {
        let (res_type, value) = if self.nodes.is_some() {
            (ShushResourceType::Node, &self.nodes)
        } else if self.ids.is_some() {
            (ShushResourceType::Client, &self.ids)
        } else if self.subscriptions.is_some() {
            (ShushResourceType::Sub, &self.subscriptions)
        } else {
            return None;
        };
        match value {
            Some(v) => Some(ShushResources { res_type, resources: split(v.as_str(), ',') }),
            None => None,
        }
    }

    /// The command that the flags stand for.
    pub fn getopts(&self) -> (r: Result<ShushOpts, ConfigError>)
        ensures
            match r {
                Ok(o) => self@.command() == Ok::<OptsView, ConfigError>(o@),
                Err(e) => self@.command() == Err::<OptsView, ConfigError>(e),
            },
    {
        if self.remove {
            Ok(
                ShushOpts::Clear(
                    ClearOpts { resources: self.resources(), checks: pieces_of(&self.checks) },
                ),
            )
        } else if self.list {
            let sub = if self.nodes.is_some() {
                copy_of(&self.nodes)
            } else if self.ids.is_some() {
                copy_of(&self.ids)
            } else {
                copy_of(&self.subscriptions)
            };
            Ok(ShushOpts::List(ListOpts { sub, chk: copy_of(&self.checks) }))
        } else {
            if self.expire.is_some() && self.expire_on_resolve {
                return Err(ConfigError::ConflictingExpiration);
            }
            match get_expiration(copy_of(&self.expire), self.expire_on_resolve) {
                Ok(expire) => Ok(
                    ShushOpts::Silence(
                        SilenceOpts {
                            resources: self.resources(),
                            checks: pieces_of(&self.checks),
                            expire,
                        },
                    ),
                ),
                Err(e) => Err(e),
            }
        }
    }
}

} // verus!
