//! Resources as the server knows them.

use vstd::prelude::*;
use vstd::string::*;

verus! {

/// A resource that a silence can address: a client or a subscription.
#[derive(Clone, Debug, PartialEq, Eq)]
pub enum SensuResource {
    /// A monitoring client, by name.
    Client(String),
    /// A subscription, by name.
    Subscription(String),
}

/// The mathematical value of a `SensuResource`.
pub enum ResourceView {
    Client(Seq<char>),
    Subscription(Seq<char>),
}

impl ResourceView {
    /// The name of the resource.
    pub open spec fn name(self) -> Seq<char> {
        match self {
            ResourceView::Client(n) => n,
            ResourceView::Subscription(n) => n,
        }
    }

    /// The resource as the server's `subscription` field spells it: a
    /// subscription by its name, a client by its name after `client:`.
    pub open spec fn wire(self) -> Seq<char> {
        match self {
            ResourceView::Client(n) => "client:"@ + n,
            ResourceView::Subscription(n) => n,
        }
    }
}

impl View for SensuResource {
    type V = ResourceView;

    open spec fn view(&self) -> ResourceView {
        match self {
            SensuResource::Client(n) => ResourceView::Client(n@),
            SensuResource::Subscription(n) => ResourceView::Subscription(n@),
        }
    }
}

/// The values of a sequence of resources.
pub open spec fn resource_views(v: Seq<SensuResource>) -> Seq<ResourceView> {
    v.map_values(|r: SensuResource| r@)
}

/// The wire forms of a sequence of resources.
pub open spec fn wire_names(v: Seq<ResourceView>) -> Seq<Seq<char>> {
    v.map_values(|r: ResourceView| r.wire())
}

impl SensuResource {
    /// The name of the resource.
    pub fn name(&self) -> (n: &String)
        ensures
            n@ == self@.name(),
    {
        match self {
            SensuResource::Client(n) => n,
            SensuResource::Subscription(n) => n,
        }
    }

    /// A copy of this resource.
    pub fn duplicate(&self) -> (r: Self)
        ensures
            r@ == self@,
    {
        match self {
            SensuResource::Client(n) => SensuResource::Client(n.clone()),
            SensuResource::Subscription(n) => SensuResource::Subscription(n.clone()),
        }
    }

    /// The resource as the server's `subscription` field spells it.
    pub fn to_text(&self) -> (s: String)
        ensures
            s@ == self@.wire(),
    {
        match self {
            SensuResource::Client(n) => {
                let mut s = String::from_str("client:");
                s.append(n.as_str());
                s
            },
            SensuResource::Subscription(n) => n.clone(),
        }
    }
}

} // verus!
