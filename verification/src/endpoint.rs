//! The places of the server's API that the tool visits.

use vstd::prelude::*;
use vstd::string::*;

verus! {

/// An endpoint of the server's API.
#[derive(Clone, Copy, Debug, PartialEq, Eq)]
pub enum SensuEndpoint<'a> {
    /// Where silences are listed and created.
    Silenced,
    /// Where silences are cleared.
    Clear,
    /// Where all clients are listed.
    Clients,
    /// Where one client is looked up by name.
    Client(&'a str),
    /// Where check results are listed.
    Results,
}

impl<'a> SensuEndpoint<'a> {
    /// The path of the endpoint.
    pub open spec fn path(self) -> Seq<char> {
        match self {
            SensuEndpoint::Silenced => "/silenced"@,
            SensuEndpoint::Clear => "/silenced/clear"@,
            SensuEndpoint::Clients => "/clients"@,
            SensuEndpoint::Client(c) => "/clients/"@ + c@,
            SensuEndpoint::Results => "/results"@,
        }
    }

    /// The path of the endpoint.
    pub fn to_path(&self) -> (s: String)
        ensures
            s@ == self.path(),
    {
        match *self {
            SensuEndpoint::Silenced => String::from_str("/silenced"),
            SensuEndpoint::Clear => String::from_str("/silenced/clear"),
            SensuEndpoint::Clients => String::from_str("/clients"),
            SensuEndpoint::Client(c) => {
                let mut s = String::from_str("/clients/");
                s.append(c);
                s
            },
            SensuEndpoint::Results => String::from_str("/results"),
        }
    }
}

} // verus!
