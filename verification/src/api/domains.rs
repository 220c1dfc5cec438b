//! Calls that read domains.

use vstd::prelude::*;

use crate::api::{domain_path, domain_url, domains_path, Api};
use crate::engine::{header_text_allowed, Call, Method};

verus! {

/// A domain that the service handles.
#[derive(Debug, Clone, PartialEq, Eq)]
pub struct Domain {
    /// Domain name.
    pub fqdn: String,
}

/// The properties of a domain.
#[derive(Debug, Clone, PartialEq, Eq)]
pub struct DomainInfo {
    /// Domain name.
    pub fqdn: String,
    /// Whether a snapshot is taken whenever the domain's records change.
    pub automatic_snapshot: Option<bool>,
}

/// Mathematical model of a [`DomainInfo`].
pub struct DomainInfoView {
    pub fqdn: Seq<char>,
    pub automatic_snapshot: Option<bool>,
}

impl View for Domain {
    type V = Seq<char>;

    open spec fn view(&self) -> Seq<char> {
        self.fqdn@
    }
}

impl View for DomainInfo {
    type V = DomainInfoView;

    open spec fn view(&self) -> DomainInfoView {
        DomainInfoView { fqdn: self.fqdn@, automatic_snapshot: self.automatic_snapshot }
    }
}

impl Api {
    /// Plans the call that lists the domains the service handles.
    pub fn domains(&self) -> (call: Call<Vec<Domain>>)
        ensures
            call@ == self@.request(Method::Get, domains_path(), None),
            header_text_allowed(call@.authorization),
    {
        self.engine().get("/resource/domains")
    }

    /// Plans the call that reads the properties of one domain.
    pub fn domain(&self, fqdn: &str) -> (call: Call<DomainInfo>)
        ensures
            call@ == self@.request(Method::Get, domain_path(fqdn@), None),
            header_text_allowed(call@.authorization),
    {
        let path = domain_url(fqdn);
        self.engine().get(path.as_str())
    }
}

} // verus!
