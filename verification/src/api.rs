//! The record API: typed calls on domains and their records, each a path under
//! the engine's base URL.

pub mod domains;
pub mod records;

use vstd::prelude::*;
use vstd::string::StringExecFns;

use crate::engine::{bearer, header_text_allowed, BuildError, Endpoint, Engine, EngineView};

verus! {

/// Path of the list of domains.
pub open spec fn domains_path() -> Seq<char> {
    "/resource/domains"@
}

/// Path of one domain.
pub open spec fn domain_path(fqdn: Seq<char>) -> Seq<char> {
    "/resource/domains/"@ + fqdn
}

/// Path of the records of a domain.
pub open spec fn records_path(fqdn: Seq<char>) -> Seq<char> {
    domain_path(fqdn) + "/records"@
}

/// Path of the records of a domain that bear one name.
pub open spec fn named_records_path(fqdn: Seq<char>, name: Seq<char>) -> Seq<char> {
    records_path(fqdn) + "/"@ + name
}

/// Path of the one record of a domain with this name and type.
pub open spec fn record_path(fqdn: Seq<char>, name: Seq<char>, record_type: Seq<char>) -> Seq<
    char,
> {
    named_records_path(fqdn, name) + "/"@ + record_type
}

/// Builds the path of one domain.
pub fn domain_url(fqdn: &str) -> (path: String)
    ensures
        path@ == domain_path(fqdn@),
{
    let mut path = "/resource/domains/".to_owned();
    path.append(fqdn);
    path
}

/// Builds the path of the records of a domain.
pub fn records_url(fqdn: &str) -> (path: String)
    ensures
        path@ == records_path(fqdn@),
{
    let mut path = domain_url(fqdn);
    path.append("/records");
    path
}

/// Builds the path of the records of a domain that bear one name.
pub fn named_records_url(fqdn: &str, rrset_name: &str) -> (path: String)
    ensures
        path@ == named_records_path(fqdn@, rrset_name@),
{
    let mut path = records_url(fqdn);
    path.append("/");
    path.append(rrset_name);
    path
}

/// Builds the path of the one record of a domain with this name and type.
pub fn record_url(fqdn: &str, rrset_name: &str, rrset_type: &str) -> (path: String)
    ensures
        path@ == record_path(fqdn@, rrset_name@, rrset_type@),
{
    let mut path = named_records_url(fqdn, rrset_name);
    path.append("/");
    path.append(rrset_type);
    path
}

/// The entry point of the record API.
pub struct Api {
    engine: Engine,
}

impl View for Api {
    type V = EngineView;

    closed spec fn view(&self) -> EngineView {
        self.engine@
    }
}

impl Api {
    /// Builds the API on an engine for `endpoint` that authenticates with
    /// `personal_access_token`. Fails exactly if the token holds a character
    /// that no header value may hold.
    pub fn build(endpoint: Endpoint, personal_access_token: &str) -> (built: Result<
        Api,
        BuildError,
    >)
        ensures
            match built {
                Ok(api) => {
                    &&& header_text_allowed(personal_access_token@)
                    &&& api@.endpoint == endpoint.base_url()
                    &&& api@.authorization == bearer(personal_access_token@)
                },
                Err(error) => !header_text_allowed(personal_access_token@) && error
                    == BuildError::InvalidCredential,
            },
    {
        match Engine::build(endpoint, personal_access_token) {
            Ok(engine) => Ok(Api { engine }),
            Err(error) => Err(error),
        }
    }

    /// The engine that plans this API's calls.
    pub fn engine(&self) -> (engine: &Engine)
        ensures
            engine@ == self@,
    {
        &self.engine
    }
}

} // verus!
