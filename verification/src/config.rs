//! The whitelist and the authorization decision taken from it.
//!
//! The configuration is built once and only read afterwards: deciding a
//! request never changes it.

use vstd::hash_map::StringHashMap;
use vstd::prelude::*;
use vstd::string::StringExecFns;

use crate::text::{decimal, decimal_text, same_text};

verus! {

/// One record that a domain's callers may update, up to a time-to-live.
#[derive(Debug, Clone, PartialEq, Eq)]
pub struct RecordRule {
    pub rrset_name: String,
    pub rrset_type: String,
    pub rrset_ttl_max: u32,
}

/// Mathematical model of a [`RecordRule`].
pub struct RuleView {
    pub name: Seq<char>,
    pub record_type: Seq<char>,
    pub ttl_max: u32,
}

impl View for RecordRule {
    type V = RuleView;

    open spec fn view(&self) -> RuleView {
        RuleView {
            name: self.rrset_name@,
            record_type: self.rrset_type@,
            ttl_max: self.rrset_ttl_max,
        }
    }
}

impl RuleView {
    /// The rule names exactly this record and its limit covers `ttl`.
    pub open spec fn permits(self, name: Seq<char>, record_type: Seq<char>, ttl: u32) -> bool {
        &&& self.name == name
        &&& self.record_type == record_type
        &&& ttl <= self.ttl_max
    }
}

/// What one domain allows: the upstream credential, the records that may be
/// updated and the caller secrets that may update them.
#[derive(Debug, Clone, PartialEq, Eq)]
pub struct Whitelist {
    pub personal_access_token: String,
    pub records: Vec<RecordRule>,
    pub authorizations: Vec<String>,
}

/// Mathematical model of a [`Whitelist`].
pub struct WhitelistView {
    pub credential: Seq<char>,
    pub rules: Seq<RuleView>,
    pub authorizations: Seq<Seq<char>>,
}

impl View for Whitelist {
    type V = WhitelistView;

    open spec fn view(&self) -> WhitelistView {
        WhitelistView {
            credential: self.personal_access_token@,
            rules: self.records@.map_values(|rule: RecordRule| rule@),
            authorizations: self.authorizations@.map_values(|secret: String| secret@),
        }
    }
}

impl WhitelistView {
    /// Some rule permits the record with this time-to-live.
    pub open spec fn permits_record(
        self,
        name: Seq<char>,
        record_type: Seq<char>,
        ttl: u32,
    ) -> bool {
        exists|i: int|
            0 <= i < self.rules.len() && (#[trigger] self.rules[i]).permits(name, record_type, ttl)
    }

    /// The caller's secret is one of the allowed ones.
    pub open spec fn admits(self, authorization: Seq<char>) -> bool {
        self.authorizations.contains(authorization)
    }
}

/// Why a request was denied.
#[derive(Debug, Clone, PartialEq, Eq)]
pub enum AuthError {
    /// The domain has no whitelist entry.
    NotWhitelisted { fqdn: String },
    /// No rule of the domain permits this record with this time-to-live.
    RecordNotWhitelisted { fqdn: String, rrset_name: String, rrset_type: String, rrset_ttl: u32 },
    /// The record is permitted, but not to this caller.
    Forbidden { fqdn: String, rrset_name: String, rrset_type: String },
}

/// Mathematical model of an [`AuthError`].
pub enum AuthErrorView {
    NotWhitelisted { fqdn: Seq<char> },
    RecordNotWhitelisted {
        fqdn: Seq<char>,
        name: Seq<char>,
        record_type: Seq<char>,
        ttl: u32,
    },
    Forbidden { fqdn: Seq<char>, name: Seq<char>, record_type: Seq<char> },
}

impl View for AuthError {
    type V = AuthErrorView;

    open spec fn view(&self) -> AuthErrorView {
        match self {
            AuthError::NotWhitelisted { fqdn } => AuthErrorView::NotWhitelisted { fqdn: fqdn@ },
            AuthError::RecordNotWhitelisted { fqdn, rrset_name, rrset_type, rrset_ttl } => {
                AuthErrorView::RecordNotWhitelisted {
                    fqdn: fqdn@,
                    name: rrset_name@,
                    record_type: rrset_type@,
                    ttl: *rrset_ttl,
                }
            },
            AuthError::Forbidden { fqdn, rrset_name, rrset_type } => AuthErrorView::Forbidden {
                fqdn: fqdn@,
                name: rrset_name@,
                record_type: rrset_type@,
            },
        }
    }
}

impl AuthErrorView {
    /// The text shown to the caller for this denial.
    pub open spec fn message(self) -> Seq<char> {
        match self {
            AuthErrorView::NotWhitelisted { fqdn } => "config: fqdn "@ + fqdn
                + " is not whitelisted"@,
            AuthErrorView::RecordNotWhitelisted { fqdn, name, record_type, ttl } => {
                "config: record "@ + name + "."@ + fqdn + " type "@ + record_type + " with ttl "@
                    + decimal(ttl as nat) + " is not whitelisted"@
            },
            AuthErrorView::Forbidden { fqdn, name, record_type } => {
                "config: access forbidden to update record "@ + name + "."@ + fqdn + " type "@
                    + record_type
            },
        }
    }
}

/// The decision on one request, over the model of the whitelist: the domain is
/// looked up, then the record and its time-to-live, then the caller's secret.
/// The first check that fails decides the error.
pub open spec fn authorize(
    whitelist: Map<Seq<char>, WhitelistView>,
    fqdn: Seq<char>,
    name: Seq<char>,
    record_type: Seq<char>,
    ttl: u32,
    authorization: Seq<char>,
) -> Result<Seq<char>, AuthErrorView> {
    if !whitelist.contains_key(fqdn) {
        Err(AuthErrorView::NotWhitelisted { fqdn })
    } else if !whitelist[fqdn].permits_record(name, record_type, ttl) {
        Err(AuthErrorView::RecordNotWhitelisted { fqdn, name, record_type, ttl })
    } else if !whitelist[fqdn].admits(authorization) {
        Err(AuthErrorView::Forbidden { fqdn, name, record_type })
    } else {
        Ok(whitelist[fqdn].credential)
    }
}

/// A time-to-live above the limit of every rule that names the record is not
/// whitelisted, whoever asks: the caller's secret is not looked at.
pub proof fn lemma_ttl_over_limit(
    whitelist: Map<Seq<char>, WhitelistView>,
    fqdn: Seq<char>,
    name: Seq<char>,
    record_type: Seq<char>,
    ttl: u32,
    authorization: Seq<char>,
)
    requires
        whitelist.contains_key(fqdn),
        forall|i: int|
            0 <= i < whitelist[fqdn].rules.len() && (#[trigger] whitelist[fqdn].rules[i]).name
                == name && whitelist[fqdn].rules[i].record_type == record_type ==> ttl
                > whitelist[fqdn].rules[i].ttl_max,
    ensures
        authorize(whitelist, fqdn, name, record_type, ttl, authorization) == Err::<
            Seq<char>,
            AuthErrorView,
        >(AuthErrorView::RecordNotWhitelisted { fqdn, name, record_type, ttl }),
{
}

/// A domain without an entry is not whitelisted, whatever else is asked.
pub proof fn lemma_unknown_domain(
    whitelist: Map<Seq<char>, WhitelistView>,
    fqdn: Seq<char>,
    name: Seq<char>,
    record_type: Seq<char>,
    ttl: u32,
    authorization: Seq<char>,
)
    requires
        !whitelist.contains_key(fqdn),
    ensures
        authorize(whitelist, fqdn, name, record_type, ttl, authorization) == Err::<
            Seq<char>,
            AuthErrorView,
        >(AuthErrorView::NotWhitelisted { fqdn }),
{
}

/// A permitted record asked for with a secret that is not allowed is
/// forbidden, and nothing else.
pub proof fn lemma_unknown_secret(
    whitelist: Map<Seq<char>, WhitelistView>,
    fqdn: Seq<char>,
    name: Seq<char>,
    record_type: Seq<char>,
    ttl: u32,
    authorization: Seq<char>,
)
    requires
        whitelist.contains_key(fqdn),
        whitelist[fqdn].permits_record(name, record_type, ttl),
        !whitelist[fqdn].authorizations.contains(authorization),
    ensures
        authorize(whitelist, fqdn, name, record_type, ttl, authorization) == Err::<
            Seq<char>,
            AuthErrorView,
        >(AuthErrorView::Forbidden { fqdn, name, record_type }),
{
}

/// The model of what `get_pat_if_authorized` returned.
pub open spec fn decision_view(decision: Result<String, AuthError>) -> Result<
    Seq<char>,
    AuthErrorView,
> {
    match decision {
        Ok(credential) => Ok(credential@),
        Err(error) => Err(error@),
    }
}

impl Whitelist {
    /// The first rule that permits the record with this time-to-live, if any.
    pub fn find_rule(&self, rrset_name: &str, rrset_type: &str, rrset_ttl: u32) -> (found: Option<
        usize,
    >)
        ensures
            match found {
                Some(index) => {
                    &&& index < self@.rules.len()
                    &&& self@.rules[index as int].permits(rrset_name@, rrset_type@, rrset_ttl)
                    &&& forall|j: int|
                        0 <= j < index ==> !(#[trigger] self@.rules[j]).permits(
                            rrset_name@,
                            rrset_type@,
                            rrset_ttl,
                        )
                },
                None => !self@.permits_record(rrset_name@, rrset_type@, rrset_ttl),
            },
    {
        let mut i: usize = 0;
        while i < self.records.len()
            invariant
                i <= self.records@.len(),
                self@.rules.len() == self.records@.len(),
                forall|j: int|
                    0 <= j < i ==> !(#[trigger] self@.rules[j]).permits(
                        rrset_name@,
                        rrset_type@,
                        rrset_ttl,
                    ),
            decreases self.records@.len() - i,
        {
            let rule = &self.records[i];
            assert(self@.rules[i as int] == rule@);
            if rrset_ttl <= rule.rrset_ttl_max && same_text(rule.rrset_name.as_str(), rrset_name)
                && same_text(rule.rrset_type.as_str(), rrset_type) {
                return Some(i);
            }
            i = i + 1;
        }
        None
    }

    /// Whether the caller's secret is one of the allowed ones.
    pub fn admits(&self, authorization: &str) -> (admitted: bool)
        ensures
            admitted == self@.admits(authorization@),
    {
        let mut i: usize = 0;
        while i < self.authorizations.len()
            invariant
                i <= self.authorizations@.len(),
                self@.authorizations.len() == self.authorizations@.len(),
                forall|j: int| 0 <= j < i ==> (#[trigger] self@.authorizations[j]) != authorization@,
            decreases self.authorizations@.len() - i,
        {
            assert(self@.authorizations[i as int] == self.authorizations@[i as int]@);
            if same_text(self.authorizations[i].as_str(), authorization) {
                return true;
            }
            i = i + 1;
        }
        false
    }
}

impl AuthError {
    /// The text shown to the caller for this denial.
    pub fn message(&self) -> (text: String)
        ensures
            text@ == self@.message(),
    {
        match self {
            AuthError::NotWhitelisted { fqdn } => {
                let mut text = "config: fqdn ".to_owned();
                text.append(fqdn.as_str());
                text.append(" is not whitelisted");
                text
            },
            AuthError::RecordNotWhitelisted { fqdn, rrset_name, rrset_type, rrset_ttl } => {
                let ttl = decimal_text(*rrset_ttl);
                let mut text = "config: record ".to_owned();
                text.append(rrset_name.as_str());
                text.append(".");
                text.append(fqdn.as_str());
                text.append(" type ");
                text.append(rrset_type.as_str());
                text.append(" with ttl ");
                text.append(ttl.as_str());
                text.append(" is not whitelisted");
                text
            },
            AuthError::Forbidden { fqdn, rrset_name, rrset_type } => {
                let mut text = "config: access forbidden to update record ".to_owned();
                text.append(rrset_name.as_str());
                text.append(".");
                text.append(fqdn.as_str());
                text.append(" type ");
                text.append(rrset_type.as_str());
                text
            },
        }
    }
}

/// The gateway's configuration: where it listens, the time-to-live used when a
/// caller names none, and the whitelist, one entry per domain.
pub struct AppConfig {
    listen: String,
    default_rrset_ttl: u32,
    whitelist: StringHashMap<Whitelist>,
}

/// Mathematical model of an [`AppConfig`].
pub struct AppConfigView {
    pub listen: Seq<char>,
    pub default_rrset_ttl: u32,
    pub whitelist: Map<Seq<char>, WhitelistView>,
}

impl View for AppConfig {
    type V = AppConfigView;

    closed spec fn view(&self) -> AppConfigView {
        AppConfigView {
            listen: self.listen@,
            default_rrset_ttl: self.default_rrset_ttl,
            whitelist: self.whitelist@.map_values(|entry: Whitelist| entry@),
        }
    }
}

impl AppConfig {
    /// A configuration that whitelists no domain yet.
    pub fn new(listen: String, default_rrset_ttl: u32) -> (config: AppConfig)
        ensures
            config@.listen == listen@,
            config@.default_rrset_ttl == default_rrset_ttl,
            config@.whitelist == Map::<Seq<char>, WhitelistView>::empty(),
    {
        let config = AppConfig { listen, default_rrset_ttl, whitelist: StringHashMap::new() };
        assert(config@.whitelist =~= Map::<Seq<char>, WhitelistView>::empty());
        config
    }

    /// Sets the whitelist entry of `fqdn`, replacing the one it had.
    pub fn insert(&mut self, fqdn: String, entry: Whitelist)
        ensures
            final(self)@.listen == old(self)@.listen,
            final(self)@.default_rrset_ttl == old(self)@.default_rrset_ttl,
            final(self)@.whitelist == old(self)@.whitelist.insert(fqdn@, entry@),
    {
        self.whitelist.insert(fqdn, entry);
        assert(self@.whitelist =~= old(self)@.whitelist.insert(fqdn@, entry@));
    }

    /// The address the gateway listens on.
    pub fn listen(&self) -> (address: &str)
        ensures
            address@ == self@.listen,
    {
        self.listen.as_str()
    }

    /// The time-to-live used when a caller names none.
    pub fn default_rrset_ttl(&self) -> (ttl: u32)
        ensures
            ttl == self@.default_rrset_ttl,
    {
        self.default_rrset_ttl
    }

    /// Returns the domain's upstream credential if the record may be updated
    /// with this time-to-live by the caller who presents `authorization`.
    pub fn get_pat_if_authorized(
        &self,
        fqdn: &str,
        rrset_name: &str,
        rrset_type: &str,
        rrset_ttl: u32,
        authorization: &str,
    ) -> (decision: Result<String, AuthError>)
        ensures
            decision_view(decision) == authorize(
                self@.whitelist,
                fqdn@,
                rrset_name@,
                rrset_type@,
                rrset_ttl,
                authorization@,
            ),
            !self@.whitelist.contains_key(fqdn@) ==> decision_view(decision) == Err::<
                Seq<char>,
                AuthErrorView,
            >(AuthErrorView::NotWhitelisted { fqdn: fqdn@ }),
            self@.whitelist.contains_key(fqdn@) && !self@.whitelist[fqdn@].permits_record(
                rrset_name@,
                rrset_type@,
                rrset_ttl,
            ) ==> decision_view(decision) == Err::<Seq<char>, AuthErrorView>(
                AuthErrorView::RecordNotWhitelisted {
                    fqdn: fqdn@,
                    name: rrset_name@,
                    record_type: rrset_type@,
                    ttl: rrset_ttl,
                },
            ),
            self@.whitelist.contains_key(fqdn@) && self@.whitelist[fqdn@].permits_record(
                rrset_name@,
                rrset_type@,
                rrset_ttl,
            ) && !self@.whitelist[fqdn@].admits(authorization@) ==> decision_view(decision) == Err::<
                Seq<char>,
                AuthErrorView,
            >(
                AuthErrorView::Forbidden {
                    fqdn: fqdn@,
                    name: rrset_name@,
                    record_type: rrset_type@,
                },
            ),
    {
        let entry = match self.whitelist.get(fqdn) {
            Some(entry) => entry,
            None => {
                return Err(AuthError::NotWhitelisted { fqdn: fqdn.to_owned() });
            },
        };
        assert(self@.whitelist[fqdn@] == entry@);
        if entry.find_rule(rrset_name, rrset_type, rrset_ttl).is_none() {
            return Err(
                AuthError::RecordNotWhitelisted {
                    fqdn: fqdn.to_owned(),
                    rrset_name: rrset_name.to_owned(),
                    rrset_type: rrset_type.to_owned(),
                    rrset_ttl,
                },
            );
        }
        if entry.admits(authorization) {
            Ok(entry.personal_access_token.clone())
        } else {
            Err(
                AuthError::Forbidden {
                    fqdn: fqdn.to_owned(),
                    rrset_name: rrset_name.to_owned(),
                    rrset_type: rrset_type.to_owned(),
                },
            )
        }
    }
}

} // verus!
