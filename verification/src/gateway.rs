//! The update gateway: takes one inbound update through validation,
//! authorization and dispatch, and turns the upstream reply into the outcome
//! shown to the caller.
//!
//! One update is linear and ends at its first failure. `handle_update` takes
//! it as far as the one upstream call; the caller sends that call and hands the
//! reply to `Pending::settle`.

use vstd::prelude::*;
use vstd::string::StringExecFns;

use crate::api::record_path;
use crate::api::records::{body_view, UpsertRecord, UpsertRecordView};
use crate::api::Api;
use crate::config::{authorize, AppConfig, AppConfigView, AuthError, AuthErrorView};
use crate::engine::{
    bearer, header_text_allowed, BuildError, Call, CallError, Endpoint, EngineView, Method, Reply,
    RequestView,
};

verus! {

/// The `authorization` header of an inbound update, as it was received.
#[derive(Debug, Clone, PartialEq, Eq)]
pub enum Presented {
    /// No such header came.
    Absent,
    /// The header came, but its value is no text; the reason is carried.
    Unreadable(String),
    /// The caller's secret.
    Text(String),
}

/// Mathematical model of a [`Presented`].
pub enum PresentedView {
    Absent,
    Unreadable(Seq<char>),
    Text(Seq<char>),
}

impl View for Presented {
    type V = PresentedView;

    open spec fn view(&self) -> PresentedView {
        match self {
            Presented::Absent => PresentedView::Absent,
            Presented::Unreadable(reason) => PresentedView::Unreadable(reason@),
            Presented::Text(secret) => PresentedView::Text(secret@),
        }
    }
}

/// Why an authorized update did not go through.
#[derive(Debug, Clone, Copy, PartialEq, Eq, Structural)]
pub enum Failure {
    /// No upstream client could be built with the domain's credential.
    Build(BuildError),
    /// The upstream call failed.
    Call(CallError),
}

/// How one update ended.
#[derive(Debug, Clone, PartialEq, Eq)]
pub enum Outcome {
    /// The caller presented no secret at all.
    Unauthenticated,
    /// The caller's `authorization` header is no text.
    BadRequest(String),
    /// The whitelist denies the update.
    Forbidden(AuthError),
    /// The update was authorized and then failed.
    InternalError(Failure),
    /// The record was overwritten upstream.
    Updated { fqdn: String, rrset_name: String, rrset_type: String, rrset_value: String },
}

/// Mathematical model of an [`Outcome`].
pub enum OutcomeView {
    Unauthenticated,
    BadRequest(Seq<char>),
    Forbidden(AuthErrorView),
    InternalError(Failure),
    Updated { fqdn: Seq<char>, name: Seq<char>, record_type: Seq<char>, value: Seq<char> },
}

impl View for Outcome {
    type V = OutcomeView;

    open spec fn view(&self) -> OutcomeView {
        match self {
            Outcome::Unauthenticated => OutcomeView::Unauthenticated,
            Outcome::BadRequest(reason) => OutcomeView::BadRequest(reason@),
            Outcome::Forbidden(error) => OutcomeView::Forbidden(error@),
            Outcome::InternalError(failure) => OutcomeView::InternalError(*failure),
            Outcome::Updated { fqdn, rrset_name, rrset_type, rrset_value } => OutcomeView::Updated {
                fqdn: fqdn@,
                name: rrset_name@,
                record_type: rrset_type@,
                value: rrset_value@,
            },
        }
    }
}

impl Failure {
    /// The text that describes this failure.
    pub open spec fn spec_message(self) -> Seq<char> {
        match self {
            Failure::Build(_) => "Personal Access Token header is invalid !"@,
            Failure::Call(error) => error.spec_message(),
        }
    }

    /// The text that describes this failure.
    pub fn message(&self) -> (text: String)
        ensures
            text@ == self.spec_message(),
    {
        match self {
            Failure::Build(_) => "Personal Access Token header is invalid !".to_owned(),
            Failure::Call(error) => error.message(),
        }
    }
}

impl OutcomeView {
    /// The HTTP status answered to the caller.
    pub open spec fn status(self) -> u16 {
        match self {
            OutcomeView::Updated { .. } => 200,
            OutcomeView::BadRequest(_) => 400,
            OutcomeView::Unauthenticated => 403,
            OutcomeView::Forbidden(_) => 403,
            OutcomeView::InternalError(_) => 500,
        }
    }

    /// The text answered to the caller.
    pub open spec fn message(self) -> Seq<char> {
        match self {
            OutcomeView::Unauthenticated => "No authorization header provided"@,
            OutcomeView::BadRequest(reason) => reason,
            OutcomeView::Forbidden(error) => error.message(),
            OutcomeView::InternalError(failure) => failure.spec_message(),
            OutcomeView::Updated { fqdn, name, record_type, value } => "Record "@ + name + "."@
                + fqdn + " type "@ + record_type + " updated with ip "@ + value + " !"@,
        }
    }
}

impl Outcome {
    /// The HTTP status answered to the caller: 200 for an update, 400 for an
    /// unreadable header, 403 for a missing secret or a denial, 500 for a
    /// failure after authorization.
    pub fn status(&self) -> (code: u16)
        ensures
            code == self@.status(),
    {
        match self {
            Outcome::Updated { .. } => 200,
            Outcome::BadRequest(_) => 400,
            Outcome::Unauthenticated => 403,
            Outcome::Forbidden(_) => 403,
            Outcome::InternalError(_) => 500,
        }
    }

    /// The text answered to the caller.
    pub fn message(&self) -> (text: String)
        ensures
            text@ == self@.message(),
    {
        match self {
            Outcome::Unauthenticated => "No authorization header provided".to_owned(),
            Outcome::BadRequest(reason) => reason.clone(),
            Outcome::Forbidden(error) => error.message(),
            Outcome::InternalError(failure) => failure.message(),
            Outcome::Updated { fqdn, rrset_name, rrset_type, rrset_value } => {
                let mut text = "Record ".to_owned();
                text.append(rrset_name.as_str());
                text.append(".");
                text.append(fqdn.as_str());
                text.append(" type ");
                text.append(rrset_type.as_str());
                text.append(" updated with ip ");
                text.append(rrset_value.as_str());
                text.append(" !");
                text
            },
        }
    }
}

/// An authorized update: the domain's upstream credential and the
/// time-to-live that was authorized.
#[derive(Debug, Clone, PartialEq, Eq)]
pub struct Grant {
    pub credential: String,
    pub rrset_ttl: u32,
}

/// Mathematical model of a [`Grant`].
pub struct GrantView {
    pub credential: Seq<char>,
    pub ttl: u32,
}

impl View for Grant {
    type V = GrantView;

    open spec fn view(&self) -> GrantView {
        GrantView { credential: self.credential@, ttl: self.rrset_ttl }
    }
}

/// The time-to-live of an update: the one the caller asks for, else the
/// configured one.
pub open spec fn effective_ttl(requested: Option<u32>, configured: u32) -> u32 {
    match requested {
        Some(ttl) => ttl,
        None => configured,
    }
}

/// Validation and authorization of one update. A missing secret ends it
/// before the whitelist is looked at; the time-to-live that the whitelist
/// judges is the effective one.
pub open spec fn admission(
    config: AppConfigView,
    fqdn: Seq<char>,
    name: Seq<char>,
    record_type: Seq<char>,
    requested_ttl: Option<u32>,
    presented: PresentedView,
) -> Result<GrantView, OutcomeView> {
    match presented {
        PresentedView::Absent => Err(OutcomeView::Unauthenticated),
        PresentedView::Unreadable(reason) => Err(OutcomeView::BadRequest(reason)),
        PresentedView::Text(secret) => {
            let ttl = effective_ttl(requested_ttl, config.default_rrset_ttl);
            match authorize(config.whitelist, fqdn, name, record_type, ttl, secret) {
                Ok(credential) => Ok(GrantView { credential, ttl }),
                Err(error) => Err(OutcomeView::Forbidden(error)),
            }
        },
    }
}

/// The model of what `screen` returned.
pub open spec fn admission_view(screened: Result<Grant, Outcome>) -> Result<GrantView, OutcomeView> {
    match screened {
        Ok(grant) => Ok(grant@),
        Err(outcome) => Err(outcome@),
    }
}

/// An update that was dispatched: the API it goes through, the upstream call
/// to send, and what to confirm to the caller once it succeeded.
pub struct Pending {
    api: Api,
    call: Call<()>,
    fqdn: String,
    rrset_name: String,
    rrset_type: String,
    rrset_value: String,
}

/// Mathematical model of a [`Pending`].
pub struct PendingView {
    pub engine: EngineView,
    pub request: RequestView,
    pub fqdn: Seq<char>,
    pub name: Seq<char>,
    pub record_type: Seq<char>,
    pub value: Seq<char>,
}

impl View for Pending {
    type V = PendingView;

    closed spec fn view(&self) -> PendingView {
        PendingView {
            engine: self.api@,
            request: self.call@,
            fqdn: self.fqdn@,
            name: self.rrset_name@,
            record_type: self.rrset_type@,
            value: self.rrset_value@,
        }
    }
}

impl PendingView {
    /// The outcome of the update once the transport reported `reply`.
    pub open spec fn settled(self, reply: Reply) -> OutcomeView {
        match reply.outcome() {
            Ok(_) => OutcomeView::Updated {
                fqdn: self.fqdn,
                name: self.name,
                record_type: self.record_type,
                value: self.value,
            },
            Err(error) => OutcomeView::InternalError(Failure::Call(error)),
        }
    }
}

/// What the gateway asks of its caller next.
pub enum Step {
    /// Send the pending update's call, then settle it with the reply.
    Send(Pending),
    /// The update has ended: answer the caller.
    Respond(Outcome),
}

/// Mathematical model of a [`Step`].
pub enum StepView {
    Send(PendingView),
    Respond(OutcomeView),
}

impl View for Step {
    type V = StepView;

    open spec fn view(&self) -> StepView {
        match self {
            Step::Send(pending) => StepView::Send(pending@),
            Step::Respond(outcome) => StepView::Respond(outcome@),
        }
    }
}

/// The body that overwrites a record with the one value of an update.
pub open spec fn update_body(value: Seq<char>, ttl: u32) -> Seq<char> {
    UpsertRecordView { values: seq![value], ttl: Some(ttl) }.json()
}

/// The engine of the production service with a credential.
pub open spec fn production(credential: Seq<char>) -> EngineView {
    EngineView { endpoint: Endpoint::Prod.base_url(), authorization: bearer(credential) }
}

/// Dispatch of an authorized update whose body was encoded or was not: the
/// client is built on the production service, where a credential that no
/// header may carry fails; then a failed encoding fails; else the record is
/// PUT to its path.
pub open spec fn dispatched(
    grant: GrantView,
    fqdn: Seq<char>,
    name: Seq<char>,
    record_type: Seq<char>,
    value: Seq<char>,
    body: Result<Seq<char>, CallError>,
) -> StepView {
    if !header_text_allowed(grant.credential) {
        StepView::Respond(OutcomeView::InternalError(Failure::Build(BuildError::InvalidCredential)))
    } else {
        match body {
            Err(error) => StepView::Respond(OutcomeView::InternalError(Failure::Call(error))),
            Ok(text) => StepView::Send(
                PendingView {
                    engine: production(grant.credential),
                    request: production(grant.credential).request(
                        Method::Put,
                        record_path(fqdn, name, record_type),
                        Some(text),
                    ),
                    fqdn,
                    name,
                    record_type,
                    value,
                },
            ),
        }
    }
}

/// One update from its start to its dispatch: it is refused, or its record
/// is overwritten with the single value and the authorized time-to-live.
pub open spec fn first_step(
    config: AppConfigView,
    fqdn: Seq<char>,
    name: Seq<char>,
    record_type: Seq<char>,
    value: Seq<char>,
    requested_ttl: Option<u32>,
    presented: PresentedView,
) -> StepView {
    match admission(config, fqdn, name, record_type, requested_ttl, presented) {
        Err(outcome) => StepView::Respond(outcome),
        Ok(grant) => dispatched(
            grant,
            fqdn,
            name,
            record_type,
            value,
            Ok(update_body(value, grant.ttl)),
        ),
    }
}

/// An authorized update whose credential a header can carry is dispatched
/// as exactly one call: the PUT of the one value and the authorized
/// time-to-live to the record's path on the production service, under the
/// domain's credential.
pub proof fn lemma_authorized_update_is_one_put(
    config: AppConfigView,
    fqdn: Seq<char>,
    name: Seq<char>,
    record_type: Seq<char>,
    value: Seq<char>,
    requested_ttl: Option<u32>,
    presented: PresentedView,
)
    requires
        admission(config, fqdn, name, record_type, requested_ttl, presented) is Ok,
        header_text_allowed(
            admission(config, fqdn, name, record_type, requested_ttl, presented)->Ok_0.credential,
        ),
    ensures
        ({
            let grant = admission(config, fqdn, name, record_type, requested_ttl, presented)->Ok_0;
            let step = first_step(config, fqdn, name, record_type, value, requested_ttl, presented);
            &&& step matches StepView::Send(pending)
            &&& pending.request.method == Method::Put
            &&& pending.request.url == Endpoint::Prod.base_url() + record_path(
                fqdn,
                name,
                record_type,
            )
            &&& pending.request.authorization == bearer(grant.credential)
            &&& pending.request.body == Some(update_body(value, grant.ttl))
            &&& grant.ttl == effective_ttl(requested_ttl, config.default_rrset_ttl)
        }),
{
}

/// How a dispatched update ends depends on the reply and on what was asked
/// for, not on the credential or the call: two pending updates of the same
/// record and value end alike on the same reply.
pub proof fn lemma_outcome_ignores_credential(
    first: PendingView,
    second: PendingView,
    reply: Reply,
)
    requires
        first.fqdn == second.fqdn,
        first.name == second.name,
        first.record_type == second.record_type,
        first.value == second.value,
    ensures
        first.settled(reply) == second.settled(reply),
{
}

/// An update that is refused before dispatch is answered with status 403
/// where no secret came or the whitelist denies it, and with status 400 where
/// the header is no text.
pub proof fn lemma_refusal_status(
    config: AppConfigView,
    fqdn: Seq<char>,
    name: Seq<char>,
    record_type: Seq<char>,
    requested_ttl: Option<u32>,
    presented: PresentedView,
)
    requires
        admission(config, fqdn, name, record_type, requested_ttl, presented) is Err,
    ensures
        admission(config, fqdn, name, record_type, requested_ttl, presented)->Err_0.status() == (
        if presented is Unreadable {
            400u16
        } else {
            403u16
        }),
{
}

/// An update whose call did not succeed ends as an internal error that
/// carries the call's failure, and is answered with status 500; one whose
/// call succeeded is confirmed with status 200.
pub proof fn lemma_settled_status(pending: PendingView, reply: Reply)
    ensures
        reply.outcome() is Ok ==> pending.settled(reply).status() == 200,
        reply.outcome() matches Err(error) ==> pending.settled(reply)
            == OutcomeView::InternalError(Failure::Call(error)) && pending.settled(reply).status()
            == 500,
{
}

/// Validates and authorizes one update.
///
/// Without a secret the update ends as `Unauthenticated`, whatever the
/// whitelist holds. With one, the whitelist decides on the effective
/// time-to-live, and each of its denials ends the update as `Forbidden` with
/// that denial.
pub fn screen(
    config: &AppConfig,
    fqdn: &str,
    rrset_name: &str,
    rrset_type: &str,
    rrset_ttl: Option<u32>,
    presented: Presented,
) -> (screened: Result<Grant, Outcome>)
    ensures
        admission_view(screened) == admission(
            config@,
            fqdn@,
            rrset_name@,
            rrset_type@,
            rrset_ttl,
            presented@,
        ),
        presented@ is Absent ==> admission_view(screened) == Err::<GrantView, OutcomeView>(
            OutcomeView::Unauthenticated,
        ),
{
    match presented {
        Presented::Absent => Err(Outcome::Unauthenticated),
        Presented::Unreadable(reason) => Err(Outcome::BadRequest(reason)),
        Presented::Text(secret) => {
            let ttl = match rrset_ttl {
                Some(ttl) => ttl,
                None => config.default_rrset_ttl(),
            };
            match config.get_pat_if_authorized(fqdn, rrset_name, rrset_type, ttl, secret.as_str()) {
                Ok(credential) => Ok(Grant { credential, rrset_ttl: ttl }),
                Err(error) => Err(Outcome::Forbidden(error)),
            }
        },
    }
}

/// Dispatches an authorized update whose body was encoded to `body`, or was
/// not.
pub fn dispatch(
    grant: &Grant,
    fqdn: &str,
    rrset_name: &str,
    rrset_type: &str,
    rrset_value: &str,
    body: Result<String, CallError>,
) -> (step: Step)
    ensures
        step@ == dispatched(
            grant@,
            fqdn@,
            rrset_name@,
            rrset_type@,
            rrset_value@,
            body_view(body),
        ),
{
    let api = match Api::build(Endpoint::Prod, grant.credential.as_str()) {
        Ok(api) => api,
        Err(error) => {
            return Step::Respond(Outcome::InternalError(Failure::Build(error)));
        },
    };
    assert(api@ == production(grant@.credential));
    match api.write_record(true, fqdn, rrset_name, rrset_type, body) {
        Err(error) => Step::Respond(Outcome::InternalError(Failure::Call(error))),
        Ok(call) => Step::Send(
            Pending {
                api,
                call,
                fqdn: fqdn.to_owned(),
                rrset_name: rrset_name.to_owned(),
                rrset_type: rrset_type.to_owned(),
                rrset_value: rrset_value.to_owned(),
            },
        ),
    }
}

/// Takes one inbound update as far as its upstream call.
///
/// The update is answered at once where no secret came, where the header is
/// no text, where the whitelist denies it, or where no call can be made with
/// the domain's credential. Else exactly one call is to be sent: the PUT that
/// overwrites the record on the production service with the single value
/// `rrset_value` and the effective time-to-live.
pub fn handle_update(
    config: &AppConfig,
    fqdn: &str,
    rrset_name: &str,
    rrset_type: &str,
    rrset_value: &str,
    rrset_ttl: Option<u32>,
    presented: Presented,
) -> (step: Step)
    ensures
        step@ == first_step(
            config@,
            fqdn@,
            rrset_name@,
            rrset_type@,
            rrset_value@,
            rrset_ttl,
            presented@,
        ),
        presented@ is Absent ==> step@ == StepView::Respond(OutcomeView::Unauthenticated),
        admission(config@, fqdn@, rrset_name@, rrset_type@, rrset_ttl, presented@) matches Err(
            outcome,
        ) ==> step@ == StepView::Respond(outcome),
{
    let grant = match screen(config, fqdn, rrset_name, rrset_type, rrset_ttl, presented) {
        Ok(grant) => grant,
        Err(outcome) => {
            return Step::Respond(outcome);
        },
    };
    let record = UpsertRecord::single(rrset_value.to_owned(), Some(grant.rrset_ttl));
    let body = record.to_json();
    assert(record@ == UpsertRecordView { values: seq![rrset_value@], ttl: Some(grant@.ttl) });
    dispatch(&grant, fqdn, rrset_name, rrset_type, rrset_value, body)
}

impl Pending {
    /// The API that the call was planned on: the production service, with the
    /// domain's credential.
    pub fn api(&self) -> (api: &Api)
        ensures
            api@ == self@.engine,
    {
        &self.api
    }

    /// The upstream call to send.
    pub fn call(&self) -> (call: &Call<()>)
        ensures
            call@ == self@.request,
    {
        &self.call
    }

    /// Ends the update with what the transport observed of its call: a status
    /// in 200..300 confirms the update, anything else is an internal error
    /// that carries the call's failure.
    pub fn settle(self, reply: Reply) -> (outcome: Outcome)
        ensures
            outcome@ == self@.settled(reply),
    {
        match reply.into_result() {
            Ok(_) => Outcome::Updated {
                fqdn: self.fqdn,
                rrset_name: self.rrset_name,
                rrset_type: self.rrset_type,
                rrset_value: self.rrset_value,
            },
            Err(error) => Outcome::InternalError(Failure::Call(error)),
        }
    }
}

} // verus!
