//! Calls that read and write the records of a domain.

use vstd::prelude::*;
use vstd::string::StringExecFns;

use crate::api::{named_records_path, named_records_url, record_path, record_url, records_path, records_url, Api};
use crate::engine::{header_text_allowed, Call, CallError, EngineView, Method, RequestView};
use crate::text::{decimal, decimal_text};

verus! {

/// The models of a list of texts.
pub open spec fn texts(list: Seq<String>) -> Seq<Seq<char>> {
    list.map_values(|text: String| text@)
}

/// A record as the service reports it.
#[derive(Debug, Clone, PartialEq, Eq)]
pub struct Record {
    pub rrset_name: String,
    pub rrset_type: String,
    pub rrset_values: Vec<String>,
    pub rrset_ttl: Option<u32>,
}

/// Mathematical model of a [`Record`].
pub struct RecordView {
    pub name: Seq<char>,
    pub record_type: Seq<char>,
    pub values: Seq<Seq<char>>,
    pub ttl: Option<u32>,
}

impl View for Record {
    type V = RecordView;

    open spec fn view(&self) -> RecordView {
        RecordView {
            name: self.rrset_name@,
            record_type: self.rrset_type@,
            values: texts(self.rrset_values@),
            ttl: self.rrset_ttl,
        }
    }
}

/// What is sent to create or overwrite one record: its values, in order, and
/// its time-to-live, if the caller sets one.
#[derive(Debug, Clone, PartialEq, Eq)]
pub struct UpsertRecord {
    pub rrset_values: Vec<String>,
    pub rrset_ttl: Option<u32>,
}

/// Mathematical model of an [`UpsertRecord`].
pub struct UpsertRecordView {
    pub values: Seq<Seq<char>>,
    pub ttl: Option<u32>,
}

impl View for UpsertRecord {
    type V = UpsertRecordView;

    open spec fn view(&self) -> UpsertRecordView {
        UpsertRecordView { values: texts(self.rrset_values@), ttl: self.rrset_ttl }
    }
}

/// The JSON text that `serde_json::to_string` writes for a list of strings.
pub uninterp spec fn json_strings(values: Seq<Seq<char>>) -> Seq<char>;

/// The JSON text of an optional time-to-live: its decimal notation, or `null`.
pub open spec fn json_ttl(ttl: Option<u32>) -> Seq<char> {
    match ttl {
        Some(seconds) => decimal(seconds as nat),
        None => "null"@,
    }
}

/// The body of a create or overwrite call: a JSON object with the member
/// `values`, given as JSON text, and the member `ttl`.
pub open spec fn payload(values_json: Seq<char>, ttl: Option<u32>) -> Seq<char> {
    "{\"values\":"@ + values_json + ",\"ttl\":"@ + json_ttl(ttl) + "}"@
}

impl UpsertRecordView {
    /// A record that carries anything carries at least one value.
    pub open spec fn well_formed(self) -> bool {
        self.values.len() > 0
    }

    /// The body that carries this record.
    pub open spec fn json(self) -> Seq<char> {
        payload(json_strings(self.values), self.ttl)
    }
}

/// The JSON encoder's error type, carried through unread.
#[verifier::external_type_specification]
#[verifier::external_body]
pub struct ExJsonError(serde_json::Error);

/// Calls `serde_json::to_string` on a list of strings.
///
/// Trusted: the call succeeds, since the encoder writes into memory and a
/// list of strings holds nothing that it refuses; and the text it writes
/// depends on the strings alone.
#[verifier::external_body]
fn json_of_strings(values: &Vec<String>) -> (written: Result<String, serde_json::Error>)
    ensures
        written is Ok,
        written matches Ok(text) ==> text@ == json_strings(texts(values@)),
{
    serde_json::to_string(values)
}

/// Frames the body of a create or overwrite call around the JSON text of the
/// record's values.
pub fn frame_payload(values_json: &str, rrset_ttl: Option<u32>) -> (body: String)
    ensures
        body@ == payload(values_json@, rrset_ttl),
{
    let mut body = "{\"values\":".to_owned();
    body.append(values_json);
    body.append(",\"ttl\":");
    match rrset_ttl {
        Some(seconds) => {
            let digits = decimal_text(seconds);
            body.append(digits.as_str());
        },
        None => {
            body.append("null");
        },
    }
    body.append("}");
    body
}

impl UpsertRecord {
    /// A record of one value.
    pub fn single(rrset_value: String, rrset_ttl: Option<u32>) -> (record: UpsertRecord)
        ensures
            record@.values == seq![rrset_value@],
            record@.ttl == rrset_ttl,
            record@.well_formed(),
    {
        let mut rrset_values: Vec<String> = Vec::new();
        rrset_values.push(rrset_value);
        let record = UpsertRecord { rrset_values, rrset_ttl };
        assert(record@.values =~= seq![rrset_value@]);
        record
    }

    /// The body that carries this record. Encoding a record does not fail.
    pub fn to_json(&self) -> (body: Result<String, CallError>)
        ensures
            body matches Ok(text) && text@ == self@.json(),
    {
        match json_of_strings(&self.rrset_values) {
            Ok(values_json) => Ok(frame_payload(values_json.as_str(), self.rrset_ttl)),
            Err(_) => Err(CallError::Encode),
        }
    }
}

/// The call that writes a record, once the record's body was encoded or was
/// not: a failed encoding is the call's failure.
pub open spec fn write_plan(
    engine: EngineView,
    method: Method,
    path: Seq<char>,
    body: Result<Seq<char>, CallError>,
) -> Result<RequestView, CallError> {
    match body {
        Ok(text) => Ok(engine.request(method, path, Some(text))),
        Err(error) => Err(error),
    }
}

/// The method that writes a record: PUT overwrites, POST creates.
pub open spec fn write_method(overwrite: bool) -> Method {
    if overwrite {
        Method::Put
    } else {
        Method::Post
    }
}

/// The model of an encoded body.
pub open spec fn body_view(body: Result<String, CallError>) -> Result<Seq<char>, CallError> {
    match body {
        Ok(text) => Ok(text@),
        Err(error) => Err(error),
    }
}

/// The model of a planned write.
pub open spec fn plan_view(plan: Result<Call<()>, CallError>) -> Result<RequestView, CallError> {
    match plan {
        Ok(call) => Ok(call@),
        Err(error) => Err(error),
    }
}

/// What a planned write of a record is: the POST or PUT of the record's body
/// to the record's path.
pub open spec fn write_planned(
    engine: EngineView,
    overwrite: bool,
    fqdn: Seq<char>,
    name: Seq<char>,
    record_type: Seq<char>,
    record: UpsertRecordView,
    plan: Result<RequestView, CallError>,
) -> bool {
    plan == Ok::<RequestView, CallError>(
        engine.request(
            write_method(overwrite),
            record_path(fqdn, name, record_type),
            Some(record.json()),
        ),
    )
}

/// What a service that stores one body per URL holds after a request: a PUT
/// overwrites what its URL held, any other request leaves the store as it is.
pub open spec fn stored_after(
    store: Map<Seq<char>, Seq<char>>,
    request: RequestView,
) -> Map<Seq<char>, Seq<char>> {
    match request.body {
        Some(body) if request.method == Method::Put => store.insert(request.url, body),
        _ => store,
    }
}

/// Overwriting a record is idempotent. Two plans of the same upsert both
/// succeed and are one and the same PUT request, so nothing of the first call
/// can fail the second; one reply ends both alike; and a service that
/// overwrites on PUT holds after the second call what it held after the
/// first.
pub proof fn lemma_upsert_repeatable(
    engine: EngineView,
    fqdn: Seq<char>,
    name: Seq<char>,
    record_type: Seq<char>,
    record: UpsertRecordView,
    first: Result<RequestView, CallError>,
    second: Result<RequestView, CallError>,
    store: Map<Seq<char>, Seq<char>>,
)
    requires
        write_planned(engine, true, fqdn, name, record_type, record, first),
        write_planned(engine, true, fqdn, name, record_type, record, second),
    ensures
        first is Ok,
        first == second,
        first->Ok_0.method == Method::Put,
        first->Ok_0.url == engine.endpoint + record_path(fqdn, name, record_type),
        first->Ok_0.body == Some(record.json()),
        stored_after(stored_after(store, first->Ok_0), second->Ok_0) == stored_after(
            store,
            first->Ok_0,
        ),
        stored_after(store, first->Ok_0)[first->Ok_0.url] == record.json(),
{
    let request = first->Ok_0;
    assert(stored_after(stored_after(store, request), request) =~= stored_after(store, request));
}

impl Api {
    /// Plans the call that lists the records of a domain.
    pub fn records(&self, fqdn: &str) -> (call: Call<Vec<Record>>)
        ensures
            call@ == self@.request(Method::Get, records_path(fqdn@), None),
            header_text_allowed(call@.authorization),
    {
        let path = records_url(fqdn);
        self.engine().get(path.as_str())
    }

    /// Plans the call that lists the records of a domain that bear one name.
    pub fn records_by_name(&self, fqdn: &str, rrset_name: &str) -> (call: Call<Vec<Record>>)
        ensures
            call@ == self@.request(Method::Get, named_records_path(fqdn@, rrset_name@), None),
            header_text_allowed(call@.authorization),
    {
        let path = named_records_url(fqdn, rrset_name);
        self.engine().get(path.as_str())
    }

    /// Plans the call that reads the one record with this name and type.
    pub fn record_by_name_and_type(&self, fqdn: &str, rrset_name: &str, rrset_type: &str) -> (call:
        Call<Record>)
        ensures
            call@ == self@.request(
                Method::Get,
                record_path(fqdn@, rrset_name@, rrset_type@),
                None,
            ),
            header_text_allowed(call@.authorization),
    {
        let path = record_url(fqdn, rrset_name, rrset_type);
        self.engine().get(path.as_str())
    }

    /// Plans the write of an encoded record to the record's path: a PUT where
    /// the record is to be overwritten, a POST where it is to be created.
    /// Where the encoding failed, so does the plan, with the same error.
    pub fn write_record(
        &self,
        overwrite: bool,
        fqdn: &str,
        rrset_name: &str,
        rrset_type: &str,
        body: Result<String, CallError>,
    ) -> (plan: Result<Call<()>, CallError>)
        ensures
            plan_view(plan) == write_plan(
                self@,
                write_method(overwrite),
                record_path(fqdn@, rrset_name@, rrset_type@),
                body_view(body),
            ),
            plan matches Ok(call) ==> header_text_allowed(call@.authorization),
    {
        let path = record_url(fqdn, rrset_name, rrset_type);
        match body {
            Err(error) => Err(error),
            Ok(text) => {
                if overwrite {
                    Ok(self.engine().put(path.as_str(), text))
                } else {
                    Ok(self.engine().post(path.as_str(), text))
                }
            },
        }
    }

    /// Plans the call that creates the record with this name and type: a POST
    /// of the record's body. The plan does not fail.
    pub fn create_record_by_name_and_type(
        &self,
        fqdn: &str,
        rrset_name: &str,
        rrset_type: &str,
        record: &UpsertRecord,
    ) -> (plan: Result<Call<()>, CallError>)
        ensures
            plan matches Ok(call) && call@ == self@.request(
                Method::Post,
                record_path(fqdn@, rrset_name@, rrset_type@),
                Some(record@.json()),
            ) && header_text_allowed(call@.authorization),
            write_planned(
                self@,
                false,
                fqdn@,
                rrset_name@,
                rrset_type@,
                record@,
                plan_view(plan),
            ),
    {
        self.write_record(false, fqdn, rrset_name, rrset_type, record.to_json())
    }

    /// Plans the call that overwrites the record with this name and type: a
    /// PUT of the record's body, so that repeating it leaves the same record.
    /// The plan does not fail.
    pub fn upsert_record_by_name_and_type(
        &self,
        fqdn: &str,
        rrset_name: &str,
        rrset_type: &str,
        record: &UpsertRecord,
    ) -> (plan: Result<Call<()>, CallError>)
        ensures
            plan matches Ok(call) && call@ == self@.request(
                Method::Put,
                record_path(fqdn@, rrset_name@, rrset_type@),
                Some(record@.json()),
            ) && header_text_allowed(call@.authorization),
            write_planned(
                self@,
                true,
                fqdn@,
                rrset_name@,
                rrset_type@,
                record@,
                plan_view(plan),
            ),
    {
        self.write_record(true, fqdn, rrset_name, rrset_type, record.to_json())
    }

    /// Plans the call that deletes the record with this name and type.
    pub fn delete_record_by_name_and_type(
        &self,
        fqdn: &str,
        rrset_name: &str,
        rrset_type: &str,
    ) -> (call: Call<()>)
        ensures
            call@ == self@.request(
                Method::Delete,
                record_path(fqdn@, rrset_name@, rrset_type@),
                None,
            ),
            header_text_allowed(call@.authorization),
    {
        let path = record_url(fqdn, rrset_name, rrset_type);
        self.engine().delete(path.as_str())
    }
}

} // verus!
