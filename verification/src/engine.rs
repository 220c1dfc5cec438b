//! The REST engine: where the upstream service lives, how it is addressed with
//! a bearer credential, and how what came back is classified.
//!
//! Nothing here touches the network. An [`Engine`] plans a [`Request`]; the
//! caller sends it and reports a [`Reply`], which is then turned into a result.

use std::marker::PhantomData;

use vstd::prelude::*;
use vstd::string::StringExecFns;
use vstd::utf8::{encode_scalar, encode_utf8};

use crate::text::{decimal, decimal_text, joined};

verus! {

/// Used to select the upstream service.
#[derive(Debug, Clone, PartialEq, Eq)]
pub enum Endpoint {
    /// The production service.
    Prod,
    /// The sandbox service.
    Sandbox,
    /// A service at the given base URL.
    Custom(String),
}

impl Endpoint {
    /// The base URL that every path of a call is appended to.
    pub open spec fn base_url(self) -> Seq<char> {
        match self {
            Endpoint::Prod => "https://api.gandi.net/v5"@,
            Endpoint::Sandbox => "https://api.sandbox.gandi.net/v5"@,
            Endpoint::Custom(url) => url@,
        }
    }

    /// Resolves the endpoint to its base URL.
    pub fn resolve(self) -> (url: String)
        ensures
            url@ == self.base_url(),
    {
        match self {
            Endpoint::Prod => "https://api.gandi.net/v5".to_owned(),
            Endpoint::Sandbox => "https://api.sandbox.gandi.net/v5".to_owned(),
            Endpoint::Custom(url) => url,
        }
    }
}

/// Why no engine could be built.
#[derive(Debug, Clone, Copy, PartialEq, Eq, Structural)]
pub enum BuildError {
    /// The credential holds a character that no HTTP header value may hold.
    InvalidCredential,
}

/// A byte that an HTTP header value may hold: anything from the space up but
/// the delete character, or a tab.
pub open spec fn header_byte_allowed(byte: u8) -> bool {
    (byte >= 32 && byte != 127) || byte == 9
}

/// Every byte may stand in an HTTP header value.
pub open spec fn header_bytes_allowed(bytes: Seq<u8>) -> bool {
    forall|i: int| 0 <= i < bytes.len() ==> header_byte_allowed(#[trigger] bytes[i])
}

/// A character that an HTTP header value may hold: no control character but
/// the tab.
pub open spec fn header_char_allowed(c: char) -> bool {
    (c as u32 >= 32 && c as u32 != 127) || c as u32 == 9
}

/// Every character may stand in an HTTP header value.
pub open spec fn header_text_allowed(text: Seq<char>) -> bool {
    forall|i: int| 0 <= i < text.len() ==> header_char_allowed(#[trigger] text[i])
}

/// The authorization header value that carries `credential` as a bearer token.
pub open spec fn bearer(credential: Seq<char>) -> Seq<char> {
    "Bearer "@ + credential
}

/// The UTF-8 bytes of one character may stand in a header value exactly if
/// the character is no control character but the tab: beyond ASCII every byte
/// is 128 or more.
proof fn lemma_scalar_bytes(scalar: u32)
    requires
        vstd::utf8::is_scalar(scalar),
    ensures
        header_bytes_allowed(encode_scalar(scalar)) <==> (scalar >= 32 && scalar != 127) || scalar
            == 9,
{
    let bytes = encode_scalar(scalar);
    if scalar <= 0x7F {
        assert((scalar & 0x7F) as u8 == scalar) by (bit_vector)
            requires
                scalar <= 0x7F,
        ;
        assert(bytes[0] == scalar);
    } else {
        assert(forall|low: u8| #![auto] (0x80u8 | low) >= 0x80u8) by (bit_vector);
        assert(forall|low: u8| #![auto] (0xC0u8 | low) >= 0x80u8) by (bit_vector);
        assert(forall|low: u8| #![auto] (0xE0u8 | low) >= 0x80u8) by (bit_vector);
        assert(forall|low: u8| #![auto] (0xF0u8 | low) >= 0x80u8) by (bit_vector);
        assert forall|i: int| 0 <= i < bytes.len() implies header_byte_allowed(
            #[trigger] bytes[i],
        ) by {
            assert(bytes[i] >= 0x80u8);
        }
    }
}

/// A text may stand in a header value exactly if its UTF-8 bytes may.
pub proof fn lemma_header_text_bytes(text: Seq<char>)
    ensures
        header_bytes_allowed(encode_utf8(text)) == header_text_allowed(text),
    decreases text.len(),
{
    if text.len() == 0 {
    } else {
        let head = encode_scalar(text[0] as u32);
        let rest = encode_utf8(text.drop_first());
        lemma_header_text_bytes(text.drop_first());
        vstd::utf8::char_is_scalar(text[0]);
        lemma_scalar_bytes(text[0] as u32);
        assert(encode_utf8(text) == head + rest);
        if header_text_allowed(text) {
            assert(header_char_allowed(text[0]));
            assert forall|i: int| 0 <= i < text.drop_first().len() implies header_char_allowed(
                #[trigger] text.drop_first()[i],
            ) by {
                assert(text.drop_first()[i] == text[i + 1]);
            }
            assert forall|i: int| 0 <= i < (head + rest).len() implies header_byte_allowed(
                #[trigger] (head + rest)[i],
            ) by {
                if i < head.len() {
                    assert((head + rest)[i] == head[i]);
                } else {
                    assert((head + rest)[i] == rest[i - head.len()]);
                }
            }
        }
        if header_bytes_allowed(head + rest) {
            assert forall|i: int| 0 <= i < head.len() implies header_byte_allowed(
                #[trigger] head[i],
            ) by {
                assert(head[i] == (head + rest)[i]);
            }
            assert forall|i: int| 0 <= i < rest.len() implies header_byte_allowed(
                #[trigger] rest[i],
            ) by {
                assert(rest[i] == (head + rest)[i + head.len()]);
            }
            assert forall|i: int| 0 <= i < text.len() implies header_char_allowed(
                #[trigger] text[i],
            ) by {
                if i > 0 {
                    assert(text[i] == text.drop_first()[i - 1]);
                }
            }
        }
    }
}

/// A bearer header may be sent exactly if its credential holds allowed
/// characters only.
pub proof fn lemma_bearer_allowed(credential: Seq<char>)
    ensures
        header_text_allowed(bearer(credential)) == header_text_allowed(credential),
{
    reveal_strlit("Bearer ");
    let prefix = "Bearer "@;
    let whole = bearer(credential);
    assert(prefix.len() == 7);
    if header_text_allowed(credential) {
        assert forall|i: int| 0 <= i < whole.len() implies header_char_allowed(
            #[trigger] whole[i],
        ) by {
            if i >= 7 {
                assert(whole[i] == credential[i - 7]);
            }
        }
    }
    if header_text_allowed(whole) {
        assert forall|i: int| 0 <= i < credential.len() implies header_char_allowed(
            #[trigger] credential[i],
        ) by {
            assert(credential[i] == whole[i + 7]);
        }
    }
}

/// The header value type of the HTTP client: a byte string and a mark that
/// says whether it is a secret.
#[verifier::external_type_specification]
#[verifier::external_body]
pub struct ExHeaderValue(reqwest::header::HeaderValue);

/// The error with which the HTTP client refuses a header value.
#[verifier::external_type_specification]
#[verifier::external_body]
pub struct ExInvalidHeaderValue(reqwest::header::InvalidHeaderValue);

/// The bytes that a header value holds: what its `as_bytes` returns.
pub uninterp spec fn header_value_bytes(value: reqwest::header::HeaderValue) -> Seq<u8>;

/// Whether a header value is marked as a secret: what its `is_sensitive`
/// returns.
pub uninterp spec fn header_value_sensitive(value: reqwest::header::HeaderValue) -> bool;

/// Calls `reqwest::header::HeaderValue::from_str`.
///
/// Trusted: that function returns a header value exactly if every byte of the
/// text's UTF-8 encoding is at least 32 and not 127, or is a tab. The value
/// it returns holds a copy of those bytes and is not marked as a secret.
#[verifier::external_body]
fn header_value_from(value: &str) -> (made: Result<
    reqwest::header::HeaderValue,
    reqwest::header::InvalidHeaderValue,
>)
    ensures
        made is Ok == header_bytes_allowed(encode_utf8(value@)),
        made matches Ok(header) ==> header_value_bytes(header) == encode_utf8(value@)
            && !header_value_sensitive(header),
{
    reqwest::header::HeaderValue::from_str(value)
}

/// Calls `HeaderValue::set_sensitive`, which tells the HTTP client whether the
/// value is a secret to keep out of its logs.
///
/// Trusted: that method sets the mark and leaves the bytes as they are.
#[verifier::external_body]
fn set_sensitive(value: &mut reqwest::header::HeaderValue, sensitive: bool)
    ensures
        header_value_bytes(*final(value)) == header_value_bytes(*old(value)),
        header_value_sensitive(*final(value)) == sensitive,
{
    value.set_sensitive(sensitive)
}

/// The HTTP method of a call.
#[derive(Debug, Clone, Copy, PartialEq, Eq, Structural)]
pub enum Method {
    Get,
    Post,
    Put,
    Delete,
}

/// One call to the upstream service, ready to be sent.
#[derive(Debug, Clone, PartialEq, Eq)]
pub struct Request {
    pub method: Method,
    /// Base URL and path.
    pub url: String,
    /// Value of the `authorization` header.
    pub authorization: String,
    /// Value of the `content-type` header, where a body is sent.
    pub content_type: Option<String>,
    pub body: Option<String>,
}

/// Mathematical model of a [`Request`].
pub struct RequestView {
    pub method: Method,
    pub url: Seq<char>,
    pub authorization: Seq<char>,
    pub content_type: Option<Seq<char>>,
    pub body: Option<Seq<char>>,
}

/// The model of an optional text.
pub open spec fn optional_text(text: Option<String>) -> Option<Seq<char>> {
    match text {
        Some(text) => Some(text@),
        None => None,
    }
}

impl View for Request {
    type V = RequestView;

    open spec fn view(&self) -> RequestView {
        RequestView {
            method: self.method,
            url: self.url@,
            authorization: self.authorization@,
            content_type: optional_text(self.content_type),
            body: optional_text(self.body),
        }
    }
}

/// What the transport observed of one call.
#[derive(Debug, Clone, Copy, PartialEq, Eq, Structural)]
pub enum Reply {
    /// No response came: name resolution, connection or TLS failed.
    Unreachable,
    /// A response came, with this HTTP status.
    Status(u16),
}

/// Why a call failed.
#[derive(Debug, Clone, Copy, PartialEq, Eq, Structural)]
pub enum CallError {
    /// The transport failed before any response.
    Network,
    /// The service answered with a status outside 200..300.
    Upstream(u16),
    /// The body of a successful response could not be decoded.
    Decode,
    /// The body of the request could not be encoded.
    Encode,
}

/// The statuses that count as success.
pub open spec fn is_success(status: u16) -> bool {
    200 <= status < 300
}

impl Reply {
    /// The result of a call that expects no body back.
    pub open spec fn outcome(self) -> Result<(), CallError> {
        match self {
            Reply::Unreachable => Err(CallError::Network),
            Reply::Status(status) => if is_success(status) {
                Ok(())
            } else {
                Err(CallError::Upstream(status))
            },
        }
    }

    /// The result of a call whose body, on success, was decoded to `payload`
    /// (`None` where decoding failed).
    pub open spec fn outcome_with<T>(self, payload: Option<T>) -> Result<T, CallError> {
        match self.outcome() {
            Err(error) => Err(error),
            Ok(_) => match payload {
                Some(value) => Ok(value),
                None => Err(CallError::Decode),
            },
        }
    }

    /// Classifies the reply to a call that expects no body back: success is a
    /// status in 200..300 and nothing else.
    pub fn into_result(self) -> (result: Result<(), CallError>)
        ensures
            result == self.outcome(),
    {
        match self {
            Reply::Unreachable => Err(CallError::Network),
            Reply::Status(status) => {
                if 200 <= status && status < 300 {
                    Ok(())
                } else {
                    Err(CallError::Upstream(status))
                }
            },
        }
    }

    /// Classifies the reply to a call that reads a body. The status decides
    /// first; `payload` is looked at on success only.
    pub fn into_decoded<T>(self, payload: Option<T>) -> (result: Result<T, CallError>)
        ensures
            result == self.outcome_with(payload),
    {
        match self.into_result() {
            Err(error) => Err(error),
            Ok(_) => match payload {
                Some(value) => Ok(value),
                None => Err(CallError::Decode),
            },
        }
    }
}

/// A planned call together with the type that its reply decodes to.
pub struct Call<T> {
    request: Request,
    payload: PhantomData<T>,
}

impl<T> View for Call<T> {
    type V = RequestView;

    closed spec fn view(&self) -> RequestView {
        self.request@
    }
}

impl<T> Call<T> {
    /// The request to send.
    pub fn request(&self) -> (request: &Request)
        ensures
            request@ == self@,
    {
        &self.request
    }

    /// Turns what the transport observed into the call's result. `payload` is
    /// the decoded body of a successful response, `None` where it could not be
    /// decoded; it is looked at on success only.
    pub fn receive(self, reply: Reply, payload: Option<T>) -> (result: Result<T, CallError>)
        ensures
            result == reply.outcome_with(payload),
    {
        reply.into_decoded(payload)
    }
}

impl Call<()> {
    /// Turns what the transport observed into the result of a call that reads
    /// no body.
    pub fn finish(self, reply: Reply) -> (result: Result<(), CallError>)
        ensures
            result == reply.outcome(),
    {
        reply.into_result()
    }
}

impl CallError {
    /// The text that describes this failure.
    pub open spec fn spec_message(self) -> Seq<char> {
        match self {
            CallError::Network => "Network issue !"@,
            CallError::Upstream(status) => "Server returned "@ + decimal(status as nat) + " !"@,
            CallError::Decode => "Payload can't be decoded !"@,
            CallError::Encode => "Payload can't be encoded !"@,
        }
    }

    /// The text that describes this failure.
    pub fn message(&self) -> (text: String)
        ensures
            text@ == self.spec_message(),
    {
        match self {
            CallError::Network => "Network issue !".to_owned(),
            CallError::Upstream(status) => {
                let code = decimal_text(*status as u32);
                let mut text = "Server returned ".to_owned();
                text.append(code.as_str());
                text.append(" !");
                text
            },
            CallError::Decode => "Payload can't be decoded !".to_owned(),
            CallError::Encode => "Payload can't be encoded !".to_owned(),
        }
    }
}

/// The engine that addresses the upstream service: a base URL and the bearer
/// header that authenticates every call, as text and as the HTTP client's
/// header value made from that text.
pub struct Engine {
    endpoint: String,
    authorization: String,
    header: reqwest::header::HeaderValue,
}

/// Mathematical model of an [`Engine`].
pub struct EngineView {
    pub endpoint: Seq<char>,
    pub authorization: Seq<char>,
}

impl View for Engine {
    type V = EngineView;

    closed spec fn view(&self) -> EngineView {
        EngineView { endpoint: self.endpoint@, authorization: self.authorization@ }
    }
}

impl EngineView {
    /// The request that the engine plans for a path.
    pub open spec fn request(
        self,
        method: Method,
        path: Seq<char>,
        body: Option<Seq<char>>,
    ) -> RequestView {
        RequestView {
            method,
            url: self.endpoint + path,
            authorization: self.authorization,
            content_type: match body {
                Some(_) => Some("application/json"@),
                None => None,
            },
            body,
        }
    }
}

impl Engine {
    #[verifier::type_invariant]
    spec fn sendable(self) -> bool {
        &&& header_text_allowed(self.authorization@)
        &&& header_value_bytes(self.header) == encode_utf8(self.authorization@)
        &&& header_value_sensitive(self.header)
    }

    /// Builds the engine for `endpoint` that authenticates with the personal
    /// access token `pat`. Fails exactly if the token holds a character that
    /// no header value may hold.
    pub fn build(endpoint: Endpoint, pat: &str) -> (built: Result<Engine, BuildError>)
        ensures
            match built {
                Ok(engine) => {
                    &&& header_text_allowed(pat@)
                    &&& engine@.endpoint == endpoint.base_url()
                    &&& engine@.authorization == bearer(pat@)
                },
                Err(error) => !header_text_allowed(pat@) && error == BuildError::InvalidCredential,
            },
    {
        let authorization = joined("Bearer ", pat);
        proof {
            lemma_header_text_bytes(authorization@);
            lemma_bearer_allowed(pat@);
        }
        match header_value_from(authorization.as_str()) {
            Err(_) => Err(BuildError::InvalidCredential),
            Ok(made) => {
                let mut header = made;
                set_sensitive(&mut header, true);
                Ok(Engine { endpoint: endpoint.resolve(), authorization, header })
            },
        }
    }

    /// The base URL.
    pub fn endpoint(&self) -> (url: &str)
        ensures
            url@ == self@.endpoint,
    {
        self.endpoint.as_str()
    }

    /// The value of the `authorization` header of every call. It holds no
    /// character that a header value may not hold.
    pub fn authorization(&self) -> (value: &str)
        ensures
            value@ == self@.authorization,
            header_text_allowed(value@),
    {
        proof {
            use_type_invariant(self);
        }
        self.authorization.as_str()
    }

    /// The `authorization` header as the HTTP client's header value: it holds
    /// the UTF-8 bytes of the text that `authorization` returns and is marked
    /// as a secret.
    pub fn header_value(&self) -> (value: &reqwest::header::HeaderValue)
        ensures
            header_value_bytes(*value) == encode_utf8(self@.authorization),
            header_value_sensitive(*value),
    {
        proof {
            use_type_invariant(self);
        }
        &self.header
    }

    fn plan<T>(&self, method: Method, url: &str, body: Option<String>) -> (call: Call<T>)
        ensures
            call@ == self@.request(method, url@, optional_text(body)),
            header_text_allowed(call@.authorization),
    {
        proof {
            use_type_invariant(self);
        }
        let content_type = match &body {
            Some(_) => Some("application/json".to_owned()),
            None => None,
        };
        let request = Request {
            method,
            url: joined(self.endpoint.as_str(), url),
            authorization: self.authorization.clone(),
            content_type,
            body,
        };
        Call { request, payload: PhantomData }
    }

    /// Plans a GET of the path `url`, whose reply decodes to a `T`.
    pub fn get<T>(&self, url: &str) -> (call: Call<T>)
        ensures
            call@ == self@.request(Method::Get, url@, None),
            header_text_allowed(call@.authorization),
    {
        self.plan(Method::Get, url, None)
    }

    /// Plans a POST of the JSON text `body` to the path `url`.
    pub fn post(&self, url: &str, body: String) -> (call: Call<()>)
        ensures
            call@ == self@.request(Method::Post, url@, Some(body@)),
            header_text_allowed(call@.authorization),
    {
        self.plan(Method::Post, url, Some(body))
    }

    /// Plans a PUT of the JSON text `body` to the path `url`.
    pub fn put(&self, url: &str, body: String) -> (call: Call<()>)
        ensures
            call@ == self@.request(Method::Put, url@, Some(body@)),
            header_text_allowed(call@.authorization),
    {
        self.plan(Method::Put, url, Some(body))
    }

    /// Plans a DELETE of the path `url`.
    pub fn delete(&self, url: &str) -> (call: Call<()>)
        ensures
            call@ == self@.request(Method::Delete, url@, None),
            header_text_allowed(call@.authorization),
    {
        self.plan(Method::Delete, url, None)
    }
}

} // verus!
