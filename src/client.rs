//! The lifecycle protocol client: registration with the host and decoding of
//! the events that the host hands out on each poll.
use crate::json::{json_str_member, json_u64_member, opt_view, str_member, u64_member};
use vstd::prelude::*;
use vstd::string::StringExecFns;

verus! {

/// Metadata that the host returns when the extension registers.
#[derive(Debug)]
pub struct RegisterResponse {
    pub function_name: String,
    pub function_version: String,
    pub handler: String,
}

/// A notice that the function is being invoked; `deadline_ms` is the
/// absolute time by which the invocation must complete.
#[derive(Debug)]
pub struct InvokeResponse {
    pub deadline_ms: u64,
    pub request_id: String,
    pub invoked_function_arn: String,
}

/// A notice that the execution environment shuts down.
#[derive(Debug)]
pub struct ShutdownResponse {
    pub shutdown_reason: String,
    pub deadline_ms: u64,
}

/// All possible next event responses.
#[derive(Debug)]
pub enum NextEventResponse {
    Invoke(InvokeResponse),
    Shutdown(ShutdownResponse),
}

/// What can go wrong while speaking to the host.
#[derive(Debug)]
pub enum ClientError {
    /// The host answered the registration with a status other than 200.
    Rejected { status: u16, body: String },
    /// The registration was acknowledged without a session identifier.
    MissingIdentifier,
    /// The registration metadata lacks one of its three members.
    MalformedRegistration,
    /// An event body carries no `eventType` string.
    MissingEventType,
    /// An event body carries an `eventType` that is neither kind.
    UnknownEventType { event_type: String },
    /// An event body lacks a member that its kind requires.
    MissingEventField,
    /// A poll was asked for before a successful registration.
    NotRegistered,
    /// The request never got a response.
    Transport { detail: String },
}

/// The host accepts a registration with this status only.
pub const STATUS_OK: u16 = 200;

/// The session identifier, when present, and the metadata of a registration.
pub open spec fn registration_outcome(
    r: Result<(String, RegisterResponse), ClientError>,
    status: u16,
    identifier: Option<Seq<char>>,
    body: Seq<char>,
    function_name: Option<Seq<char>>,
    function_version: Option<Seq<char>>,
    handler: Option<Seq<char>>,
) -> bool {
    if status != STATUS_OK {
        r matches Err(ClientError::Rejected { status: s, body: b }) && s == status && b@ == body
    } else if identifier.is_none() {
        r matches Err(ClientError::MissingIdentifier)
    } else if function_name.is_none() || function_version.is_none() || handler.is_none() {
        r matches Err(ClientError::MalformedRegistration)
    } else {
        r matches Ok((id, resp)) && id@ == identifier.unwrap()
            && resp.function_name@ == function_name.unwrap()
            && resp.function_version@ == function_version.unwrap()
            && resp.handler@ == handler.unwrap()
    }
}

/// Decides a registration from the response's status, its identifier header,
/// its body and the three metadata members read from that body.
pub fn accept_registration(
    status: u16,
    identifier: Option<String>,
    body: String,
    function_name: Option<String>,
    function_version: Option<String>,
    handler: Option<String>,
) -> (r: Result<(String, RegisterResponse), ClientError>)
    ensures
        registration_outcome(
            r,
            status,
            opt_view(identifier),
            body@,
            opt_view(function_name),
            opt_view(function_version),
            opt_view(handler),
        ),
{
    if status != STATUS_OK {
        return Err(ClientError::Rejected { status, body });
    }
    let id = match identifier {
        Some(id) => id,
        None => return Err(ClientError::MissingIdentifier),
    };
    match (function_name, function_version, handler) {
        (Some(function_name), Some(function_version), Some(handler)) => Ok(
            (id, RegisterResponse { function_name, function_version, handler }),
        ),
        _ => Err(ClientError::MalformedRegistration),
    }
}

/// The event that the members of an event body make up.
pub open spec fn event_outcome(
    r: Result<NextEventResponse, ClientError>,
    event_type: Option<Seq<char>>,
    deadline_ms: Option<u64>,
    request_id: Option<Seq<char>>,
    invoked_function_arn: Option<Seq<char>>,
    shutdown_reason: Option<Seq<char>>,
) -> bool {
    match event_type {
        None => r matches Err(ClientError::MissingEventType),
        Some(t) => if t == "INVOKE"@ {
            if deadline_ms.is_some() && request_id.is_some() && invoked_function_arn.is_some() {
                r matches Ok(NextEventResponse::Invoke(e)) && e.deadline_ms == deadline_ms.unwrap()
                    && e.request_id@ == request_id.unwrap()
                    && e.invoked_function_arn@ == invoked_function_arn.unwrap()
            } else {
                r matches Err(ClientError::MissingEventField)
            }
        } else if t == "SHUTDOWN"@ {
            if deadline_ms.is_some() && shutdown_reason.is_some() {
                r matches Ok(NextEventResponse::Shutdown(e)) && e.deadline_ms == deadline_ms.unwrap()
                    && e.shutdown_reason@ == shutdown_reason.unwrap()
            } else {
                r matches Err(ClientError::MissingEventField)
            }
        } else {
            r matches Err(ClientError::UnknownEventType { event_type: u }) && u@ == t
        },
    }
}

/// Builds the event that an event body's members describe; the `eventType`
/// member picks the kind, and an unknown kind is an error.
pub fn classify_event(
    event_type: Option<String>,
    deadline_ms: Option<u64>,
    request_id: Option<String>,
    invoked_function_arn: Option<String>,
    shutdown_reason: Option<String>,
) -> (r: Result<NextEventResponse, ClientError>)
    ensures
        event_outcome(
            r,
            opt_view(event_type),
            deadline_ms,
            opt_view(request_id),
            opt_view(invoked_function_arn),
            opt_view(shutdown_reason),
        ),
{
    let t = match event_type {
        Some(t) => t,
        None => return Err(ClientError::MissingEventType),
    };
    if t == String::from_str("INVOKE") {
        match (deadline_ms, request_id, invoked_function_arn) {
            (Some(deadline_ms), Some(request_id), Some(invoked_function_arn)) => Ok(
                NextEventResponse::Invoke(
                    InvokeResponse { deadline_ms, request_id, invoked_function_arn },
                ),
            ),
            _ => Err(ClientError::MissingEventField),
        }
    } else if t == String::from_str("SHUTDOWN") {
        match (deadline_ms, shutdown_reason) {
            (Some(deadline_ms), Some(shutdown_reason)) => Ok(
                NextEventResponse::Shutdown(ShutdownResponse { shutdown_reason, deadline_ms }),
            ),
            _ => Err(ClientError::MissingEventField),
        }
    } else {
        Err(ClientError::UnknownEventType { event_type: t })
    }
}

/// Decodes the JSON body of a poll response into an event.
pub fn decode_event(body: &str) -> (r: Result<NextEventResponse, ClientError>)
    ensures
        event_outcome(
            r,
            json_str_member(body@, "eventType"@),
            json_u64_member(body@, "deadlineMs"@),
            json_str_member(body@, "requestId"@),
            json_str_member(body@, "invokedFunctionArn"@),
            json_str_member(body@, "shutdownReason"@),
        ),
{
    let event_type = str_member(body, "eventType");
    let deadline_ms = u64_member(body, "deadlineMs");
    let request_id = str_member(body, "requestId");
    let invoked_function_arn = str_member(body, "invokedFunctionArn");
    let shutdown_reason = str_member(body, "shutdownReason");
    classify_event(event_type, deadline_ms, request_id, invoked_function_arn, shutdown_reason)
}

/// Speaks the lifecycle protocol: holds the host's extension endpoint and,
/// once registered, the session identifier.
pub struct Client {
    pub base_url: String,
    pub extension_id: Option<String>,
}

impl Client {
    /// A client for the host `base_url` (host and port), not yet registered.
    pub fn new(base_url: String) -> (r: Client)
        ensures
            r.base_url@ == "http://"@ + base_url@ + "/2020-01-01/extension"@,
            r.extension_id is None,
    {
        let computed_url = String::from_str("http://").concat(base_url.as_str()).concat(
            "/2020-01-01/extension",
        );
        Client { base_url: computed_url, extension_id: None }
    }

    /// Where the registration is posted.
    pub fn register_url(&self) -> (r: String)
        ensures
            r@ == self.base_url@ + "/register"@,
    {
        self.base_url.clone().concat("/register")
    }

    /// The body of the registration request: interest in both event kinds.
    pub fn register_body() -> (r: String)
        ensures
            r@ == "{\"events\":[\"INVOKE\",\"SHUTDOWN\"]}"@,
    {
        String::from_str("{\"events\":[\"INVOKE\",\"SHUTDOWN\"]}")
    }

    /// Where the next event is awaited, and the session identifier that the
    /// request carries; an error before registration.
    pub fn next_event_request(&self) -> (r: Result<(String, String), ClientError>)
        ensures
            match self.extension_id {
                None => r matches Err(ClientError::NotRegistered),
                Some(id) => r matches Ok((url, i)) && url@ == self.base_url@ + "/event/next"@
                    && i@ == id@,
            },
    {
        match &self.extension_id {
            None => Err(ClientError::NotRegistered),
            Some(id) => Ok((self.base_url.clone().concat("/event/next"), id.clone())),
        }
    }

    /// Completes a registration from the host's response: its status, its
    /// session identifier header and its JSON body. On success the client
    /// holds the identifier; otherwise it is left as it was.
    pub fn register(&mut self, status: u16, identifier: Option<String>, body: String) -> (r:
        Result<RegisterResponse, ClientError>)
        ensures
            final(self).base_url == old(self).base_url,
            match r {
                Ok(resp) => status == STATUS_OK && identifier.is_some()
                    && (final(self).extension_id matches Some(id) && id@ == identifier.unwrap()@)
                    && json_str_member(body@, "functionName"@) == Some(resp.function_name@)
                    && json_str_member(body@, "functionVersion"@) == Some(
                    resp.function_version@,
                ) && json_str_member(body@, "handler"@) == Some(resp.handler@),
                Err(e) => final(self).extension_id == old(self).extension_id,
            },
            status != STATUS_OK ==> (r matches Err(ClientError::Rejected { status: s, body: b })
                && s == status && b@ == body@),
            status == STATUS_OK && identifier.is_none() ==> r matches Err(
                ClientError::MissingIdentifier,
            ),
            status == STATUS_OK && identifier.is_some() ==> (r is Ok <==> (json_str_member(
                body@,
                "functionName"@,
            ).is_some() && json_str_member(body@, "functionVersion"@).is_some()
                && json_str_member(body@, "handler"@).is_some())),
            status == STATUS_OK && identifier.is_some() && r is Err ==> r matches Err(
                ClientError::MalformedRegistration,
            ),
    {
        if status != STATUS_OK {
            return Err(ClientError::Rejected { status, body });
        }
        let function_name = str_member(body.as_str(), "functionName");
        let function_version = str_member(body.as_str(), "functionVersion");
        let handler = str_member(body.as_str(), "handler");
        match accept_registration(status, identifier, body, function_name, function_version, handler) {
            Ok((id, resp)) => {
                self.extension_id = Some(id);
                Ok(resp)
            },
            Err(e) => Err(e),
        }
    }

    /// Decodes the body of the response to a poll; an error before
    /// registration, for then no poll may be made.
    pub fn next_event(&self, body: &str) -> (r: Result<NextEventResponse, ClientError>)
        ensures
            self.extension_id is None ==> r matches Err(ClientError::NotRegistered),
            self.extension_id is Some ==> event_outcome(
                r,
                json_str_member(body@, "eventType"@),
                json_u64_member(body@, "deadlineMs"@),
                json_str_member(body@, "requestId"@),
                json_str_member(body@, "invokedFunctionArn"@),
                json_str_member(body@, "shutdownReason"@),
            ),
    {
        if self.extension_id.is_none() {
            return Err(ClientError::NotRegistered);
        }
        decode_event(body)
    }
}

} // verus!
