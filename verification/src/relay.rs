//! The command relay.
//!
//! A UI layer issues one of five named commands. Three are placeholders that
//! always succeed with a fixed acknowledgement; the status query renders the
//! ecosystem status document; the backend query becomes an HTTP POST aimed at
//! the local backend. The relay itself performs no transport: [`dispatch`]
//! either replies at once or hands back the request to send, and
//! [`complete_query`] turns the transport's outcome into the caller's result.

use vstd::prelude::*;
use vstd::string::StringExecFns;
use crate::status::{get_ecosystem_status, is_status_text};

verus! {

/// The fixed base address of the backend; the caller's endpoint path is
/// appended to it unchanged.
pub open spec fn base_url() -> Seq<char> {
    "http://localhost:9090"@
}

/// Acknowledgement for starting a voice session.
pub open spec fn start_ack() -> Seq<char> {
    "Voice session started"@
}

/// Acknowledgement for stopping a voice session.
pub open spec fn stop_ack() -> Seq<char> {
    "Voice session stopped"@
}

/// Acknowledgement for a voice command handed in for processing.
pub open spec fn process_ack() -> Seq<char> {
    "Processing voice command..."@
}

/// The error text when the request could not be sent or got no response.
pub open spec fn transport_failure_msg(cause: Seq<char>) -> Seq<char> {
    "API request failed: "@ + cause
}

/// The error text when a response arrived but its body could not be read.
pub open spec fn read_failure_msg(cause: Seq<char>) -> Seq<char> {
    "Failed to read response: "@ + cause
}

/// A command as the UI layer hands it in.
pub enum Command {
    StartSession,
    StopSession,
    ProcessCommand(Vec<u8>),
    QueryBackend(String, String),
    GetEcosystemStatus,
}

/// An HTTP request for the transport to carry out, fully determined: method,
/// target, content type and body.
pub struct HttpRequest {
    pub method: String,
    pub url: String,
    pub content_type: String,
    pub body: String,
}

/// What the transport came back with: a response body read in full, a
/// transport failure, or a response whose body could not be read.
pub enum HttpOutcome {
    ResponseBody(String),
    TransportFailure(String),
    BodyReadFailure(String),
}

/// What the relay decided for a command: either a finished reply, or an HTTP
/// request that the transport must send, whose outcome then goes through
/// [`complete_query`].
pub enum Action {
    Reply(Result<String, String>),
    SendHttp(HttpRequest),
}

/// Starts a voice session. Always succeeds with the fixed acknowledgement.
pub fn start_voice_session() -> (r: Result<String, String>)
    ensures
        r matches Ok(s) && s@ == start_ack(),
{
    Ok(String::from_str("Voice session started"))
}

/// Stops a voice session. Always succeeds with the fixed acknowledgement.
pub fn stop_voice_session() -> (r: Result<String, String>)
    ensures
        r matches Ok(s) && s@ == stop_ack(),
{
    Ok(String::from_str("Voice session stopped"))
}

/// Accepts a recorded voice command. The audio is not inspected; the call
/// always succeeds with the fixed acknowledgement.
#[allow(unused_variables)]
pub fn process_voice_command(audio_data: Vec<u8>) -> (r: Result<String, String>)
    ensures
        r matches Ok(s) && s@ == process_ack(),
{
    Ok(String::from_str("Processing voice command..."))
}

/// Builds the backend request for a query: a POST to the fixed base address
/// with the endpoint path appended unchanged, JSON content type, and the
/// caller's data as the body, unmodified.
pub fn build_query_request(endpoint: &str, data: &str) -> (q: HttpRequest)
    ensures
        q.method@ == "POST"@,
        q.url@ == base_url() + endpoint@,
        q.content_type@ == "application/json"@,
        q.body@ == data@,
{
    let mut url: String = String::from_str("http://localhost:9090");
    url.append(endpoint);
    HttpRequest {
        method: String::from_str("POST"),
        url,
        content_type: String::from_str("application/json"),
        body: String::from_str(data),
    }
}

/// Turns the transport's outcome into the caller's result: a body read in
/// full is the success value as it stands; either failure becomes the error
/// text that embeds its cause.
pub fn complete_query(outcome: HttpOutcome) -> (r: Result<String, String>)
    ensures
        match outcome {
            HttpOutcome::ResponseBody(t) => r matches Ok(s) && s@ == t@,
            HttpOutcome::TransportFailure(e) => r matches Err(m) && m@ == transport_failure_msg(
                e@,
            ),
            HttpOutcome::BodyReadFailure(e) => r matches Err(m) && m@ == read_failure_msg(e@),
        },
{
    match outcome {
        HttpOutcome::ResponseBody(t) => Ok(t),
        HttpOutcome::TransportFailure(e) => {
            let mut m: String = String::from_str("API request failed: ");
            m.append(e.as_str());
            Err(m)
        },
        HttpOutcome::BodyReadFailure(e) => {
            let mut m: String = String::from_str("Failed to read response: ");
            m.append(e.as_str());
            Err(m)
        },
    }
}

/// Decides a command: the three placeholders and the status query are
/// answered on the spot, each as its own contract states; a backend query
/// becomes the HTTP request to send.
pub fn dispatch(cmd: Command) -> (a: Action)
    ensures
        match cmd {
            Command::StartSession => a matches Action::Reply(Ok(s)) && s@ == start_ack(),
            Command::StopSession => a matches Action::Reply(Ok(s)) && s@ == stop_ack(),
            Command::ProcessCommand(_) => a matches Action::Reply(Ok(s)) && s@ == process_ack(),
            Command::QueryBackend(endpoint, data) => a matches Action::SendHttp(q) && q.method@
                == "POST"@ && q.url@ == base_url() + endpoint@ && q.content_type@
                == "application/json"@ && q.body@ == data@,
            Command::GetEcosystemStatus => a matches Action::Reply(Ok(s)) && is_status_text(s@),
        },
{
    match cmd {
        Command::StartSession => Action::Reply(start_voice_session()),
        Command::StopSession => Action::Reply(stop_voice_session()),
        Command::ProcessCommand(audio_data) => Action::Reply(process_voice_command(audio_data)),
        Command::QueryBackend(endpoint, data) => Action::SendHttp(
            build_query_request(endpoint.as_str(), data.as_str()),
        ),
        Command::GetEcosystemStatus => Action::Reply(get_ecosystem_status()),
    }
}

} // verus!
