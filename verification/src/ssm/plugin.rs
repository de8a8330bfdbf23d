//! The command line of the forwarding process, which turns a negotiated remote
//! session into a listening local port.

use crate::process::{texts, CommandLine, CommandLineView};
use crate::ssm::error::{SSMError, SSMErrorKind, SSMErrorView};
use vstd::prelude::*;
use vstd::string::*;

verus! {

/// A negotiated remote session: its identifier and the credentials of its
/// data channel.
#[derive(Debug)]
pub struct SessionHandle {
    pub session_id: String,
    pub token_value: String,
    pub stream_url: String,
}

/// A [`SessionHandle`] as sequences of characters.
#[verifier::ext_equal]
pub ghost struct SessionHandleView {
    pub session_id: Seq<char>,
    pub token_value: Seq<char>,
    pub stream_url: Seq<char>,
}

impl View for SessionHandle {
    type V = SessionHandleView;

    open spec fn view(&self) -> SessionHandleView {
        SessionHandleView {
            session_id: self.session_id@,
            token_value: self.token_value@,
            stream_url: self.stream_url@,
        }
    }
}

/// `serde_json::Error`: why a value could not be written as JSON. Nothing is
/// known of what is inside.
#[verifier::external_type_specification]
#[verifier::external_body]
pub struct ExJsonError(serde_json::Error);

/// What `serde_json::to_string` makes of a string: its JSON string literal,
/// quoted and escaped, or `None` where it reports an error.
pub uninterp spec fn json_string(text: Seq<char>) -> Option<Seq<char>>;

/// `serde_json::to_string` on a string slice. The contract only names the
/// result: the same text always gives the same literal or the same refusal.
#[verifier::external_body]
fn json_encode(text: &str) -> (encoded: Result<String, serde_json::Error>)
    ensures
        encoded matches Ok(literal) ==> json_string(text@) == Some(literal@),
        encoded is Err ==> json_string(text@) is None,
{
    serde_json::to_string(text)
}

/// The session document handed to the forwarding process: a JSON object of the
/// three credentials, given as JSON string literals, in this order.
pub open spec fn session_document(
    session_id: Seq<char>,
    token_value: Seq<char>,
    stream_url: Seq<char>,
) -> Seq<char> {
    "{\"SessionId\":"@ + session_id + ",\"TokenValue\":"@ + token_value + ",\"StreamUrl\":"@
        + stream_url + "}"@
}

/// The forwarding process for a session document in a region.
pub open spec fn forwarding_command(document: Seq<char>, region: Seq<char>) -> CommandLineView {
    CommandLineView {
        program: "session-manager-plugin"@,
        arguments: seq![document, region, "StartSession"@],
    }
}

/// The failure reported when a credential has no JSON string literal.
pub open spec fn document_failure() -> SSMErrorView {
    SSMErrorView {
        kind: SSMErrorKind::Serde,
        msg: "initiate_ssm_port_forwarding : Error when attempting to create response string"@,
    }
}

/// The failure reported when the forwarding process does not start.
pub open spec fn spawn_failure() -> SSMErrorView {
    SSMErrorView {
        kind: SSMErrorKind::CommandSpawn,
        msg: "initiate_ssm_port_forwarding : Error when attempting to spawn session manager plugin command thread"@,
    }
}

/// The forwarding process for `session` in `region`, or [`document_failure`]
/// where a credential cannot be encoded.
pub open spec fn port_forwarding(session: SessionHandleView, region: Seq<char>) -> Result<
    CommandLineView,
    SSMErrorView,
> {
    match (
        json_string(session.session_id),
        json_string(session.token_value),
        json_string(session.stream_url),
    ) {
        (Some(id), Some(token), Some(url)) => Ok(
            forwarding_command(session_document(id, token, url), region),
        ),
        _ => Err(document_failure()),
    }
}

/// A command line or a failure, each by its view.
pub open spec fn command_view(command: Result<CommandLine, SSMError>) -> Result<
    CommandLineView,
    SSMErrorView,
> {
    match command {
        Ok(line) => Ok(line@),
        Err(e) => Err(e@),
    }
}

/// Writes the session document from the JSON string literals of the three
/// credentials.
pub fn write_session_document(session_id: &str, token_value: &str, stream_url: &str) -> (document:
    String)
    ensures
        document@ == session_document(session_id@, token_value@, stream_url@),
{
    let mut document = String::from_str("{\"SessionId\":");
    document.append(session_id);
    document.append(",\"TokenValue\":");
    document.append(token_value);
    document.append(",\"StreamUrl\":");
    document.append(stream_url);
    document.append("}");
    document
}

/// The command line that starts the forwarding process on `document`.
pub fn forwarding_command_line(document: String, region: &str) -> (line: CommandLine)
    ensures
        line@ == forwarding_command(document@, region@),
{
    let mut arguments: Vec<String> = Vec::new();
    arguments.push(document);
    arguments.push(String::from_str(region));
    arguments.push(String::from_str("StartSession"));
    assert(texts(arguments@) =~= seq![document@, region@, "StartSession"@]);
    CommandLine { program: String::from_str("session-manager-plugin"), arguments }
}

/// The failure of the forwarding process to start, as a value.
pub fn spawn_error() -> (e: SSMError)
    ensures
        e@ == spawn_failure(),
{
    SSMError {
        kind: SSMErrorKind::CommandSpawn,
        msg: String::from_str(
            "initiate_ssm_port_forwarding : Error when attempting to spawn session manager plugin command thread",
        ),
    }
}

/// Prepares the forwarding process for a negotiated session: encodes the three
/// credentials, writes the session document and builds the command line.
pub fn initiate_ssm_port_forwarding(session: &SessionHandle, region: &str) -> (command: Result<
    CommandLine,
    SSMError,
>)
    ensures
        command_view(command) == port_forwarding(session@, region@),
{
    let encoded = (
        json_encode(session.session_id.as_str()),
        json_encode(session.token_value.as_str()),
        json_encode(session.stream_url.as_str()),
    );
    match encoded {
        (Ok(id), Ok(token), Ok(url)) => {
            let document = write_session_document(id.as_str(), token.as_str(), url.as_str());
            Ok(forwarding_command_line(document, region))
        },
        _ => Err(
            SSMError {
                kind: SSMErrorKind::Serde,
                msg: String::from_str(
                    "initiate_ssm_port_forwarding : Error when attempting to create response string",
                ),
            },
        ),
    }
}

} // verus!
