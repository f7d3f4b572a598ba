//! The error type of the SDK and the texts it shows.

use crate::json::{opt_json_view, Json, JsonValue};
use crate::text::{concat, i64_to_string, opt_view, signed_decimal, decimal, u64_to_string};
use std::fmt::Write;
use vstd::prelude::*;
use vstd::std_specs::convert::FromSpecImpl;
use vstd::string::StringExecFns;

verus! {

/// The error of the standard library's input and output, carried through as it is.
#[verifier::external_type_specification]
#[verifier::external_body]
pub struct ExIoError(std::io::Error);

/// `std::io::Error`'s `Display`, written into a fresh string. Nothing is
/// claimed of the text: the platform and the error's payload decide it. A
/// payload that fails to show itself leaves what was written up to there.
#[verifier::external_body]
fn io_error_to_string(e: &std::io::Error) -> (r: String) {
    let mut text = String::new();
    let _ = write!(text, "{}", e);
    text
}

/// Main error type of the SDK.
#[derive(Debug)]
#[allow(inconsistent_fields)]
pub enum ClaudeSDKError {
    /// The command-line program was not found on the system.
    CLINotFound { message: String },
    /// Connecting to or talking with the command-line process failed.
    CLIConnection { message: String, source: Option<std::io::Error> },
    /// The command-line process exited with an error.
    Process { exit_code: Option<i32>, message: String, stderr: Option<String> },
    /// A line from the process was no JSON.
    JSONDecode {
        message: String,
        raw_data: Option<String>,
        buffer_content: Option<String>,
        source: Option<serde_json::Error>,
    },
    /// A JSON document was not the message it should be.
    MessageParse { message: String, raw_message: Option<Json> },
    /// The configuration is not valid.
    Configuration { message: String },
    /// The control protocol failed.
    ControlProtocol { message: String, request_id: Option<String> },
    /// The operation was interrupted.
    Interrupted,
    /// The operation ran out of time.
    Timeout { duration_ms: u64 },
    /// The command-line program is too old.
    VersionMismatch { found: String, required: String },
    /// An input/output error: the text that it showed.
    Io(String),
    /// A channel between tasks failed.
    Channel { message: String },
    /// A state was reached that correct use does not reach.
    Internal { message: String },
}

/// Mathematical model of an error.
#[allow(inconsistent_fields)]
pub enum ErrorValue {
    CLINotFound { message: Seq<char> },
    CLIConnection { message: Seq<char>, source: Option<std::io::Error> },
    Process { exit_code: Option<i32>, message: Seq<char>, stderr: Option<Seq<char>> },
    JSONDecode {
        message: Seq<char>,
        raw_data: Option<Seq<char>>,
        buffer_content: Option<Seq<char>>,
        source: Option<serde_json::Error>,
    },
    MessageParse { message: Seq<char>, raw_message: Option<JsonValue> },
    Configuration { message: Seq<char> },
    ControlProtocol { message: Seq<char>, request_id: Option<Seq<char>> },
    Interrupted,
    Timeout { duration_ms: u64 },
    VersionMismatch { found: Seq<char>, required: Seq<char> },
    Io(Seq<char>),
    Channel { message: Seq<char> },
    Internal { message: Seq<char> },
}

/// How an optional exit code is shown: `Some(..)` around the number, or `None`.
pub open spec fn exit_code_text(code: Option<i32>) -> Seq<char> {
    match code {
        Some(c) => "Some("@ + signed_decimal(c as int) + ")"@,
        None => "None"@,
    }
}

impl ErrorValue {
    /// The text that the error shows.
    pub open spec fn display(self) -> Seq<char> {
        match self {
            ErrorValue::CLINotFound { message } => "CLI not found: "@ + message,
            ErrorValue::CLIConnection { message, .. } => "CLI connection error: "@ + message,
            ErrorValue::Process { exit_code, message, .. } => "Process error (exit code "@
                + exit_code_text(exit_code) + "): "@ + message,
            ErrorValue::JSONDecode { message, .. } => "JSON decode error: "@ + message,
            ErrorValue::MessageParse { message, .. } => "Message parse error: "@ + message,
            ErrorValue::Configuration { message } => "Configuration error: "@ + message,
            ErrorValue::ControlProtocol { message, .. } => "Control protocol error: "@ + message,
            ErrorValue::Interrupted => "Operation interrupted"@,
            ErrorValue::Timeout { duration_ms } => "Operation timed out after "@ + decimal(
                duration_ms as nat,
            ) + "ms"@,
            ErrorValue::VersionMismatch { found, required } => "CLI version "@ + found
                + " is below minimum required version "@ + required,
            ErrorValue::Io(text) => "IO error: "@ + text,
            ErrorValue::Channel { message } => "Channel error: "@ + message,
            ErrorValue::Internal { message } => "Internal error: "@ + message,
        }
    }

    /// Whether a retry of the operation might succeed.
    pub open spec fn is_recoverable(self) -> bool {
        self is CLIConnection || self is Timeout || self is Channel
    }
}

impl View for ClaudeSDKError {
    type V = ErrorValue;

    open spec fn view(&self) -> ErrorValue {
        match self {
            ClaudeSDKError::CLINotFound { message } => ErrorValue::CLINotFound {
                message: message@,
            },
            ClaudeSDKError::CLIConnection { message, source } => ErrorValue::CLIConnection {
                message: message@,
                source: *source,
            },
            ClaudeSDKError::Process { exit_code, message, stderr } => ErrorValue::Process {
                exit_code: *exit_code,
                message: message@,
                stderr: opt_view(*stderr),
            },
            ClaudeSDKError::JSONDecode {
                message,
                raw_data,
                buffer_content,
                source,
            } => ErrorValue::JSONDecode {
                message: message@,
                raw_data: opt_view(*raw_data),
                buffer_content: opt_view(*buffer_content),
                source: *source,
            },
            ClaudeSDKError::MessageParse { message, raw_message } => ErrorValue::MessageParse {
                message: message@,
                raw_message: opt_json_view(*raw_message),
            },
            ClaudeSDKError::Configuration { message } => ErrorValue::Configuration {
                message: message@,
            },
            ClaudeSDKError::ControlProtocol { message, request_id } => ErrorValue::ControlProtocol {
                message: message@,
                request_id: opt_view(*request_id),
            },
            ClaudeSDKError::Interrupted => ErrorValue::Interrupted,
            ClaudeSDKError::Timeout { duration_ms } => ErrorValue::Timeout {
                duration_ms: *duration_ms,
            },
            ClaudeSDKError::VersionMismatch { found, required } => ErrorValue::VersionMismatch {
                found: found@,
                required: required@,
            },
            ClaudeSDKError::Io(text) => ErrorValue::Io(text@),
            ClaudeSDKError::Channel { message } => ErrorValue::Channel { message: message@ },
            ClaudeSDKError::Internal { message } => ErrorValue::Internal { message: message@ },
        }
    }
}

/// The model of a result whose success is a JSON document.
pub open spec fn json_result_view(r: Result<Json, ClaudeSDKError>) -> Result<
    JsonValue,
    ErrorValue,
> {
    match r {
        Ok(j) => Ok(j@),
        Err(e) => Err(e@),
    }
}

/// Shows an optional exit code as `Some(..)` around the number, or `None`.
fn exit_code_to_string(code: Option<i32>) -> (r: String)
    ensures
        r@ == exit_code_text(code),
{
    match code {
        Some(c) => {
            let mut s = String::from_str("Some(");
            let digits = i64_to_string(c as i64);
            s.append(digits.as_str());
            s.append(")");
            s
        },
        None => String::from_str("None"),
    }
}

impl ClaudeSDKError {
    /// The error of a command-line program that was not found.
    pub fn cli_not_found(message: &str) -> (r: Self)
        ensures
            r@ == (ErrorValue::CLINotFound { message: message@ }),
    {
        ClaudeSDKError::CLINotFound { message: String::from_str(message) }
    }

    /// The error of a failed connection to the command-line process.
    pub fn cli_connection(message: &str) -> (r: Self)
        ensures
            r@ == (ErrorValue::CLIConnection { message: message@, source: None }),
    {
        ClaudeSDKError::CLIConnection { message: String::from_str(message), source: None }
    }

    /// The error of a failed connection, with the input/output error under it.
    pub fn cli_connection_with_source(message: &str, source: std::io::Error) -> (r: Self)
        ensures
            r@ == (ErrorValue::CLIConnection { message: message@, source: Some(source) }),
    {
        ClaudeSDKError::CLIConnection { message: String::from_str(message), source: Some(source) }
    }

    /// The error of a process that exited with a failure.
    pub fn process(exit_code: Option<i32>, message: &str) -> (r: Self)
        ensures
            r@ == (ErrorValue::Process { exit_code, message: message@, stderr: None }),
    {
        ClaudeSDKError::Process { exit_code, message: String::from_str(message), stderr: None }
    }

    /// The error of a process that exited with a failure, with what it wrote to its error output.
    pub fn process_with_stderr(exit_code: Option<i32>, message: &str, stderr: &str) -> (r: Self)
        ensures
            r@ == (ErrorValue::Process { exit_code, message: message@, stderr: Some(stderr@) }),
    {
        ClaudeSDKError::Process {
            exit_code,
            message: String::from_str(message),
            stderr: Some(String::from_str(stderr)),
        }
    }

    /// The error of a text that is no JSON.
    pub fn json_decode(message: &str) -> (r: Self)
        ensures
            r@ == (ErrorValue::JSONDecode {
                message: message@,
                raw_data: None,
                buffer_content: None,
                source: None,
            }),
    {
        ClaudeSDKError::JSONDecode {
            message: String::from_str(message),
            raw_data: None,
            buffer_content: None,
            source: None,
        }
    }

    /// The error of a text that is no JSON, with the text and the parser's error.
    pub fn json_decode_with_context(
        message: &str,
        raw_data: Option<String>,
        buffer_content: Option<String>,
        source: serde_json::Error,
    ) -> (r: Self)
        ensures
            r@ == (ErrorValue::JSONDecode {
                message: message@,
                raw_data: opt_view(raw_data),
                buffer_content: opt_view(buffer_content),
                source: Some(source),
            }),
    {
        ClaudeSDKError::JSONDecode {
            message: String::from_str(message),
            raw_data,
            buffer_content,
            source: Some(source),
        }
    }

    /// The error of a document that is not the message it should be.
    pub fn message_parse(message: &str) -> (r: Self)
        ensures
            r@ == (ErrorValue::MessageParse { message: message@, raw_message: None }),
    {
        ClaudeSDKError::MessageParse { message: String::from_str(message), raw_message: None }
    }

    /// The error of a document that is not the message it should be, with the document.
    pub fn message_parse_with_raw(message: &str, raw_message: Json) -> (r: Self)
        ensures
            r@ == (ErrorValue::MessageParse {
                message: message@,
                raw_message: Some(raw_message@),
            }),
    {
        ClaudeSDKError::MessageParse {
            message: String::from_str(message),
            raw_message: Some(raw_message),
        }
    }

    /// The error of a configuration that is not valid.
    pub fn configuration(message: &str) -> (r: Self)
        ensures
            r@ == (ErrorValue::Configuration { message: message@ }),
    {
        ClaudeSDKError::Configuration { message: String::from_str(message) }
    }

    /// The error of a failure of the control protocol.
    pub fn control_protocol(message: &str) -> (r: Self)
        ensures
            r@ == (ErrorValue::ControlProtocol { message: message@, request_id: None }),
    {
        ClaudeSDKError::ControlProtocol { message: String::from_str(message), request_id: None }
    }

    /// The error of a failure of the control protocol, with the id of the request.
    pub fn control_protocol_with_id(message: &str, request_id: &str) -> (r: Self)
        ensures
            r@ == (ErrorValue::ControlProtocol {
                message: message@,
                request_id: Some(request_id@),
            }),
    {
        ClaudeSDKError::ControlProtocol {
            message: String::from_str(message),
            request_id: Some(String::from_str(request_id)),
        }
    }

    /// The error of an operation that ran out of time.
    pub fn timeout(duration_ms: u64) -> (r: Self)
        ensures
            r@ == (ErrorValue::Timeout { duration_ms }),
    {
        ClaudeSDKError::Timeout { duration_ms }
    }

    /// The error of a command-line program that is too old.
    pub fn version_mismatch(found: &str, required: &str) -> (r: Self)
        ensures
            r@ == (ErrorValue::VersionMismatch { found: found@, required: required@ }),
    {
        ClaudeSDKError::VersionMismatch {
            found: String::from_str(found),
            required: String::from_str(required),
        }
    }

    /// The error of a failed channel between tasks.
    pub fn channel(message: &str) -> (r: Self)
        ensures
            r@ == (ErrorValue::Channel { message: message@ }),
    {
        ClaudeSDKError::Channel { message: String::from_str(message) }
    }

    /// The error of a state that correct use does not reach.
    pub fn internal(message: &str) -> (r: Self)
        ensures
            r@ == (ErrorValue::Internal { message: message@ }),
    {
        ClaudeSDKError::Internal { message: String::from_str(message) }
    }

    /// Whether the error says that the command-line program was not found.
    pub fn is_cli_not_found(&self) -> (r: bool)
        ensures
            r == (self@ is CLINotFound),
    {
        match self {
            ClaudeSDKError::CLINotFound { .. } => true,
            _ => false,
        }
    }

    /// Whether the error says that a line was no JSON.
    pub fn is_json_decode(&self) -> (r: bool)
        ensures
            r == (self@ is JSONDecode),
    {
        match self {
            ClaudeSDKError::JSONDecode { .. } => true,
            _ => false,
        }
    }

    /// Whether a retry of the operation might succeed.
    pub fn is_recoverable(&self) -> (r: bool)
        ensures
            r == self@.is_recoverable(),
    {
        match self {
            ClaudeSDKError::CLIConnection { .. } => true,
            ClaudeSDKError::Timeout { .. } => true,
            ClaudeSDKError::Channel { .. } => true,
            _ => false,
        }
    }

    /// The text that the error shows.
    pub fn to_string(&self) -> (r: String)
        ensures
            r@ == self@.display(),
    {
        match self {
            ClaudeSDKError::CLINotFound { message } => concat("CLI not found: ", message.as_str()),
            ClaudeSDKError::CLIConnection { message, .. } => concat(
                "CLI connection error: ",
                message.as_str(),
            ),
            ClaudeSDKError::Process { exit_code, message, .. } => {
                let mut s = String::from_str("Process error (exit code ");
                let code = exit_code_to_string(*exit_code);
                s.append(code.as_str());
                s.append("): ");
                s.append(message.as_str());
                s
            },
            ClaudeSDKError::JSONDecode { message, .. } => concat(
                "JSON decode error: ",
                message.as_str(),
            ),
            ClaudeSDKError::MessageParse { message, .. } => concat(
                "Message parse error: ",
                message.as_str(),
            ),
            ClaudeSDKError::Configuration { message } => concat(
                "Configuration error: ",
                message.as_str(),
            ),
            ClaudeSDKError::ControlProtocol { message, .. } => concat(
                "Control protocol error: ",
                message.as_str(),
            ),
            ClaudeSDKError::Interrupted => String::from_str("Operation interrupted"),
            ClaudeSDKError::Timeout { duration_ms } => {
                let mut s = String::from_str("Operation timed out after ");
                let digits = u64_to_string(*duration_ms);
                s.append(digits.as_str());
                s.append("ms");
                s
            },
            ClaudeSDKError::VersionMismatch { found, required } => {
                let mut s = String::from_str("CLI version ");
                s.append(found.as_str());
                s.append(" is below minimum required version ");
                s.append(required.as_str());
                s
            },
            ClaudeSDKError::Io(text) => concat("IO error: ", text.as_str()),
            ClaudeSDKError::Channel { message } => concat("Channel error: ", message.as_str()),
            ClaudeSDKError::Internal { message } => concat("Internal error: ", message.as_str()),
        }
    }
}

impl From<std::io::Error> for ClaudeSDKError {
    /// The input/output error as an error of the SDK, which keeps the text
    /// that the error showed.
    fn from(e: std::io::Error) -> (r: Self)
        ensures
            r is Io,
    {
        ClaudeSDKError::Io(io_error_to_string(&e))
    }
}

impl FromSpecImpl<std::io::Error> for ClaudeSDKError {
    open spec fn obeys_from_spec() -> bool {
        false
    }

    open spec fn from_spec(e: std::io::Error) -> Self {
        arbitrary()
    }
}

} // verus!
