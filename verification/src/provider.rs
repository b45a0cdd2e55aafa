//! The transport adapter: a typed request over a host's untyped bridge.

use vstd::prelude::*;
use vstd::string::StringExecFns;

verus! {

/// The parse error of `serde_json`, carried through untouched.
#[verifier::external_type_specification]
#[verifier::external_body]
pub struct ExJsonError(serde_json::Error);

/// The transport adapter. It holds nothing: all transport state lives in the
/// host it forwards to.
#[derive(Debug, Clone)]
pub struct Provider {}

/// The request value that the host bridge takes.
#[derive(Debug, Clone, PartialEq, Eq)]
pub struct ArgsRequest {
    pub method: String,
    pub params: Option<String>,
}

/// Error of the transport adapter.
#[derive(Debug)]
pub enum ClientError {
    /// The response did not parse as the requested type.
    SerdeJson { err: serde_json::Error, text: String },
}

/// Calls `serde_json::from_str`, which parses `raw` as JSON into an `R`.
/// Nothing is claimed of the outcome.
#[verifier::external_body]
fn parse_json<R: serde::de::DeserializeOwned>(raw: &str) -> (parsed: Result<R, serde_json::Error>) {
    serde_json::from_str(raw)
}

/// Calls `to_string` on a `serde_json::Error`, which writes the error as its
/// `Display` does. Nothing is claimed of the text.
#[verifier::external_body]
fn parse_error_report(err: &serde_json::Error) -> (report: String) {
    err.to_string()
}

/// The report of a deserialization failure whose cause reports itself as
/// `cause` and which carries `text`.
pub open spec fn failure_report(cause: Seq<char>, text: Seq<char>) -> Seq<char> {
    "Deserialization Error: "@ + cause + ". Response: "@ + text
}

/// Writes the report of a deserialization failure from the cause's own
/// report and the carried text.
pub fn render_failure(cause: &str, text: &str) -> (report: String)
    ensures
        report@ == failure_report(cause@, text@),
{
    let mut report = "Deserialization Error: ".to_owned();
    report.append(cause);
    report.append(". Response: ");
    report.append(text);
    report
}

impl ClientError {
    /// This error as one line of text, for a log or a user: see
    /// [`failure_report`]. How the parse error reports itself is for
    /// `serde_json` to say.
    pub fn message(&self) -> (report: String)
        ensures
            match *self {
                ClientError::SerdeJson { err, text } => exists|cause: Seq<char>|
                    report@ == failure_report(cause, text@),
            },
    {
        match self {
            ClientError::SerdeJson { err, text } => {
                let cause = parse_error_report(err);
                render_failure(cause.as_str(), text.as_str())
            },
        }
    }
}

impl Provider {
    pub fn new() -> (provider: Provider)
        ensures
            provider == (Provider {  }),
    {
        Provider {  }
    }

    /// The one call into the host bridge that a request for `method` makes.
    ///
    /// Only the method name reaches the host: `params` is dropped and the
    /// request carries no parameters.
    pub fn request<T>(&self, method: &str, params: T) -> (args: ArgsRequest)
        ensures
            args.method@ == method@,
            args.params is None,
    {
        let _ = params;
        ArgsRequest { method: method.to_owned(), params: None }
    }

    /// Turns the host's raw response into the requested type.
    ///
    /// Whether `raw` parses is for `serde_json` to say; [`Provider::decoded`]
    /// states what is returned for each outcome of the parse. A host call
    /// that failed has no response, and so nothing to hand in here.
    pub fn response<R: serde::de::DeserializeOwned>(&self, raw: &str) -> (result: Result<
        R,
        ClientError,
    >)
        ensures
            result matches Err(ClientError::SerdeJson { err, text }) ==> text@
                == "from str failed"@,
    {
        self.decoded(parse_json::<R>(raw))
    }

    /// The adapter's answer for a finished parse: the parsed value as it is,
    /// or the parse error together with the fixed diagnostic text
    /// `from str failed` (not the response itself).
    pub fn decoded<R>(&self, parsed: Result<R, serde_json::Error>) -> (result: Result<
        R,
        ClientError,
    >)
        ensures
            match parsed {
                Ok(value) => result == Ok::<R, ClientError>(value),
                Err(cause) => result matches Err(ClientError::SerdeJson { err, text }) && err
                    == cause && text@ == "from str failed"@,
            },
    {
        match parsed {
            Ok(value) => Ok(value),
            Err(err) => Err(ClientError::SerdeJson { err, text: "from str failed".to_owned() }),
        }
    }
}

} // verus!
