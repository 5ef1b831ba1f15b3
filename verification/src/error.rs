//! Errors of the command-line client, their exit codes, kinds and texts.
use vstd::prelude::*;
use vstd::string::*;
use crate::text::{concat2, concat3, u64_decimal, nat_decimal};

verus! {

/// Every failure the client reports. Each kind has its own process exit code.
#[derive(Debug, Clone)]
pub enum CliError {
    /// The API answered with a status outside the success range.
    Api { code: u16, message: String },
    /// The configuration is missing, unreadable or inconsistent.
    Config(String),
    /// The command-line arguments do not describe a request.
    Argument(String),
    /// The request did not reach the API or got no answer.
    Network(String),
    /// Reading or writing a local file or stream failed; holds the cause's text.
    Io(String),
    /// Some input could not be parsed.
    Parse(String),
    /// A JSON document could not be produced or read.
    Json(String),
}

/// The abstract value of an error: its kind and texts as character sequences.
pub enum ErrorView {
    Api { code: u16, message: Seq<char> },
    Config(Seq<char>),
    Argument(Seq<char>),
    Network(Seq<char>),
    Io(Seq<char>),
    Parse(Seq<char>),
    Json(Seq<char>),
}

impl View for CliError {
    type V = ErrorView;

    open spec fn view(&self) -> ErrorView {
        match self {
            CliError::Api { code, message } => ErrorView::Api { code: *code, message: message@ },
            CliError::Config(m) => ErrorView::Config(m@),
            CliError::Argument(m) => ErrorView::Argument(m@),
            CliError::Network(m) => ErrorView::Network(m@),
            CliError::Io(m) => ErrorView::Io(m@),
            CliError::Parse(m) => ErrorView::Parse(m@),
            CliError::Json(m) => ErrorView::Json(m@),
        }
    }
}

/// What the transport reports about a request that failed before a body was read:
/// whether it timed out, whether the connection failed, the HTTP status if one
/// was received, and the failure's text.
#[derive(Debug, Clone)]
pub struct HttpFailure {
    pub timeout: bool,
    pub connect: bool,
    pub status: Option<u16>,
    pub text: String,
}

impl CliError {
    /// The exit code of each kind: api 1, config 2, argument 3, io 4, parse 5,
    /// json 6, network 10.
    pub open spec fn spec_exit_code(self) -> i32 {
        match self {
            CliError::Api { .. } => 1,
            CliError::Config(_) => 2,
            CliError::Argument(_) => 3,
            CliError::Network(_) => 10,
            CliError::Io(_) => 4,
            CliError::Parse(_) => 5,
            CliError::Json(_) => 6,
        }
    }

    /// The machine-readable name of each kind.
    pub open spec fn spec_kind(self) -> Seq<char> {
        match self {
            CliError::Api { .. } => "api_error"@,
            CliError::Config(_) => "config_error"@,
            CliError::Argument(_) => "argument_error"@,
            CliError::Network(_) => "network_error"@,
            CliError::Io(_) => "io_error"@,
            CliError::Parse(_) => "parse_error"@,
            CliError::Json(_) => "json_error"@,
        }
    }

    /// The human-readable text of an error.
    pub open spec fn spec_text(self) -> Seq<char> {
        match self {
            CliError::Api { code, message } => "API error: "@ + nat_decimal(code as nat) + " - "@
                + message@,
            CliError::Config(m) => "Configuration error: "@ + m@,
            CliError::Argument(m) => "Argument error: "@ + m@,
            CliError::Network(m) => "Network error: "@ + m@,
            CliError::Io(m) => "IO error: "@ + m@,
            CliError::Parse(m) => "Parse error: "@ + m@,
            CliError::Json(m) => "JSON error: "@ + m@,
        }
    }

    /// The process exit code for this error.
    pub fn exit_code(&self) -> (code: i32)
        ensures
            code == self.spec_exit_code(),
    {
        match self {
            CliError::Api { .. } => 1,
            CliError::Config(_) => 2,
            CliError::Argument(_) => 3,
            CliError::Network(_) => 10,
            CliError::Io(_) => 4,
            CliError::Parse(_) => 5,
            CliError::Json(_) => 6,
        }
    }

    /// The machine-readable kind of this error, as reported in the `error` field.
    pub fn kind(&self) -> (k: &'static str)
        ensures
            k@ == self.spec_kind(),
    {
        match self {
            CliError::Api { .. } => "api_error",
            CliError::Config(_) => "config_error",
            CliError::Argument(_) => "argument_error",
            CliError::Network(_) => "network_error",
            CliError::Io(_) => "io_error",
            CliError::Parse(_) => "parse_error",
            CliError::Json(_) => "json_error",
        }
    }

    /// The human-readable text of this error, as reported in the `message` field.
    pub fn display_text(&self) -> (t: String)
        ensures
            t@ == self.spec_text(),
    {
        match self {
            CliError::Api { code, message } => {
                let digits = u64_decimal(*code as u64);
                let mut t = concat3("API error: ", digits.as_str(), " - ");
                t.append(message.as_str());
                t
            },
            CliError::Config(m) => concat2("Configuration error: ", m.as_str()),
            CliError::Argument(m) => concat2("Argument error: ", m.as_str()),
            CliError::Network(m) => concat2("Network error: ", m.as_str()),
            CliError::Io(m) => concat2("IO error: ", m.as_str()),
            CliError::Parse(m) => concat2("Parse error: ", m.as_str()),
            CliError::Json(m) => concat2("JSON error: ", m.as_str()),
        }
    }
}

/// The error a transport failure becomes.
pub open spec fn spec_transport_error(e: HttpFailure) -> ErrorView {
    if e.timeout {
        ErrorView::Network("Request timeout"@)
    } else if e.connect {
        ErrorView::Network("Connection failed"@)
    } else if e.status is Some {
        ErrorView::Api { code: e.status->0, message: e.text@ }
    } else {
        ErrorView::Network(e.text@)
    }
}

/// Maps a transport failure to an error: a timeout or a failed connection is a
/// network error with a fixed text; a failure that carries an HTTP status is an
/// API error with that status; anything else is a network error with the
/// failure's own text.
pub fn map_reqwest_error(e: HttpFailure) -> (r: CliError)
    ensures
        r@ == spec_transport_error(e),
{
    if e.timeout {
        CliError::Network(String::from_str("Request timeout"))
    } else if e.connect {
        CliError::Network(String::from_str("Connection failed"))
    } else {
        match e.status {
            Some(code) => CliError::Api { code, message: e.text },
            None => CliError::Network(e.text),
        }
    }
}

/// The exit codes of the documented table: api 1, config 2, argument 3, io 4,
/// parse 5, json 6, network 10; different kinds never share a code.
pub proof fn law_exit_codes(e: CliError, f: CliError)
    ensures
        e is Api ==> e.spec_exit_code() == 1,
        e is Config ==> e.spec_exit_code() == 2,
        e is Argument ==> e.spec_exit_code() == 3,
        e is Io ==> e.spec_exit_code() == 4,
        e is Parse ==> e.spec_exit_code() == 5,
        e is Json ==> e.spec_exit_code() == 6,
        e is Network ==> e.spec_exit_code() == 10,
        e.spec_exit_code() == f.spec_exit_code() ==> e.spec_kind() == f.spec_kind(),
{
    reveal_strlit("api_error");
    reveal_strlit("config_error");
    reveal_strlit("argument_error");
    reveal_strlit("network_error");
    reveal_strlit("io_error");
    reveal_strlit("parse_error");
    reveal_strlit("json_error");
}

/// A transport failure that timed out is reported as a timeout, whatever else
/// it carries; one that failed to connect, as a failed connection; one with an
/// HTTP status, as an API error with that status and the failure's text.
pub proof fn law_transport_errors(e: HttpFailure)
    ensures
        e.timeout ==> spec_transport_error(e) == ErrorView::Network("Request timeout"@),
        !e.timeout && e.connect ==> spec_transport_error(e) == ErrorView::Network("Connection failed"@),
        !e.timeout && !e.connect && e.status is Some ==> spec_transport_error(e) == (ErrorView::Api {
            code: e.status->0,
            message: e.text@,
        }),
        !e.timeout && !e.connect && e.status is None ==> spec_transport_error(e) == ErrorView::Network(
            e.text@,
        ),
{
}

/// The text of an error ends with its message; an API error's text also shows
/// its status code in decimal, after `API error: `.
pub proof fn law_text_ends_with_message(e: CliError)
    ensures
        ({
            let m = match e {
                CliError::Api { message, .. } => message@,
                CliError::Config(m) => m@,
                CliError::Argument(m) => m@,
                CliError::Network(m) => m@,
                CliError::Io(m) => m@,
                CliError::Parse(m) => m@,
                CliError::Json(m) => m@,
            };
            let t = e.spec_text();
            t.len() >= m.len() && t.subrange(t.len() - m.len(), t.len() as int) == m
        }),
        e is Api ==> e.spec_text().subrange(0, 11) == "API error: "@ && e.spec_text().subrange(
            11,
            11 + nat_decimal(e->code as nat).len() as int,
        ) == nat_decimal(e->code as nat),
{
    reveal_strlit("API error: ");
    let t = e.spec_text();
    match e {
        CliError::Api { code, message } => {
            let d = nat_decimal(code as nat);
            assert(t =~= "API error: "@ + d + " - "@ + message@);
            assert(t.subrange(t.len() - message@.len(), t.len() as int) =~= message@);
            assert(t.subrange(0, 11) =~= "API error: "@);
            assert(t.subrange(11, 11 + d.len() as int) =~= d);
        },
        CliError::Config(m) => {
            assert(t.subrange(t.len() - m@.len(), t.len() as int) =~= m@);
        },
        CliError::Argument(m) => {
            assert(t.subrange(t.len() - m@.len(), t.len() as int) =~= m@);
        },
        CliError::Network(m) => {
            assert(t.subrange(t.len() - m@.len(), t.len() as int) =~= m@);
        },
        CliError::Io(m) => {
            assert(t.subrange(t.len() - m@.len(), t.len() as int) =~= m@);
        },
        CliError::Parse(m) => {
            assert(t.subrange(t.len() - m@.len(), t.len() as int) =~= m@);
        },
        CliError::Json(m) => {
            assert(t.subrange(t.len() - m@.len(), t.len() as int) =~= m@);
        },
    }
}

} // verus!
