//! Error types for the Databricks ADBC driver.
//!
//! Every failure the driver reports is an [`Error`]: one of eight kinds, a
//! message, and as much of the place where it arose (what was being attempted,
//! the pipeline stage, the chunk) as is known.

use vstd::prelude::*;
use vstd::string::*;

verus! {

/// The kinds of failure the driver reports.
#[derive(Clone, Copy, Debug, PartialEq, Eq, Structural)]
pub enum Status {
    /// Bad SQL text or a bad option.
    InvalidArgument,
    /// The credential was rejected, also after it was refreshed.
    AuthFailure,
    /// A network failure or a server-side (5xx) failure; retried internally
    /// and surfaced only once the retry budget is spent.
    Transient,
    /// The warehouse reported that the query failed.
    RemoteQueryFailed,
    /// The user asked for cancellation, or a deadline elapsed.
    Cancelled,
    /// A chunk's byte length or schema did not match what was announced.
    DataIntegrity,
    /// An optional feature that this driver does not support.
    NotImplemented,
    /// Anything else.
    Unknown,
}

/// The step of the pipeline at which a failure arose.
#[derive(Clone, Copy, Debug, PartialEq, Eq, Structural)]
pub enum Stage {
    Submit,
    Poll,
    Fetch,
    Decode,
}

/// The name under which this driver reports its errors.
pub const NAME: &'static str = "Databricks";

/// A failure reported by the driver.
#[derive(Debug)]
pub struct Error {
    status: Status,
    message: String,
    context: Option<String>,
    stage: Option<Stage>,
    chunk: Option<u64>,
}

/// What an [`Error`] says, as mathematical values.
pub struct ErrorView {
    pub status: Status,
    pub message: Seq<char>,
    pub context: Option<Seq<char>>,
    pub stage: Option<Stage>,
    pub chunk: Option<nat>,
}

impl View for Error {
    type V = ErrorView;

    closed spec fn view(&self) -> ErrorView {
        ErrorView {
            status: self.status,
            message: self.message@,
            context: match self.context {
                Some(c) => Some(c@),
                None => None,
            },
            stage: self.stage,
            chunk: match self.chunk {
                Some(n) => Some(n as nat),
                None => None,
            },
        }
    }
}

/// An error of kind `status` with an empty message and no place.
pub open spec fn bare(status: Status) -> ErrorView {
    ErrorView { status, message: Seq::empty(), context: None, stage: None, chunk: None }
}

/// An error of kind `status` that says `message` and names no place.
pub open spec fn plain(status: Status, message: Seq<char>) -> ErrorView {
    ErrorView { status, message, context: None, stage: None, chunk: None }
}

/// The character of a decimal digit.
pub open spec fn digit_char(d: nat) -> char {
    if d == 0 {
        '0'
    } else if d == 1 {
        '1'
    } else if d == 2 {
        '2'
    } else if d == 3 {
        '3'
    } else if d == 4 {
        '4'
    } else if d == 5 {
        '5'
    } else if d == 6 {
        '6'
    } else if d == 7 {
        '7'
    } else if d == 8 {
        '8'
    } else {
        '9'
    }
}

/// The decimal numeral of `n`, most significant digit first.
pub open spec fn decimal(n: nat) -> Seq<char>
    decreases n,
{
    if n < 10 {
        seq![digit_char(n)]
    } else {
        decimal(n / 10) + seq![digit_char(n % 10)]
    }
}

/// The display name of a status.
pub open spec fn status_name(status: Status) -> Seq<char> {
    match status {
        Status::InvalidArgument => "InvalidArgument"@,
        Status::AuthFailure => "AuthFailure"@,
        Status::Transient => "Transient"@,
        Status::RemoteQueryFailed => "RemoteQueryFailed"@,
        Status::Cancelled => "Cancelled"@,
        Status::DataIntegrity => "DataIntegrity"@,
        Status::NotImplemented => "NotImplemented"@,
        Status::Unknown => "Unknown"@,
    }
}

/// The display name of a stage.
pub open spec fn stage_name(stage: Stage) -> Seq<char> {
    match stage {
        Stage::Submit => "submit"@,
        Stage::Poll => "poll"@,
        Stage::Fetch => "fetch"@,
        Stage::Decode => "decode"@,
    }
}

/// The part of the display text that names the place of a failure: empty when
/// neither stage nor chunk is known, else ` [stage, chunk N]` with the parts
/// that are known.
pub open spec fn render_place(stage: Option<Stage>, chunk: Option<nat>) -> Seq<char> {
    match (stage, chunk) {
        (None, None) => Seq::empty(),
        (Some(s), None) => " ["@ + stage_name(s) + "]"@,
        (None, Some(n)) => " [chunk "@ + decimal(n) + "]"@,
        (Some(s), Some(n)) => " ["@ + stage_name(s) + ", chunk "@ + decimal(n) + "]"@,
    }
}

/// The display text of an error:
/// `[Databricks] Status: could not <context>: <message> [<place>]`, where the
/// `could not` part is left out when no context was given.
pub open spec fn render(e: ErrorView) -> Seq<char> {
    "["@ + NAME@ + "] "@ + status_name(e.status) + ": "@ + (match e.context {
        Some(c) => "could not "@ + c + ": "@,
        None => Seq::empty(),
    }) + e.message + render_place(e.stage, e.chunk)
}

fn digit_text(d: u64) -> (s: &'static str)
    requires
        d < 10,
    ensures
        s@ == seq![digit_char(d as nat)],
{
    proof {
        reveal_strlit("0");
        reveal_strlit("1");
        reveal_strlit("2");
        reveal_strlit("3");
        reveal_strlit("4");
        reveal_strlit("5");
        reveal_strlit("6");
        reveal_strlit("7");
        reveal_strlit("8");
        reveal_strlit("9");
    }
    let s = if d == 0 {
        "0"
    } else if d == 1 {
        "1"
    } else if d == 2 {
        "2"
    } else if d == 3 {
        "3"
    } else if d == 4 {
        "4"
    } else if d == 5 {
        "5"
    } else if d == 6 {
        "6"
    } else if d == 7 {
        "7"
    } else if d == 8 {
        "8"
    } else {
        "9"
    };
    assert(s@ =~= seq![digit_char(d as nat)]);
    s
}

/// Appends the decimal numeral of `n` to `out`.
pub fn push_decimal(out: &mut String, n: u64)
    ensures
        final(out)@ == old(out)@ + decimal(n as nat),
    decreases n,
{
    if n >= 10 {
        push_decimal(out, n / 10);
    }
    let d = digit_text(n % 10);
    out.append(d);
    assert(out@ =~= old(out)@ + decimal(n as nat));
}

fn status_text(status: Status) -> (s: &'static str)
    ensures
        s@ == status_name(status),
{
    match status {
        Status::InvalidArgument => "InvalidArgument",
        Status::AuthFailure => "AuthFailure",
        Status::Transient => "Transient",
        Status::RemoteQueryFailed => "RemoteQueryFailed",
        Status::Cancelled => "Cancelled",
        Status::DataIntegrity => "DataIntegrity",
        Status::NotImplemented => "NotImplemented",
        Status::Unknown => "Unknown",
    }
}

fn stage_text(stage: Stage) -> (s: &'static str)
    ensures
        s@ == stage_name(stage),
{
    match stage {
        Stage::Submit => "submit",
        Stage::Poll => "poll",
        Stage::Fetch => "fetch",
        Stage::Decode => "decode",
    }
}

impl Clone for Error {
    fn clone(&self) -> (copy: Self)
        ensures
            copy@ == self@,
    {
        let context = match &self.context {
            Some(c) => Some(c.clone()),
            None => None,
        };
        Error {
            status: self.status,
            message: self.message.clone(),
            context,
            stage: self.stage,
            chunk: self.chunk,
        }
    }
}

impl Error {
    /// An error of kind `status` with an empty message.
    pub fn new(status: Status) -> (e: Error)
        ensures
            e@ == bare(status),
    {
        Error { status, message: String::new(), context: None, stage: None, chunk: None }
    }

    /// The same error saying `message`.
    pub fn message(self, message: &str) -> (e: Error)
        ensures
            e@ == (ErrorView { message: message@, ..self@ }),
    {
        Error { message: String::from_str(message), ..self }
    }

    /// The same error, raised while trying to `context` (as in "connect to
    /// server"): the display text then says `could not <context>`.
    pub fn context(self, context: &str) -> (e: Error)
        ensures
            e@ == (ErrorView { context: Some(context@), ..self@ }),
    {
        Error { context: Some(String::from_str(context)), ..self }
    }

    /// The same error, placed at a stage of the pipeline.
    pub fn at_stage(self, stage: Stage) -> (e: Error)
        ensures
            e@ == (ErrorView { stage: Some(stage), ..self@ }),
    {
        Error { stage: Some(stage), ..self }
    }

    /// The same error, placed at the chunk with this sequence index.
    pub fn at_chunk(self, sequence_index: u64) -> (e: Error)
        ensures
            e@ == (ErrorView { chunk: Some(sequence_index as nat), ..self@ }),
    {
        Error { chunk: Some(sequence_index), ..self }
    }

    /// The kind of this error.
    pub fn status(&self) -> (s: Status)
        ensures
            s == self@.status,
    {
        self.status
    }

    /// What this error says.
    pub fn message_text(&self) -> (s: &str)
        ensures
            s@ == self@.message,
    {
        self.message.as_str()
    }

    /// What was being attempted, if that was recorded.
    pub fn context_text(&self) -> (s: Option<&str>)
        ensures
            match s {
                Some(c) => self@.context == Some(c@),
                None => self@.context is None,
            },
    {
        match &self.context {
            Some(c) => Some(c.as_str()),
            None => None,
        }
    }

    /// The stage at which this error arose, if that was recorded.
    pub fn stage(&self) -> (s: Option<Stage>)
        ensures
            s == self@.stage,
    {
        self.stage
    }

    /// The sequence index of the chunk at which this error arose, if any.
    pub fn chunk(&self) -> (c: Option<u64>)
        ensures
            match c {
                Some(n) => self@.chunk == Some(n as nat),
                None => self@.chunk is None,
            },
    {
        self.chunk
    }

    /// The display text of this error.
    pub fn to_string(&self) -> (text: String)
        ensures
            text@ == render(self@),
    {
        let mut text = String::from_str("[");
        text.append(NAME);
        text.append("] ");
        text.append(status_text(self.status));
        text.append(": ");
        match &self.context {
            Some(c) => {
                text.append("could not ");
                text.append(c.as_str());
                text.append(": ");
            },
            None => {},
        }
        text.append(self.message.as_str());
        let ghost head = text@;
        match (self.stage, self.chunk) {
            (None, None) => {},
            (Some(s), None) => {
                text.append(" [");
                text.append(stage_text(s));
                text.append("]");
            },
            (None, Some(n)) => {
                text.append(" [chunk ");
                push_decimal(&mut text, n);
                text.append("]");
            },
            (Some(s), Some(n)) => {
                text.append(" [");
                text.append(stage_text(s));
                text.append(", chunk ");
                push_decimal(&mut text, n);
                text.append("]");
            },
        }
        assert(text@ =~= head + render_place(self@.stage, self@.chunk));
        assert(head =~= "["@ + NAME@ + "] "@ + status_name(self@.status) + ": "@ + (match self@.context {
            Some(c) => "could not "@ + c + ": "@,
            None => Seq::empty(),
        }) + self@.message);
        text
    }
}

/// Makes the errors of this driver, one constructor for each kind.
#[derive(Clone, Copy, Debug)]
pub struct DatabricksErrorHelper;

impl DatabricksErrorHelper {
    /// A bad argument: bad SQL text or a bad option.
    pub fn invalid_argument() -> (e: Error)
        ensures
            e@ == bare(Status::InvalidArgument),
    {
        Error::new(Status::InvalidArgument)
    }

    /// A rejected credential.
    pub fn auth_failure() -> (e: Error)
        ensures
            e@ == bare(Status::AuthFailure),
    {
        Error::new(Status::AuthFailure)
    }

    /// A network or input/output failure: transient.
    pub fn io() -> (e: Error)
        ensures
            e@ == bare(Status::Transient),
    {
        Error::new(Status::Transient)
    }

    /// A failure that the warehouse reported for the query.
    pub fn remote_query_failed() -> (e: Error)
        ensures
            e@ == bare(Status::RemoteQueryFailed),
    {
        Error::new(Status::RemoteQueryFailed)
    }

    /// A cancellation, asked for by the user or caused by a deadline.
    pub fn cancelled() -> (e: Error)
        ensures
            e@ == bare(Status::Cancelled),
    {
        Error::new(Status::Cancelled)
    }

    /// A chunk that is not what was announced.
    pub fn data_integrity() -> (e: Error)
        ensures
            e@ == bare(Status::DataIntegrity),
    {
        Error::new(Status::DataIntegrity)
    }

    /// A feature that this driver does not support.
    pub fn not_implemented() -> (e: Error)
        ensures
            e@ == bare(Status::NotImplemented),
    {
        Error::new(Status::NotImplemented)
    }

    /// A failure of no other kind.
    pub fn unknown() -> (e: Error)
        ensures
            e@ == bare(Status::Unknown),
    {
        Error::new(Status::Unknown)
    }

    /// The error for setting an option that this driver does not know.
    pub fn set_unknown_option(key: &str) -> (e: Error)
        ensures
            e@ == plain(Status::InvalidArgument, "unknown option: "@ + key@),
    {
        let mut text = String::from_str("unknown option: ");
        text.append(key);
        Error::new(Status::InvalidArgument).message(text.as_str())
    }

    /// The error for reading an option that this driver does not know.
    pub fn get_unknown_option(key: &str) -> (e: Error)
        ensures
            e@ == plain(Status::InvalidArgument, "unknown option: "@ + key@),
    {
        let mut text = String::from_str("unknown option: ");
        text.append(key);
        Error::new(Status::InvalidArgument).message(text.as_str())
    }

    /// The error for setting a known option to a value of the wrong type.
    pub fn set_invalid_option(key: &str) -> (e: Error)
        ensures
            e@ == plain(Status::InvalidArgument, "invalid value for option: "@ + key@),
    {
        let mut text = String::from_str("invalid value for option: ");
        text.append(key);
        Error::new(Status::InvalidArgument).message(text.as_str())
    }
}

} // verus!
