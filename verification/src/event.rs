//! The records that cross the bridge: cursor positions travelling out to the
//! worker and status messages travelling back to the editor.

use vstd::prelude::*;
use vstd::std_specs::convert::FromSpecImpl;

verus! {

/// Mathematical content of a [`BufInfo`].
pub struct CursorView {
    /// Zero-based line.
    pub line: nat,
    /// Zero-based column.
    pub col: nat,
    /// Display name of the buffer, if it has one.
    pub name: Option<Seq<char>>,
}

/// Mathematical content of a [`MessageEvent`].
pub struct MessageView {
    /// Whether the text reports a failure.
    pub err: bool,
    /// The text shown to the user.
    pub text: Seq<char>,
}

/// Mathematical content of a [`ReportCursorMovementRequest`].
pub struct RequestView {
    /// Path of the edited file, if known.
    pub file_path: Option<Seq<char>>,
    /// Zero-based line, if known.
    pub line_number: Option<nat>,
    /// Zero-based column.
    pub column_number: nat,
}

/// Where the cursor stands, as sent from the editor's loop to the worker.
#[derive(Debug, PartialEq, Eq)]
pub struct BufInfo {
    /// Column number, zero-based.
    pub col: u64,
    /// Line number, zero-based.
    pub line: u64,
    /// Name of the buffer.
    pub name: Option<String>,
}

/// A notice for the user, as sent from the worker back to the editor's loop.
#[derive(Debug, PartialEq, Eq)]
pub struct MessageEvent {
    /// Whether the message is an error message.
    pub err: bool,
    /// Text to be printed to the user.
    pub message: String,
}

/// The body of one "report cursor movement" call.
#[derive(Debug, PartialEq, Eq)]
pub struct ReportCursorMovementRequest {
    /// Path of the edited file.
    pub file_path: Option<String>,
    /// Line number, zero-based.
    pub line_number: Option<u64>,
    /// Column number, zero-based.
    pub column_number: u64,
}

impl View for BufInfo {
    type V = CursorView;

    open spec fn view(&self) -> CursorView {
        CursorView {
            line: self.line as nat,
            col: self.col as nat,
            name: self.name.deep_view(),
        }
    }
}

impl View for MessageEvent {
    type V = MessageView;

    open spec fn view(&self) -> MessageView {
        MessageView { err: self.err, text: self.message@ }
    }
}

impl View for ReportCursorMovementRequest {
    type V = RequestView;

    open spec fn view(&self) -> RequestView {
        RequestView {
            file_path: self.file_path.deep_view(),
            line_number: match self.line_number {
                Some(line) => Some(line as nat),
                None => None,
            },
            column_number: self.column_number as nat,
        }
    }
}

/// The request that reports a cursor position: every field is carried over,
/// and the line is always present.
pub open spec fn request_of(cursor: CursorView) -> RequestView {
    RequestView {
        file_path: cursor.name,
        line_number: Some(cursor.line),
        column_number: cursor.col,
    }
}

impl BufInfo {
    /// Records a cursor position as the editor reports it: `cursor` holds a
    /// one-based line and a zero-based column. The stored line is zero-based.
    pub fn new(name: Option<String>, cursor: (usize, usize)) -> (info: Self)
        requires
            cursor.0 >= 1,
        ensures
            info@ == (CursorView {
                line: (cursor.0 - 1) as nat,
                col: cursor.1 as nat,
                name: name.deep_view(),
            }),
            info.name == name,
    {
        BufInfo { col: cursor.1 as u64, line: cursor.0 as u64 - 1, name }
    }
}

impl MessageEvent {
    /// A message with the given flag and text.
    pub fn new(err: bool, message: String) -> (event: Self)
        ensures
            event@ == (MessageView { err, text: message@ }),
            event.message == message,
    {
        MessageEvent { err, message }
    }
}

/// The editor's two ways of showing a message.
#[derive(Debug, Clone, Copy, PartialEq, Eq, Structural)]
pub enum OutputPath {
    /// The error output, which shows a whole line.
    Error,
    /// The normal output.
    Normal,
}

impl MessageEvent {
    /// The output on which the editor shows this message: the error output
    /// for an error, the normal output for anything else.
    pub fn output_path(&self) -> (path: OutputPath)
        ensures
            path == (if self.err { OutputPath::Error } else { OutputPath::Normal }),
    {
        if self.err {
            OutputPath::Error
        } else {
            OutputPath::Normal
        }
    }
}

impl From<&str> for MessageEvent {
    /// An ordinary, non-error message with the given text.
    fn from(message: &str) -> (event: Self)
        ensures
            event@ == (MessageView { err: false, text: message@ }),
    {
        MessageEvent::new(false, message.to_owned())
    }
}

/// The conversion is specified by the `ensures` of `from`, over the view of
/// the message. No equation between values is offered at the level of the
/// trait: two strings with the same characters are not known to be the same
/// value.
impl FromSpecImpl<&str> for MessageEvent {
    open spec fn obeys_from_spec() -> bool {
        false
    }

    open spec fn from_spec(message: &str) -> MessageEvent {
        arbitrary()
    }
}

/// `anyhow::Error`, carried through as an opaque value.
#[verifier::external_type_specification]
#[verifier::external_body]
pub struct ExAnyhowError(anyhow::Error);

/// The text that an `anyhow::Error` displays with the plain `{}` format.
///
/// `anyhow` hands the formatting to the error it wraps, so this is that
/// error's own text: the outermost message, without the chain of causes.
/// Nothing more is assumed about it.
pub uninterp spec fn display_text(error: anyhow::Error) -> Seq<char>;

/// Calls `to_string` on an `anyhow::Error`: the `Display` implementation of
/// `anyhow::Error`, written into a fresh `String`.
///
/// Assumed, not proved: the text returned is the one that [`display_text`]
/// names. The call returns for every error whose own `Display` obeys the
/// formatting rules, which forbid failing when the sink does not.
#[verifier::external_body]
fn error_to_string(error: &anyhow::Error) -> (text: String)
    ensures
        text@ == display_text(*error),
{
    error.to_string()
}

impl From<anyhow::Error> for MessageEvent {
    /// An error message whose text is what the error displays.
    fn from(err: anyhow::Error) -> (event: Self)
        ensures
            event@ == (MessageView { err: true, text: display_text(err) }),
    {
        let text = error_to_string(&err);
        MessageEvent::new(true, text)
    }
}

/// As for `&str`: the `ensures` of `from` specifies the conversion.
impl FromSpecImpl<anyhow::Error> for MessageEvent {
    open spec fn obeys_from_spec() -> bool {
        false
    }

    open spec fn from_spec(err: anyhow::Error) -> MessageEvent {
        arbitrary()
    }
}

impl From<BufInfo> for ReportCursorMovementRequest {
    /// Maps a cursor position onto the request that reports it.
    fn from(buf_info: BufInfo) -> (request: Self)
        ensures
            request@ == request_of(buf_info@),
    {
        ReportCursorMovementRequest {
            column_number: buf_info.col,
            line_number: Some(buf_info.line),
            file_path: buf_info.name,
        }
    }
}

impl FromSpecImpl<BufInfo> for ReportCursorMovementRequest {
    open spec fn obeys_from_spec() -> bool {
        true
    }

    open spec fn from_spec(buf_info: BufInfo) -> ReportCursorMovementRequest {
        ReportCursorMovementRequest {
            column_number: buf_info.col,
            line_number: Some(buf_info.line),
            file_path: buf_info.name,
        }
    }
}

} // verus!
