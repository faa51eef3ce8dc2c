//! Errors returned by the library.

use vstd::prelude::*;
use crate::command::{CommandResult, CommandResultView, CommandSummary};
use crate::version::{ReleaseVersion, ReleaseVersionView, TmuxVersion, TmuxVersionView};
use crate::text::owned;

verus! {

/// The kind of tmux object involved in an error.
#[derive(Clone, Copy, Debug, Eq, Hash, PartialEq, Structural)]
pub enum ObjectKind {
    /// A server.
    Server,
    /// A session.
    Session,
    /// A window.
    Window,
    /// A pane.
    Pane,
    /// A client.
    Client,
    /// A buffer.
    Buffer,
}

/// The display name of an object kind.
pub open spec fn object_kind_name(kind: ObjectKind) -> Seq<char> {
    match kind {
        ObjectKind::Server => "server"@,
        ObjectKind::Session => "session"@,
        ObjectKind::Window => "window"@,
        ObjectKind::Pane => "pane"@,
        ObjectKind::Client => "client"@,
        ObjectKind::Buffer => "buffer"@,
    }
}

impl ObjectKind {
    /// Returns the lower-case display name.
    pub fn as_str(self) -> (r: &'static str)
        ensures
            r@ == object_kind_name(self),
    {
        proof {
            reveal_strlit("server");
            reveal_strlit("session");
            reveal_strlit("window");
            reveal_strlit("pane");
            reveal_strlit("client");
            reveal_strlit("buffer");
        }
        match self {
            ObjectKind::Server => "server",
            ObjectKind::Session => "session",
            ObjectKind::Window => "window",
            ObjectKind::Pane => "pane",
            ObjectKind::Client => "client",
            ObjectKind::Buffer => "buffer",
        }
    }
}

/// A category of option parsing or mutation failure.
#[derive(Clone, Copy, Debug, Eq, Hash, PartialEq, Structural)]
pub enum OptionErrorKind {
    /// An option value could not be parsed.
    Parse,
    /// An option value had an unsupported representation.
    Unsupported,
    /// An indexed option was malformed.
    SparseIndex,
}

/// The display name of an option error kind.
pub open spec fn option_error_kind_name(kind: OptionErrorKind) -> Seq<char> {
    match kind {
        OptionErrorKind::Parse => "parse"@,
        OptionErrorKind::Unsupported => "unsupported"@,
        OptionErrorKind::SparseIndex => "sparse-index"@,
    }
}

impl OptionErrorKind {
    /// Returns the display name.
    pub fn as_str(self) -> (r: &'static str)
        ensures
            r@ == option_error_kind_name(self),
    {
        proof {
            reveal_strlit("parse");
            reveal_strlit("unsupported");
            reveal_strlit("sparse-index");
        }
        match self {
            OptionErrorKind::Parse => "parse",
            OptionErrorKind::Unsupported => "unsupported",
            OptionErrorKind::SparseIndex => "sparse-index",
        }
    }
}

/// An error produced by configuration, execution, or parsing.
#[derive(Debug)]
#[non_exhaustive]
pub enum Error {
    /// The configured tmux executable was not found.
    ExecutableNotFound {
        /// The configured executable path, as bytes.
        executable: Vec<u8>,
    },
    /// A process or file operation failed.
    Io {
        /// A static operation name.
        operation: &'static str,
        /// The operating-system error description.
        message: String,
    },
    /// A command exceeded the configured timeout.
    Timeout {
        /// The redacted command description.
        summary: CommandSummary,
        /// Whole seconds of the configured timeout.
        timeout_secs: u64,
        /// Sub-second nanoseconds of the configured timeout.
        timeout_nanos: u32,
    },
    /// tmux returned a non-zero status for a typed operation.
    CommandFailed {
        /// The attempted high-level operation.
        operation: &'static str,
        /// The complete byte-preserving result.
        result: Box<CommandResult>,
    },
    /// No tmux server was available on the requested socket.
    ServerUnavailable {
        /// Diagnostic text returned by tmux.
        message: String,
    },
    /// A requested tmux object did not exist.
    ObjectNotFound {
        /// The expected object kind.
        kind: ObjectKind,
        /// The target used for lookup.
        target: String,
    },
    /// A lookup that expected one object returned multiple objects.
    MultipleObjects {
        /// The object kind.
        kind: ObjectKind,
        /// The number of matches.
        count: usize,
        /// A redacted query description.
        query: String,
    },
    /// An ID did not use the required prefix and numeric suffix.
    InvalidId {
        /// The ID kind.
        kind: &'static str,
        /// The invalid representation.
        value: String,
    },
    /// A session name used tmux-reserved target punctuation.
    InvalidSessionName(String),
    /// A public argument did not satisfy its contract.
    InvalidArgument {
        /// The argument name.
        argument: &'static str,
        /// The validation failure.
        message: String,
    },
    /// tmux returned an unrecognized version.
    InvalidVersion(String),
    /// The connected tmux version lacks a requested capability.
    Unsupported {
        /// The requested operation or field.
        capability: &'static str,
        /// The minimum release.
        required: ReleaseVersion,
        /// The actual connected version.
        found: TmuxVersion,
    },
    /// Structured tmux output could not be decoded.
    Decode {
        /// The output family being decoded.
        context: &'static str,
        /// A safe explanation without untrusted output interpolation.
        message: String,
    },
    /// An option value or index was invalid.
    Option {
        /// The failure category.
        kind: OptionErrorKind,
        /// The failure description.
        message: String,
    },
    /// An operation required being inside an attached tmux client.
    NotInsideTmux,
    /// A wait condition expired before it was satisfied.
    WaitTimeout {
        /// A description of the condition.
        condition: String,
    },
    /// The main operation succeeded but deterministic cleanup failed.
    Cleanup {
        /// The operation whose scope was being cleaned up.
        operation: &'static str,
        /// The cleanup error.
        source: Box<Error>,
    },
}

/// The mathematical content of an [`Error`].
pub enum ErrorView {
    ExecutableNotFound { executable: Seq<u8> },
    Io { operation: Seq<char>, message: Seq<char> },
    Timeout { summary: Seq<char>, timeout_secs: u64, timeout_nanos: u32 },
    CommandFailed { operation: Seq<char>, result: CommandResultView },
    ServerUnavailable { message: Seq<char> },
    ObjectNotFound { kind: ObjectKind, target: Seq<char> },
    MultipleObjects { kind: ObjectKind, count: usize, query: Seq<char> },
    InvalidId { kind: Seq<char>, value: Seq<char> },
    InvalidSessionName(Seq<char>),
    InvalidArgument { argument: Seq<char>, message: Seq<char> },
    InvalidVersion(Seq<char>),
    Unsupported { capability: Seq<char>, required: ReleaseVersionView, found: TmuxVersionView },
    Decode { context: Seq<char>, message: Seq<char> },
    Option { kind: OptionErrorKind, message: Seq<char> },
    NotInsideTmux,
    WaitTimeout { condition: Seq<char> },
    Cleanup { operation: Seq<char>, source: Box<ErrorView> },
}

impl View for Error {
    type V = ErrorView;

    open spec fn view(&self) -> ErrorView
        decreases self,
    {
        match self {
            Error::ExecutableNotFound { executable } => ErrorView::ExecutableNotFound { executable: executable@ },
            Error::Io { operation, message } => ErrorView::Io { operation: operation@, message: message@ },
            Error::Timeout { summary, timeout_secs, timeout_nanos } => ErrorView::Timeout {
                summary: summary@,
                timeout_secs: *timeout_secs,
                timeout_nanos: *timeout_nanos,
            },
            Error::CommandFailed { operation, result } => ErrorView::CommandFailed { operation: operation@, result: result@ },
            Error::ServerUnavailable { message } => ErrorView::ServerUnavailable { message: message@ },
            Error::ObjectNotFound { kind, target } => ErrorView::ObjectNotFound { kind: *kind, target: target@ },
            Error::MultipleObjects { kind, count, query } => ErrorView::MultipleObjects { kind: *kind, count: *count, query: query@ },
            Error::InvalidId { kind, value } => ErrorView::InvalidId { kind: kind@, value: value@ },
            Error::InvalidSessionName(name) => ErrorView::InvalidSessionName(name@),
            Error::InvalidArgument { argument, message } => ErrorView::InvalidArgument { argument: argument@, message: message@ },
            Error::InvalidVersion(value) => ErrorView::InvalidVersion(value@),
            Error::Unsupported { capability, required, found } => ErrorView::Unsupported {
                capability: capability@,
                required: required@,
                found: found@,
            },
            Error::Decode { context, message } => ErrorView::Decode { context: context@, message: message@ },
            Error::Option { kind, message } => ErrorView::Option { kind: *kind, message: message@ },
            Error::NotInsideTmux => ErrorView::NotInsideTmux,
            Error::WaitTimeout { condition } => ErrorView::WaitTimeout { condition: condition@ },
            Error::Cleanup { operation, source } => ErrorView::Cleanup {
                operation: operation@,
                source: Box::new((**source)@),
            },
        }
    }
}

/// The view of an invalid-argument error.
pub open spec fn invalid_argument(argument: &str, message: &str) -> ErrorView {
    ErrorView::InvalidArgument { argument: argument@, message: message@ }
}

/// Builds an invalid-argument error from two string slices.
pub fn invalid_argument_error(argument: &'static str, message: &str) -> (e: Error)
    ensures
        e@ == invalid_argument(argument, message),
{
    Error::InvalidArgument { argument, message: owned(message) }
}

} // verus!
