//! The errors that the fuzzer reports.

use vstd::prelude::*;
use vstd::string::StringExecFns;

verus! {

/// All errors of the fuzzer. Errors of the operating system and of the
/// libraries around the core are held by their text.
#[derive(Debug, Clone, PartialEq, Eq)]
pub enum ProFuzzError {
    /// An error with a message of its own.
    Custom {
        /// The message.
        err_msg: String,
    },
    /// The target could not be reached.
    ConnectionFailed {
        /// What could not be connected to, or why.
        err_msg: String,
    },
    /// The transport could not write.
    TransporterWrite,
    /// The transport could not read.
    TransporterRead,
    /// The command line was not understood.
    CommandLineError {
        /// The command in question.
        command: String,
    },
    /// The output directory exists and resuming was not asked for.
    AutoResumeNotEnabled,
    /// An operation took longer than its deadline.
    Timeout {
        /// Text of the elapsed deadline.
        elapsed: String,
    },
    /// An error of the operating system.
    IoError {
        /// Text of the error.
        err: String,
    },
    /// An error while reading or writing the crash journal.
    Serde {
        /// Text of the error.
        err: String,
    },
}

/// An error as a mathematical value: its kind and its texts.
pub enum ErrorView {
    /// An error with a message of its own.
    Custom {
        /// The message.
        err_msg: Seq<char>,
    },
    /// The target could not be reached.
    ConnectionFailed {
        /// What could not be connected to, or why.
        err_msg: Seq<char>,
    },
    /// The transport could not write.
    TransporterWrite,
    /// The transport could not read.
    TransporterRead,
    /// The command line was not understood.
    CommandLineError {
        /// The command in question.
        command: Seq<char>,
    },
    /// The output directory exists and resuming was not asked for.
    AutoResumeNotEnabled,
    /// An operation took longer than its deadline.
    Timeout {
        /// Text of the elapsed deadline.
        elapsed: Seq<char>,
    },
    /// An error of the operating system.
    IoError {
        /// Text of the error.
        err: Seq<char>,
    },
    /// An error while reading or writing the crash journal.
    Serde {
        /// Text of the error.
        err: Seq<char>,
    },
}

impl ErrorView {
    /// The text of the error.
    pub open spec fn text(self) -> Seq<char> {
        match self {
            ErrorView::Custom { err_msg } => err_msg,
            ErrorView::ConnectionFailed { err_msg } => "Could not connect to "@ + err_msg,
            ErrorView::TransporterWrite => "Could not write to the transport"@,
            ErrorView::TransporterRead => "Could not read from the transport"@,
            ErrorView::CommandLineError { command } => "Command line error "@ + command,
            ErrorView::AutoResumeNotEnabled =>
                "Output directory already exists, please enable `AUTO_RESUME` to resume the session."@,
            ErrorView::Timeout { elapsed } => "Run into a timeout "@ + elapsed + "."@,
            ErrorView::IoError { err } => err,
            ErrorView::Serde { err } => err,
        }
    }
}

impl View for ProFuzzError {
    type V = ErrorView;

    open spec fn view(&self) -> ErrorView {
        match *self {
            ProFuzzError::Custom { err_msg } => ErrorView::Custom { err_msg: err_msg@ },
            ProFuzzError::ConnectionFailed { err_msg } => ErrorView::ConnectionFailed {
                err_msg: err_msg@,
            },
            ProFuzzError::TransporterWrite => ErrorView::TransporterWrite,
            ProFuzzError::TransporterRead => ErrorView::TransporterRead,
            ProFuzzError::CommandLineError { command } => ErrorView::CommandLineError {
                command: command@,
            },
            ProFuzzError::AutoResumeNotEnabled => ErrorView::AutoResumeNotEnabled,
            ProFuzzError::Timeout { elapsed } => ErrorView::Timeout { elapsed: elapsed@ },
            ProFuzzError::IoError { err } => ErrorView::IoError { err: err@ },
            ProFuzzError::Serde { err } => ErrorView::Serde { err: err@ },
        }
    }
}

impl ProFuzzError {
    /// The text of the error as a sequence of characters.
    pub open spec fn text(&self) -> Seq<char> {
        self@.text()
    }

    /// Whether the error is a timeout.
    pub fn is_timeout(&self) -> (timeout: bool)
        ensures
            timeout == (*self is Timeout),
    {
        matches!(self, ProFuzzError::Timeout { .. })
    }

    /// The text of the error.
    pub fn message(&self) -> (text: String)
        ensures
            text@ == self.text(),
    {
        match self {
            ProFuzzError::Custom { err_msg } => err_msg.clone(),
            ProFuzzError::ConnectionFailed { err_msg } => {
                String::from_str("Could not connect to ").concat(err_msg.as_str())
            },
            ProFuzzError::TransporterWrite => String::from_str("Could not write to the transport"),
            ProFuzzError::TransporterRead => String::from_str("Could not read from the transport"),
            ProFuzzError::CommandLineError { command } => {
                String::from_str("Command line error ").concat(command.as_str())
            },
            ProFuzzError::AutoResumeNotEnabled => String::from_str(
                "Output directory already exists, please enable `AUTO_RESUME` to resume the session.",
            ),
            ProFuzzError::Timeout { elapsed } => {
                String::from_str("Run into a timeout ").concat(elapsed.as_str()).concat(".")
            },
            ProFuzzError::IoError { err } => err.clone(),
            ProFuzzError::Serde { err } => err.clone(),
        }
    }
}

} // verus!
