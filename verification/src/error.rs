//! Why the engine could not do what it was asked for.

use vstd::prelude::*;

use crate::event::OutputStream;
use crate::json::{error_text, json_error_text};
use crate::text::joined;

verus! {

/// Why the engine could not do what it was asked for.
#[derive(Debug)]
pub enum OpenCodeError {
    /// There is no `opencode` executable.
    ExecutableNotFound,
    /// The executable could not be run, for the reason that the system gave.
    NotExecuted { executable: String, reason: String },
    /// The executable ended with a status that means failure.
    ListingFailed { status: String },
    /// What the executable printed is no JSON, for the reason that the JSON reader gave.
    InvalidModelsJson { cause: serde_json::Error },
    /// What the executable printed holds no array of models.
    MissingModelArray,
    /// The process of a turn could not be started.
    NotSpawned { executable: String },
    /// The process of a turn was started without one of its standard streams.
    MissingPipe { stream: OutputStream },
    /// A turn could not be started, because its process could not.
    TransportNotStarted,
}

/// The contents of an [`OpenCodeError`].
pub enum ErrorView {
    ExecutableNotFound,
    NotExecuted { executable: Seq<char>, reason: Seq<char> },
    ListingFailed { status: Seq<char> },
    InvalidModelsJson { cause: Seq<char> },
    MissingModelArray,
    NotSpawned { executable: Seq<char> },
    MissingPipe { stream: OutputStream },
    TransportNotStarted,
}

impl DeepView for OpenCodeError {
    type V = ErrorView;

    open spec fn deep_view(&self) -> ErrorView {
        match *self {
            OpenCodeError::ExecutableNotFound => ErrorView::ExecutableNotFound,
            OpenCodeError::NotExecuted { executable, reason } => ErrorView::NotExecuted {
                executable: executable@,
                reason: reason@,
            },
            OpenCodeError::ListingFailed { status } => ErrorView::ListingFailed {
                status: status@,
            },
            OpenCodeError::InvalidModelsJson { cause } => ErrorView::InvalidModelsJson {
                cause: error_text(cause),
            },
            OpenCodeError::MissingModelArray => ErrorView::MissingModelArray,
            OpenCodeError::NotSpawned { executable } => ErrorView::NotSpawned {
                executable: executable@,
            },
            OpenCodeError::MissingPipe { stream } => ErrorView::MissingPipe { stream },
            OpenCodeError::TransportNotStarted => ErrorView::TransportNotStarted,
        }
    }
}

impl ErrorView {
    /// The sentence that tells the error to the user.
    pub open spec fn message(self) -> Seq<char> {
        match self {
            ErrorView::ExecutableNotFound => "`opencode` executable not found in PATH"@,
            ErrorView::NotExecuted { executable, .. } => "failed to execute "@ + executable,
            ErrorView::ListingFailed { status } => "opencode model listing failed with status "@
                + status,
            ErrorView::InvalidModelsJson { .. } => "invalid opencode models json"@,
            ErrorView::MissingModelArray => "opencode models payload missing model array"@,
            ErrorView::NotSpawned { executable } => "failed to spawn "@ + executable,
            ErrorView::MissingPipe { stream } => match stream {
                OutputStream::Stdin => "missing cli stdin"@,
                OutputStream::Stdout => "missing cli stdout"@,
                OutputStream::Stderr => "missing cli stderr"@,
            },
            ErrorView::TransportNotStarted => "failed to start opencode transport"@,
        }
    }

    /// What lies behind the error, where it holds that.
    pub open spec fn cause(self) -> Option<Seq<char>> {
        match self {
            ErrorView::NotExecuted { reason, .. } => Some(reason),
            ErrorView::InvalidModelsJson { cause } => Some(cause),
            _ => None,
        }
    }
}

impl OpenCodeError {
    /// The sentence that tells the error to the user.
    pub fn message(&self) -> (text: String)
        ensures
            text@ == self.deep_view().message(),
    {
        match self {
            OpenCodeError::ExecutableNotFound => {
                "`opencode` executable not found in PATH".to_owned()
            },
            OpenCodeError::NotExecuted { executable, .. } => joined(
                "failed to execute ",
                executable.as_str(),
            ),
            OpenCodeError::ListingFailed { status } => joined(
                "opencode model listing failed with status ",
                status.as_str(),
            ),
            OpenCodeError::InvalidModelsJson { .. } => "invalid opencode models json".to_owned(),
            OpenCodeError::MissingModelArray => {
                "opencode models payload missing model array".to_owned()
            },
            OpenCodeError::NotSpawned { executable } => joined(
                "failed to spawn ",
                executable.as_str(),
            ),
            OpenCodeError::MissingPipe { stream } => match stream {
                OutputStream::Stdin => "missing cli stdin".to_owned(),
                OutputStream::Stdout => "missing cli stdout".to_owned(),
                OutputStream::Stderr => "missing cli stderr".to_owned(),
            },
            OpenCodeError::TransportNotStarted => "failed to start opencode transport".to_owned(),
        }
    }

    /// What lies behind the error, where it holds that.
    pub fn cause(&self) -> (text: Option<String>)
        ensures
            text.deep_view() == self.deep_view().cause(),
    {
        match self {
            OpenCodeError::NotExecuted { reason, .. } => Some(reason.clone()),
            OpenCodeError::InvalidModelsJson { cause } => Some(json_error_text(cause)),
            _ => None,
        }
    }
}

} // verus!
