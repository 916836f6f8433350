//! Error taxonomy of the session orchestrator.

use vstd::prelude::*;

verus! {

/// Everything that can go wrong while starting or stopping a session.
///
/// `ConflictDeclined` is a cancellation, not a failure: the user chose not to
/// overwrite an existing file. `ProcessSignalError` is non-fatal when the
/// signalled process has already exited.
#[derive(Clone, Copy, Debug, PartialEq, Eq, Structural)]
pub enum SessionError {
    /// No usable output location was configured.
    ConfigError,
    /// A file already exists at the resolved path and the user declined to
    /// overwrite it.
    ConflictDeclined,
    /// An encoder or helper process could not be spawned.
    ProcessSpawnError,
    /// A termination signal could not be delivered.
    ProcessSignalError,
    /// A transcode, merge or convert invocation exited with an error.
    EncoderFailure,
    /// The compositor capture service could not be reached or its call failed.
    IpcError,
}

impl SessionError {
    /// A human-readable one-line message for this error.
    pub fn describe(&self) -> (r: String)
        ensures
            r@ == self.describe_text(),
    {
        match self {
            SessionError::ConfigError => String::from_str("no usable output location"),
            SessionError::ConflictDeclined => String::from_str(
                "recording cancelled: the output file was not overwritten",
            ),
            SessionError::ProcessSpawnError => String::from_str("could not spawn a capture process"),
            SessionError::ProcessSignalError => String::from_str(
                "could not signal a capture process",
            ),
            SessionError::EncoderFailure => String::from_str("an encoder invocation failed"),
            SessionError::IpcError => String::from_str("the compositor capture service failed"),
        }
    }

    /// The message `describe` returns for each variant.
    pub open spec fn describe_text(self) -> Seq<char> {
        match self {
            SessionError::ConfigError => "no usable output location"@,
            SessionError::ConflictDeclined => "recording cancelled: the output file was not overwritten"@,
            SessionError::ProcessSpawnError => "could not spawn a capture process"@,
            SessionError::ProcessSignalError => "could not signal a capture process"@,
            SessionError::EncoderFailure => "an encoder invocation failed"@,
            SessionError::IpcError => "the compositor capture service failed"@,
        }
    }
}

} // verus!
