//! The immutable snapshot of user choices consumed at session start, and the
//! environment facts the embedding program probes once per start.

use vstd::prelude::*;

verus! {

/// The rectangle of the screen to capture.
#[derive(Clone, Copy, Debug, PartialEq, Eq, Structural)]
pub struct Region {
    pub x: u16,
    pub y: u16,
    pub width: u16,
    pub height: u16,
}

/// Which capture mechanism is in effect.
///
/// `Direct` grabs raw frames with an external encoder process writing
/// straight to the final container. `Compositor` captures through the
/// compositor's session-bus service, whose call blocks for the whole capture
/// and always yields the service's native container.
#[derive(Clone, Copy, Debug, PartialEq, Eq, Structural)]
pub enum BackendKind {
    Direct,
    Compositor,
}

/// User choices, captured once when a session starts and immutable
/// afterwards.
#[derive(Debug)]
pub struct RecordingConfig {
    /// Directory the final artifact is written to.
    pub output_dir: String,
    /// Base name of the artifact; blank means: derive one from the current
    /// timestamp.
    pub name: String,
    /// Container id, used as the file extension.
    pub extension: String,
    pub record_video: bool,
    pub record_audio: bool,
    /// Input source id handed to the audio encoder.
    pub audio_source: String,
    /// Whether the cursor is drawn into the video.
    pub draw_cursor: bool,
    /// Whether the captured region follows the cursor (direct backend only).
    pub follow_cursor: bool,
    /// Frames per second.
    pub frame_rate: u64,
    /// Seconds to wait before the direct backend starts grabbing.
    pub delay_secs: u64,
    /// Shell command launched fire-and-forget after a stop; blank means none.
    pub post_command: String,
}

/// Environment facts probed once per start by the embedding program: which
/// backend the display session supports, and the display target the direct
/// backend grabs from.
#[derive(Debug)]
pub struct Environment {
    pub backend: BackendKind,
    pub display: String,
}

} // verus!
