//! The recording session orchestrator.
//!
//! A session is driven by the embedding program in rounds: the library
//! decides, the program acts. `start` resolves the output path, runs the
//! overwrite-conflict check and returns the capture plan (encoder arguments,
//! start delay, compositor request); the program spawns the processes and
//! hands the ids back through `attach_processes`. `stop` returns the ordered
//! six-stage tear-down plan; the program executes it and reports the outcome
//! through `finish_stop`. The session itself never touches a process or the
//! filesystem, so everything it decides is verified.

use vstd::prelude::*;
use crate::commands::{
    audio_capture_args, audio_capture_argv, compositor_pipeline, compositor_pipeline_text,
    direct_video_args, direct_video_argv, playback_argv, playback_command,
};
use crate::config::{BackendKind, Environment, RecordingConfig, Region};
use crate::errors::SessionError;
use crate::paths::{
    resolve_output_path, resolved_path_ok, temp_audio_of, temp_audio_path, temp_video_of,
    temp_video_path, temp_without_audio_of, temp_without_audio_path,
};
use crate::text::{is_blank, is_blank_str};

verus! {

/// How many progress stages a stop reports; every report carries this
/// denominator.
pub const STAGE_TOTAL: u8 = 6;

/// The abstract state of a session.
#[derive(Clone, Copy, Debug, PartialEq, Eq, Structural)]
pub enum SessionState {
    Idle,
    Recording,
    Stopping,
    Finished,
    Failed,
}

/// The live video capture, if any: the direct backend's encoder process id,
/// or the compositor worker (whose thread and stop channel the embedding
/// program owns).
#[derive(Clone, Copy, Debug, PartialEq, Eq, Structural)]
pub enum CaptureHandle {
    DirectProcess(u32),
    CompositorWorker,
}

/// The four files a session ever touches, named symbolically; the concrete
/// path of each is `artifact_path`.
#[derive(Clone, Copy, Debug, PartialEq, Eq, Structural)]
pub enum ArtifactKind {
    /// The resolved output path itself.
    FinalOutput,
    /// `<resolved>.temp`: the compositor's native-container capture.
    TempVideo,
    /// `<resolved>.temp.audio`: the raw audio track.
    TempAudio,
    /// `<resolved>.temp.without.audio.<ext>`: the video track staged for the
    /// merge.
    TempWithoutAudio,
}

/// What the embedding program found on disk when a stop begins: whether the
/// raw video artifact (at the resolved path for the direct backend, at
/// `<resolved>.temp` for the compositor) and the raw audio track exist. The
/// stop pipeline decides on presence, not on the configuration flags, so
/// partial failures upstream are tolerated.
#[derive(Clone, Copy, Debug, PartialEq, Eq, Structural)]
pub struct ArtifactProbe {
    pub video_present: bool,
    pub audio_present: bool,
}

/// One step of the stop pipeline, in the order the embedding program must
/// execute them.
///
/// `Report` steps carry the stage number `1..=6` (denominator `STAGE_TOTAL`);
/// the label of each is `stage_label`. Signalling a process that has already
/// exited is tolerated, not fatal. `LaunchShell` launches the session's
/// post-record command (already trimmed) fire-and-forget. A failed encoder
/// invocation halts the remaining file steps but must not delete artifacts
/// already produced.
#[derive(Clone, Copy, Debug, PartialEq, Eq, Structural)]
pub enum StageAction {
    Report { stage: u8 },
    SignalVideo { pid: u32 },
    SignalAudio { pid: u32 },
    /// Ask the compositor service to end the blocking capture call.
    StopScreencastIpc,
    /// Send the stop signal on the worker's channel and wait for its exit.
    SignalWorkerStop,
    /// Run the compositor transcode (`compositor_transcode_argv`).
    Transcode { input: ArtifactKind, output: ArtifactKind },
    /// Rename a file; renaming a name to itself does nothing.
    Rename { from: ArtifactKind, to: ArtifactKind },
    /// Run the merge encoder (`merge_argv`).
    Merge { video: ArtifactKind, audio: ArtifactKind, output: ArtifactKind },
    /// Run the audio-only conversion (`audio_convert_argv`).
    ConvertAudio { input: ArtifactKind, output: ArtifactKind },
    DeleteFile { name: ArtifactKind },
    LaunchShell,
    HideProgress,
}

/// The label reported with stage `1..=6`; empty for any other number.
pub open spec fn stage_label_text(stage: nat) -> Seq<char> {
    if stage == 1 {
        "Stop Recording Video"@
    } else if stage == 2 {
        "Stop Recording Audio"@
    } else if stage == 3 {
        "Finalize Compositor Capture"@
    } else if stage == 4 {
        "Stage Video Track"@
    } else if stage == 5 {
        "Merge And Convert"@
    } else if stage == 6 {
        "Finished"@
    } else {
        ""@
    }
}

/// Builds `stage_label_text`.
pub fn stage_label(stage: u8) -> (r: String)
    ensures
        r@ == stage_label_text(stage as nat),
{
    match stage {
        1 => String::from_str("Stop Recording Video"),
        2 => String::from_str("Stop Recording Audio"),
        3 => String::from_str("Finalize Compositor Capture"),
        4 => String::from_str("Stage Video Track"),
        5 => String::from_str("Merge And Convert"),
        6 => String::from_str("Finished"),
        _ => String::from_str(""),
    }
}

/// The capture plan a successful `start` returns; the embedding program
/// spawns what it lists, in this order: audio first, then video.
#[derive(Debug)]
pub struct StartPlan {
    /// Arguments of the audio capture encoder, when audio is recorded.
    pub audio: Option<Vec<String>>,
    /// How to start the video capture, when video is recorded.
    pub video: Option<VideoStart>,
}

/// How the video capture starts.
#[derive(Debug)]
pub enum VideoStart {
    /// Wait `delay_secs`, then spawn the frame-grab encoder with `args`.
    Direct { delay_secs: u64, args: Vec<String> },
    /// Spawn a worker that issues the blocking capture call; when
    /// `signal_old_worker` holds, a lingering worker of an earlier capture is
    /// signalled to stop first.
    Compositor { signal_old_worker: bool, request: ScreencastRequest },
}

/// The area-capture request the worker sends to the compositor service,
/// together with its option map (`framerate`, `draw-cursor`, `pipeline`).
#[derive(Debug)]
pub struct ScreencastRequest {
    pub x: u16,
    pub y: u16,
    pub width: u16,
    pub height: u16,
    /// `<resolved>.temp`: where the service writes its native container.
    pub file_template: String,
    pub frame_rate: u64,
    pub draw_cursor: bool,
    /// The encoder pipeline description, thread count left to the service.
    pub pipeline: String,
}

/// What `start` hands back: the tear-down plan of a previous session that was
/// still active, and the result of the new start.
#[derive(Debug)]
pub struct StartOutcome {
    pub prior_stop: Option<Vec<StageAction>>,
    pub outcome: Result<StartPlan, SessionError>,
}

/// The session orchestrator. At most one capture is active at a time: a
/// `start` while one is active plans the full stop of the old one first.
#[derive(Debug)]
pub struct RecordingSession {
    pub state: SessionState,
    /// Computed once per start, immutable for the life of the session.
    pub resolved_path: Option<String>,
    /// The container id of the current session.
    pub extension: String,
    pub backend: BackendKind,
    pub video_handle: Option<CaptureHandle>,
    pub audio_process_id: Option<u32>,
    /// Whether a compositor worker of this session may still be waiting on
    /// its stop channel.
    pub worker_live: bool,
    /// The post-record shell command of the current session; blank means
    /// none.
    pub post_command: String,
}

impl RecordingSession {
    /// A capture is active while a video handle or an audio process id is
    /// held.
    pub open spec fn active(self) -> bool {
        self.video_handle is Some || self.audio_process_id is Some
    }

    /// `self` right after its capture handles are torn down.
    pub open spec fn stopped(self) -> RecordingSession {
        RecordingSession {
            state: SessionState::Stopping,
            video_handle: None,
            audio_process_id: None,
            worker_live: false,
            ..self
        }
    }

    /// A fresh, idle session.
    pub fn new() -> (s: RecordingSession)
        ensures
            s.state == SessionState::Idle,
            !s.active(),
            s.resolved_path is None,
            !s.worker_live,
            s.extension@ == Seq::<char>::empty(),
            s.post_command@ == Seq::<char>::empty(),
    {
        RecordingSession {
            state: SessionState::Idle,
            resolved_path: None,
            extension: String::new(),
            backend: BackendKind::Direct,
            video_handle: None,
            audio_process_id: None,
            worker_live: false,
            post_command: String::new(),
        }
    }

    /// Whether a capture is active.
    pub fn is_active(&self) -> (r: bool)
        ensures
            r == self.active(),
    {
        self.video_handle.is_some() || self.audio_process_id.is_some()
    }

    /// The concrete path of an artifact of this session; nothing before the
    /// first start has resolved a path.
    pub fn artifact_path(&self, which: ArtifactKind) -> (r: Option<String>)
        ensures
            match self.resolved_path {
                Some(p) => r matches Some(q) && q@ == artifact_name_text(
                    p@,
                    self.extension@,
                    which,
                ),
                None => r is None,
            },
    {
        match &self.resolved_path {
            None => None,
            Some(p) => Some(
                match which {
                    ArtifactKind::FinalOutput => p.clone(),
                    ArtifactKind::TempVideo => temp_video_path(p.as_str()),
                    ArtifactKind::TempAudio => temp_audio_path(p.as_str()),
                    ArtifactKind::TempWithoutAudio => temp_without_audio_path(
                        p.as_str(),
                        self.extension.as_str(),
                    ),
                },
            ),
        }
    }

    /// The opener command for the finished artifact, once a path has been
    /// resolved.
    pub fn play_record(&self, sandboxed: bool) -> (r: Option<Vec<String>>)
        ensures
            match self.resolved_path {
                Some(p) => r matches Some(c) && c.deep_view() == playback_argv(p@, sandboxed),
                None => r is None,
            },
    {
        match &self.resolved_path {
            None => None,
            Some(p) => Some(playback_command(p.as_str(), sandboxed)),
        }
    }

    /// Plans the ordered stop pipeline and tears the handles down.
    ///
    /// The plan always carries the six stage reports in order, whether or not
    /// anything was recording, and ends by hiding the progress display.
    pub fn stop(&mut self, probe: ArtifactProbe) -> (r: Vec<StageAction>)
        ensures
            r@ == stop_actions(*old(self), probe),
            *final(self) == old(self).stopped(),
    {
        let ghost s0 = *old(self);
        let video_handle = self.video_handle;
        let audio_pid = self.audio_process_id;
        let backend = self.backend;
        let worker_live = self.worker_live;

        let mut r = stage1_part(Ghost(s0), video_handle);
        stage2_part(&mut r, Ghost(s0), audio_pid);
        stage3_part(&mut r, Ghost(s0), backend, video_handle, worker_live, probe);
        stage4_part(&mut r, Ghost(s0), backend, probe);
        stage5_part(&mut r, probe);
        let blank = is_blank_str(self.post_command.as_str());
        stage6_part(&mut r, Ghost(s0), blank);

        self.state = SessionState::Stopping;
        self.video_handle = None;
        self.audio_process_id = None;
        self.worker_live = false;
        r
    }

    /// Closes a stop: `Finished` when every encoder invocation succeeded,
    /// `Failed` (with `EncoderFailure`) otherwise. Artifacts already produced
    /// are left on disk either way.
    pub fn finish_stop(&mut self, encoders_ok: bool) -> (r: Result<(), SessionError>)
        requires
            old(self).state == SessionState::Stopping,
        ensures
            r is Ok <==> encoders_ok,
            !encoders_ok ==> r == Result::<(), SessionError>::Err(SessionError::EncoderFailure),
            *final(self) == (RecordingSession {
                state: if encoders_ok {
                    SessionState::Finished
                } else {
                    SessionState::Failed
                },
                ..*old(self)
            }),
    {
        if encoders_ok {
            self.state = SessionState::Finished;
            Ok(())
        } else {
            self.state = SessionState::Failed;
            Err(SessionError::EncoderFailure)
        }
    }

    /// Starts a session: any active capture is fully stopped first (its plan
    /// is `prior_stop`), the output path is resolved, the overwrite conflict
    /// is decided, and on success the capture plan is returned with the
    /// session recording.
    ///
    /// `prior_probe` is the artifact probe for the forced stop of the old
    /// session; `target_exists` says whether a file already sits at the
    /// resolved path, and `overwrite_accepted` is the user's answer to the
    /// conflict dialog (only consulted when `target_exists`). Declining is a
    /// cancellation: nothing is planned, so nothing gets spawned and no file
    /// is touched.
    pub fn start(
        &mut self,
        cfg: &RecordingConfig,
        region: Region,
        env: &Environment,
        prior_probe: ArtifactProbe,
        target_exists: bool,
        overwrite_accepted: bool,
    ) -> (r: StartOutcome)
        ensures
            ({
                let stopped = if old(self).active() {
                    old(self).stopped()
                } else {
                    *old(self)
                };
                &&& (match r.prior_stop {
                    Some(p) => old(self).active() && p@ == stop_actions(*old(self), prior_probe),
                    None => !old(self).active(),
                })
                &&& (match r.outcome {
                    Ok(plan) => {
                        &&& cfg.output_dir@.len() > 0
                        &&& (target_exists ==> overwrite_accepted)
                        &&& (final(self).resolved_path matches Some(rp)
                            && resolved_path_ok(cfg.output_dir@, cfg.name@, cfg.extension@, rp@)
                            && start_plan_ok(plan, cfg, region, env, rp@, stopped.worker_live))
                        &&& final(self).state == SessionState::Recording
                        &&& final(self).backend == env.backend
                        &&& final(self).extension@ == cfg.extension@
                        &&& final(self).post_command@ == cfg.post_command@
                        &&& !final(self).active()
                        &&& !final(self).worker_live
                    },
                    Err(e) => {
                        &&& (e == SessionError::ConfigError <==> cfg.output_dir@.len() == 0)
                        &&& (e == SessionError::ConflictDeclined ==> cfg.output_dir@.len() > 0
                            && target_exists && !overwrite_accepted)
                        &&& (e == SessionError::ConfigError || e == SessionError::ConflictDeclined)
                        &&& *final(self) == (RecordingSession {
                            state: SessionState::Idle,
                            ..stopped
                        })
                    },
                })
                &&& (r.outcome is Err <==> (cfg.output_dir@.len() == 0 || (target_exists
                    && !overwrite_accepted)))
            }),
    {
        let prior_stop = if self.is_active() {
            Some(self.stop(prior_probe))
        } else {
            None
        };
        match resolve_output_path(
            cfg.output_dir.as_str(),
            cfg.name.as_str(),
            cfg.extension.as_str(),
        ) {
            Err(e) => {
                self.state = SessionState::Idle;
                StartOutcome { prior_stop, outcome: Err(e) }
            },
            Ok(rp) => {
                if target_exists && !overwrite_accepted {
                    self.state = SessionState::Idle;
                    StartOutcome { prior_stop, outcome: Err(SessionError::ConflictDeclined) }
                } else {
                    let audio = if cfg.record_audio {
                        Some(audio_capture_args(cfg.audio_source.as_str(), rp.as_str()))
                    } else {
                        None
                    };
                    let video = if cfg.record_video {
                        Some(
                            match env.backend {
                                BackendKind::Direct => VideoStart::Direct {
                                    delay_secs: cfg.delay_secs,
                                    args: direct_video_args(
                                        region,
                                        cfg.frame_rate,
                                        cfg.draw_cursor,
                                        cfg.follow_cursor,
                                        env.display.as_str(),
                                        rp.as_str(),
                                    ),
                                },
                                BackendKind::Compositor => VideoStart::Compositor {
                                    signal_old_worker: self.worker_live,
                                    request: ScreencastRequest {
                                        x: region.x,
                                        y: region.y,
                                        width: region.width,
                                        height: region.height,
                                        file_template: temp_video_path(rp.as_str()),
                                        frame_rate: cfg.frame_rate,
                                        draw_cursor: cfg.draw_cursor,
                                        pipeline: compositor_pipeline_text(),
                                    },
                                },
                            },
                        )
                    } else {
                        None
                    };
                    self.resolved_path = Some(rp);
                    self.extension = cfg.extension.clone();
                    self.post_command = cfg.post_command.clone();
                    self.backend = env.backend;
                    self.worker_live = false;
                    self.state = SessionState::Recording;
                    StartOutcome { prior_stop, outcome: Ok(StartPlan { audio, video }) }
                }
            },
        }
    }

    /// Records the process handles the embedding program obtained for the
    /// plan of the start just made. A spawn failure is reported through
    /// `spawn_failed` instead.
    pub fn attach_processes(&mut self, audio_pid: Option<u32>, video: Option<CaptureHandle>)
        requires
            old(self).state == SessionState::Recording,
            !old(self).active(),
            (video matches Some(CaptureHandle::DirectProcess(_)) ==> old(self).backend
                == BackendKind::Direct),
            (video == Some(CaptureHandle::CompositorWorker) ==> old(self).backend
                == BackendKind::Compositor),
        ensures
            *final(self) == (RecordingSession {
                video_handle: video,
                audio_process_id: audio_pid,
                worker_live: video == Some(CaptureHandle::CompositorWorker),
                ..*old(self)
            }),
    {
        self.video_handle = video;
        self.audio_process_id = audio_pid;
        self.worker_live = matches!(video, Some(CaptureHandle::CompositorWorker));
    }

    /// Marks the start as failed because a capture process could not be
    /// spawned; the remaining start steps are abandoned.
    pub fn spawn_failed(&mut self) -> (e: SessionError)
        ensures
            e == SessionError::ProcessSpawnError,
            *final(self) == (RecordingSession {
                state: SessionState::Failed,
                video_handle: None,
                audio_process_id: None,
                worker_live: false,
                ..*old(self)
            }),
    {
        self.state = SessionState::Failed;
        self.video_handle = None;
        self.audio_process_id = None;
        self.worker_live = false;
        SessionError::ProcessSpawnError
    }
}

fn stage1_part(Ghost(s0): Ghost<RecordingSession>, video_handle: Option<CaptureHandle>) -> (r:
    Vec<StageAction>)
    requires
        s0.video_handle == video_handle,
    ensures
        r@ == seq![StageAction::Report { stage: 1u8 }] + stage1_actions(s0),
{
    let mut r: Vec<StageAction> = Vec::new();
    r.push(StageAction::Report { stage: 1 });
    if let Some(CaptureHandle::DirectProcess(pid)) = video_handle {
        r.push(StageAction::SignalVideo { pid });
    }
    proof {
        assert(r@ =~= seq![StageAction::Report { stage: 1u8 }] + stage1_actions(s0));
    }
    r
}

fn stage2_part(
    r: &mut Vec<StageAction>,
    Ghost(s0): Ghost<RecordingSession>,
    audio_pid: Option<u32>,
)
    requires
        s0.audio_process_id == audio_pid,
    ensures
        final(r)@ == old(r)@ + seq![StageAction::Report { stage: 2u8 }] + stage2_actions(s0),
{
    r.push(StageAction::Report { stage: 2 });
    if let Some(pid) = audio_pid {
        r.push(StageAction::SignalAudio { pid });
    }
    proof {
        assert(final(r)@ =~= old(r)@ + seq![StageAction::Report { stage: 2u8 }]
            + stage2_actions(s0));
    }
}

fn stage3_part(
    r: &mut Vec<StageAction>,
    Ghost(s0): Ghost<RecordingSession>,
    backend: BackendKind,
    video_handle: Option<CaptureHandle>,
    worker_live: bool,
    probe: ArtifactProbe,
)
    requires
        s0.backend == backend,
        s0.video_handle == video_handle,
        s0.worker_live == worker_live,
    ensures
        final(r)@ == old(r)@ + seq![StageAction::Report { stage: 3u8 }] + stage3_actions(
            s0,
            probe,
        ),
{
    r.push(StageAction::Report { stage: 3 });
    if matches!(backend, BackendKind::Compositor) {
        if video_handle.is_some() {
            r.push(StageAction::StopScreencastIpc);
        }
        if video_handle.is_some() || worker_live {
            r.push(StageAction::SignalWorkerStop);
        }
        if probe.video_present {
            r.push(
                StageAction::Transcode {
                    input: ArtifactKind::TempVideo,
                    output: if probe.audio_present {
                        ArtifactKind::TempWithoutAudio
                    } else {
                        ArtifactKind::FinalOutput
                    },
                },
            );
            r.push(StageAction::DeleteFile { name: ArtifactKind::TempVideo });
        }
    }
    proof {
        assert(final(r)@ =~= old(r)@ + seq![StageAction::Report { stage: 3u8 }] + stage3_actions(
            s0,
            probe,
        ));
    }
}

fn stage4_part(
    r: &mut Vec<StageAction>,
    Ghost(s0): Ghost<RecordingSession>,
    backend: BackendKind,
    probe: ArtifactProbe,
)
    requires
        s0.backend == backend,
    ensures
        final(r)@ == old(r)@ + seq![StageAction::Report { stage: 4u8 }] + stage4_actions(
            s0,
            probe,
        ),
{
    r.push(StageAction::Report { stage: 4 });
    if matches!(backend, BackendKind::Direct) && probe.video_present {
        r.push(
            StageAction::Rename {
                from: ArtifactKind::FinalOutput,
                to: if probe.audio_present {
                    ArtifactKind::TempWithoutAudio
                } else {
                    ArtifactKind::FinalOutput
                },
            },
        );
    }
    proof {
        assert(final(r)@ =~= old(r)@ + seq![StageAction::Report { stage: 4u8 }] + stage4_actions(
            s0,
            probe,
        ));
    }
}

fn stage5_part(r: &mut Vec<StageAction>, probe: ArtifactProbe)
    ensures
        final(r)@ == old(r)@ + seq![StageAction::Report { stage: 5u8 }] + stage5_actions(probe),
{
    r.push(StageAction::Report { stage: 5 });
    if probe.video_present && probe.audio_present {
        r.push(
            StageAction::Merge {
                video: ArtifactKind::TempWithoutAudio,
                audio: ArtifactKind::TempAudio,
                output: ArtifactKind::FinalOutput,
            },
        );
        r.push(StageAction::DeleteFile { name: ArtifactKind::TempAudio });
        r.push(StageAction::DeleteFile { name: ArtifactKind::TempWithoutAudio });
    } else if probe.audio_present {
        r.push(
            StageAction::ConvertAudio {
                input: ArtifactKind::TempAudio,
                output: ArtifactKind::FinalOutput,
            },
        );
        r.push(StageAction::DeleteFile { name: ArtifactKind::TempAudio });
    }
    proof {
        assert(final(r)@ =~= old(r)@ + seq![StageAction::Report { stage: 5u8 }] + stage5_actions(
            probe,
        ));
    }
}

fn stage6_part(r: &mut Vec<StageAction>, Ghost(s0): Ghost<RecordingSession>, post_blank: bool)
    requires
        post_blank == is_blank(s0.post_command@),
    ensures
        final(r)@ == old(r)@ + stage6_actions(s0) + seq![
            StageAction::Report { stage: 6u8 },
            StageAction::HideProgress,
        ],
{
    if !post_blank {
        r.push(StageAction::LaunchShell);
    }
    r.push(StageAction::Report { stage: 6 });
    r.push(StageAction::HideProgress);
    proof {
        assert(final(r)@ =~= old(r)@ + stage6_actions(s0) + seq![
            StageAction::Report { stage: 6u8 },
            StageAction::HideProgress,
        ]);
    }
}

/// The concrete path of each artifact, over the resolved path and the
/// container id.
pub open spec fn artifact_name_text(
    resolved: Seq<char>,
    ext: Seq<char>,
    which: ArtifactKind,
) -> Seq<char> {
    match which {
        ArtifactKind::FinalOutput => resolved,
        ArtifactKind::TempVideo => temp_video_of(resolved),
        ArtifactKind::TempAudio => temp_audio_of(resolved),
        ArtifactKind::TempWithoutAudio => temp_without_audio_of(resolved, ext),
    }
}

/// Stage 1: terminate the direct backend's video encoder, if one runs.
pub open spec fn stage1_actions(s: RecordingSession) -> Seq<StageAction> {
    match s.video_handle {
        Some(CaptureHandle::DirectProcess(pid)) => seq![StageAction::SignalVideo { pid }],
        _ => Seq::<StageAction>::empty(),
    }
}

/// Stage 2: terminate the audio encoder, if one runs.
pub open spec fn stage2_actions(s: RecordingSession) -> Seq<StageAction> {
    match s.audio_process_id {
        Some(pid) => seq![StageAction::SignalAudio { pid }],
        None => Seq::<StageAction>::empty(),
    }
}

/// Stage 3, compositor only: end the blocking capture call, stop the worker,
/// and when the service produced its native-container capture, transcode it —
/// to the staged name when an audio track was also recorded, else straight to
/// the resolved path — and delete the capture.
pub open spec fn stage3_actions(s: RecordingSession, probe: ArtifactProbe) -> Seq<StageAction> {
    if s.backend == BackendKind::Compositor {
        (if s.video_handle is Some {
            seq![StageAction::StopScreencastIpc]
        } else {
            Seq::<StageAction>::empty()
        }) + (if s.video_handle is Some || s.worker_live {
            seq![StageAction::SignalWorkerStop]
        } else {
            Seq::<StageAction>::empty()
        }) + (if probe.video_present {
            seq![
                StageAction::Transcode {
                    input: ArtifactKind::TempVideo,
                    output: if probe.audio_present {
                        ArtifactKind::TempWithoutAudio
                    } else {
                        ArtifactKind::FinalOutput
                    },
                },
                StageAction::DeleteFile { name: ArtifactKind::TempVideo },
            ]
        } else {
            Seq::<StageAction>::empty()
        })
    } else {
        Seq::<StageAction>::empty()
    }
}

/// Stage 4, direct only: when the raw video artifact exists at the resolved
/// path, stage it for the merge when an audio track was also recorded; with
/// no audio the rename targets the resolved path itself and does nothing.
pub open spec fn stage4_actions(s: RecordingSession, probe: ArtifactProbe) -> Seq<StageAction> {
    if s.backend == BackendKind::Direct && probe.video_present {
        seq![
            StageAction::Rename {
                from: ArtifactKind::FinalOutput,
                to: if probe.audio_present {
                    ArtifactKind::TempWithoutAudio
                } else {
                    ArtifactKind::FinalOutput
                },
            },
        ]
    } else {
        Seq::<StageAction>::empty()
    }
}

/// Stage 5, decided purely by what exists on disk: merge staged video with
/// the audio track, or convert a lone audio track, deleting the temporary
/// inputs afterwards.
pub open spec fn stage5_actions(probe: ArtifactProbe) -> Seq<StageAction> {
    if probe.video_present && probe.audio_present {
        seq![
            StageAction::Merge {
                video: ArtifactKind::TempWithoutAudio,
                audio: ArtifactKind::TempAudio,
                output: ArtifactKind::FinalOutput,
            },
            StageAction::DeleteFile { name: ArtifactKind::TempAudio },
            StageAction::DeleteFile { name: ArtifactKind::TempWithoutAudio },
        ]
    } else if probe.audio_present {
        seq![
            StageAction::ConvertAudio {
                input: ArtifactKind::TempAudio,
                output: ArtifactKind::FinalOutput,
            },
            StageAction::DeleteFile { name: ArtifactKind::TempAudio },
        ]
    } else {
        Seq::<StageAction>::empty()
    }
}

/// Stage 6: launch the post-record command, when one is configured.
pub open spec fn stage6_actions(s: RecordingSession) -> Seq<StageAction> {
    if !is_blank(s.post_command@) {
        seq![StageAction::LaunchShell]
    } else {
        Seq::<StageAction>::empty()
    }
}

/// The full ordered stop pipeline: six stage reports, the actions of each
/// stage after its report (the sixth report, `Finished`, closes the
/// sequence), then the hide signal.
pub open spec fn stop_actions(s: RecordingSession, probe: ArtifactProbe) -> Seq<StageAction> {
    seq![StageAction::Report { stage: 1 }] + stage1_actions(s) + seq![
        StageAction::Report { stage: 2 },
    ] + stage2_actions(s) + seq![StageAction::Report { stage: 3 }] + stage3_actions(s, probe)
        + seq![StageAction::Report { stage: 4 }] + stage4_actions(s, probe) + seq![
        StageAction::Report { stage: 5 },
    ] + stage5_actions(probe) + stage6_actions(s) + seq![
        StageAction::Report { stage: 6 },
        StageAction::HideProgress,
    ]
}

/// What `start` promises of the plan it returns, given the resolved path `rp`
/// and whether a compositor worker was still live (`worker_was_live`).
pub open spec fn start_plan_ok(
    plan: StartPlan,
    cfg: &RecordingConfig,
    region: Region,
    env: &Environment,
    rp: Seq<char>,
    worker_was_live: bool,
) -> bool {
    &&& (match plan.audio {
        Some(a) => cfg.record_audio && a.deep_view() == audio_capture_argv(
            cfg.audio_source@,
            rp,
        ),
        None => !cfg.record_audio,
    })
    &&& (match plan.video {
        Some(v) => cfg.record_video && (match v {
            VideoStart::Direct { delay_secs, args } => {
                &&& env.backend == BackendKind::Direct
                &&& delay_secs == cfg.delay_secs
                &&& args.deep_view() == direct_video_argv(
                    region,
                    cfg.frame_rate as nat,
                    cfg.draw_cursor,
                    cfg.follow_cursor,
                    env.display@,
                    rp,
                )
            },
            VideoStart::Compositor { signal_old_worker, request } => {
                &&& env.backend == BackendKind::Compositor
                &&& signal_old_worker == worker_was_live
                &&& request.x == region.x
                &&& request.y == region.y
                &&& request.width == region.width
                &&& request.height == region.height
                &&& request.file_template@ == temp_video_of(rp)
                &&& request.frame_rate == cfg.frame_rate
                &&& request.draw_cursor == cfg.draw_cursor
                &&& request.pipeline@ == compositor_pipeline()
            },
        }),
        None => !cfg.record_video,
    })
}

} // verus!
