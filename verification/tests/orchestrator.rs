//! End-to-end scenarios of the session orchestrator.

use recorder_core::config::{BackendKind, Environment, RecordingConfig, Region};
use recorder_core::errors::SessionError;
use recorder_core::session::{
    ArtifactKind, ArtifactProbe, CaptureHandle, RecordingSession, SessionState, StageAction,
    VideoStart, STAGE_TOTAL,
};

fn demo_config(video: bool, audio: bool) -> RecordingConfig {
    RecordingConfig {
        output_dir: "/tmp".to_string(),
        name: "demo".to_string(),
        extension: "mp4".to_string(),
        record_video: video,
        record_audio: audio,
        audio_source: "default.monitor".to_string(),
        draw_cursor: true,
        follow_cursor: false,
        frame_rate: 30,
        delay_secs: 0,
        post_command: "".to_string(),
    }
}

fn direct_env() -> Environment {
    Environment { backend: BackendKind::Direct, display: ":0".to_string() }
}

fn compositor_env() -> Environment {
    Environment { backend: BackendKind::Compositor, display: ":0".to_string() }
}

fn region() -> Region {
    Region { x: 0, y: 0, width: 800, height: 600 }
}

const NOTHING: ArtifactProbe = ArtifactProbe { video_present: false, audio_present: false };

#[test]
fn direct_video_only_start_spawns_grab_to_final_path() {
    let mut s = RecordingSession::new();
    let out = s.start(&demo_config(true, false), region(), &direct_env(), NOTHING, false, false);
    assert!(out.prior_stop.is_none());
    let plan = out.outcome.unwrap();
    assert!(plan.audio.is_none());
    match plan.video.unwrap() {
        VideoStart::Direct { delay_secs, args } => {
            assert_eq!(delay_secs, 0);
            assert_eq!(args.last().unwrap(), "-y");
            assert_eq!(args[args.len() - 2], "/tmp/demo.mp4");
        },
        _ => panic!("direct environment must start a direct grab"),
    }
    assert_eq!(s.resolved_path.as_deref(), Some("/tmp/demo.mp4"));
    assert_eq!(s.state, SessionState::Recording);
}

#[test]
fn direct_video_only_stop_renames_to_itself_and_keeps_one_file() {
    let mut s = RecordingSession::new();
    s.start(&demo_config(true, false), region(), &direct_env(), NOTHING, false, false)
        .outcome
        .unwrap();
    s.attach_processes(None, Some(CaptureHandle::DirectProcess(111)));
    let plan = s.stop(ArtifactProbe { video_present: true, audio_present: false });
    assert_eq!(
        plan,
        vec![
            StageAction::Report { stage: 1 },
            StageAction::SignalVideo { pid: 111 },
            StageAction::Report { stage: 2 },
            StageAction::Report { stage: 3 },
            StageAction::Report { stage: 4 },
            StageAction::Rename {
                from: ArtifactKind::FinalOutput,
                to: ArtifactKind::FinalOutput,
            },
            StageAction::Report { stage: 5 },
            StageAction::Report { stage: 6 },
            StageAction::HideProgress,
        ]
    );
    assert_eq!(s.finish_stop(true), Ok(()));
    assert_eq!(s.state, SessionState::Finished);
}

#[test]
fn direct_video_and_audio_stop_stages_merges_and_deletes_temps() {
    let mut s = RecordingSession::new();
    let plan = s
        .start(&demo_config(true, true), region(), &direct_env(), NOTHING, false, false)
        .outcome
        .unwrap();
    assert!(plan.audio.is_some());
    s.attach_processes(Some(222), Some(CaptureHandle::DirectProcess(111)));
    let stop = s.stop(ArtifactProbe { video_present: true, audio_present: true });
    assert_eq!(
        stop,
        vec![
            StageAction::Report { stage: 1 },
            StageAction::SignalVideo { pid: 111 },
            StageAction::Report { stage: 2 },
            StageAction::SignalAudio { pid: 222 },
            StageAction::Report { stage: 3 },
            StageAction::Report { stage: 4 },
            StageAction::Rename {
                from: ArtifactKind::FinalOutput,
                to: ArtifactKind::TempWithoutAudio,
            },
            StageAction::Report { stage: 5 },
            StageAction::Merge {
                video: ArtifactKind::TempWithoutAudio,
                audio: ArtifactKind::TempAudio,
                output: ArtifactKind::FinalOutput,
            },
            StageAction::DeleteFile { name: ArtifactKind::TempAudio },
            StageAction::DeleteFile { name: ArtifactKind::TempWithoutAudio },
            StageAction::Report { stage: 6 },
            StageAction::HideProgress,
        ]
    );
    assert_eq!(
        s.artifact_path(ArtifactKind::TempAudio).as_deref(),
        Some("/tmp/demo.mp4.temp.audio")
    );
    assert_eq!(
        s.artifact_path(ArtifactKind::TempWithoutAudio).as_deref(),
        Some("/tmp/demo.mp4.temp.without.audio.mp4")
    );
}

#[test]
fn audio_only_stop_converts_and_deletes_the_temp() {
    let mut cfg = demo_config(false, true);
    cfg.name = "voice".to_string();
    cfg.extension = "ogg".to_string();
    let mut s = RecordingSession::new();
    let plan = s.start(&cfg, region(), &direct_env(), NOTHING, false, false).outcome.unwrap();
    assert!(plan.video.is_none());
    let audio_args = plan.audio.unwrap();
    assert_eq!(audio_args[6], "/tmp/voice.ogg.temp.audio");
    s.attach_processes(Some(333), None);
    let stop = s.stop(ArtifactProbe { video_present: false, audio_present: true });
    assert_eq!(
        stop,
        vec![
            StageAction::Report { stage: 1 },
            StageAction::Report { stage: 2 },
            StageAction::SignalAudio { pid: 333 },
            StageAction::Report { stage: 3 },
            StageAction::Report { stage: 4 },
            StageAction::Report { stage: 5 },
            StageAction::ConvertAudio {
                input: ArtifactKind::TempAudio,
                output: ArtifactKind::FinalOutput,
            },
            StageAction::DeleteFile { name: ArtifactKind::TempAudio },
            StageAction::Report { stage: 6 },
            StageAction::HideProgress,
        ]
    );
    assert_eq!(s.resolved_path.as_deref(), Some("/tmp/voice.ogg"));
}

#[test]
fn compositor_video_only_stop_transcodes_the_native_capture() {
    let mut s = RecordingSession::new();
    let plan = s
        .start(&demo_config(true, false), region(), &compositor_env(), NOTHING, false, false)
        .outcome
        .unwrap();
    match plan.video.unwrap() {
        VideoStart::Compositor { signal_old_worker, request } => {
            assert!(!signal_old_worker);
            assert_eq!(request.file_template, "/tmp/demo.mp4.temp");
            assert_eq!(request.frame_rate, 30);
            assert!(request.draw_cursor);
            assert_eq!((request.x, request.y, request.width, request.height), (0, 0, 800, 600));
        },
        _ => panic!("compositor environment must start a compositor capture"),
    }
    s.attach_processes(None, Some(CaptureHandle::CompositorWorker));
    let stop = s.stop(ArtifactProbe { video_present: true, audio_present: false });
    assert_eq!(
        stop,
        vec![
            StageAction::Report { stage: 1 },
            StageAction::Report { stage: 2 },
            StageAction::Report { stage: 3 },
            StageAction::StopScreencastIpc,
            StageAction::SignalWorkerStop,
            StageAction::Transcode {
                input: ArtifactKind::TempVideo,
                output: ArtifactKind::FinalOutput,
            },
            StageAction::DeleteFile { name: ArtifactKind::TempVideo },
            StageAction::Report { stage: 4 },
            StageAction::Report { stage: 5 },
            StageAction::Report { stage: 6 },
            StageAction::HideProgress,
        ]
    );
}

#[test]
fn declined_overwrite_cancels_with_no_capture_planned() {
    let mut s = RecordingSession::new();
    let out = s.start(&demo_config(true, true), region(), &direct_env(), NOTHING, true, false);
    assert!(out.prior_stop.is_none());
    assert_eq!(out.outcome.unwrap_err(), SessionError::ConflictDeclined);
    assert!(s.video_handle.is_none());
    assert!(s.audio_process_id.is_none());
    assert_eq!(s.state, SessionState::Idle);
    // the resolved path of the session is untouched by a cancelled start
    assert!(s.resolved_path.is_none());
}

#[test]
fn conflict_dialog_only_matters_when_the_file_exists() {
    let mut s = RecordingSession::new();
    // no file at the resolved path: a declined dialog is never consulted
    let out = s.start(&demo_config(true, false), region(), &direct_env(), NOTHING, false, false);
    assert!(out.outcome.is_ok());
    // file present and overwrite accepted: the start proceeds
    let mut t = RecordingSession::new();
    let out2 = t.start(&demo_config(true, false), region(), &direct_env(), NOTHING, true, true);
    assert!(out2.outcome.is_ok());
}

#[test]
fn empty_output_dir_is_refused() {
    let mut cfg = demo_config(true, false);
    cfg.output_dir = "".to_string();
    let mut s = RecordingSession::new();
    let out = s.start(&cfg, region(), &direct_env(), NOTHING, false, false);
    assert_eq!(out.outcome.unwrap_err(), SessionError::ConfigError);
}

#[test]
fn stop_with_nothing_recording_still_reports_all_six_stages() {
    let mut s = RecordingSession::new();
    let plan = s.stop(NOTHING);
    assert_eq!(
        plan,
        vec![
            StageAction::Report { stage: 1 },
            StageAction::Report { stage: 2 },
            StageAction::Report { stage: 3 },
            StageAction::Report { stage: 4 },
            StageAction::Report { stage: 5 },
            StageAction::Report { stage: 6 },
            StageAction::HideProgress,
        ]
    );
    let reports: Vec<u8> = plan
        .iter()
        .filter_map(|a| match a {
            StageAction::Report { stage } => Some(*stage),
            _ => None,
        })
        .collect();
    assert_eq!(reports, vec![1, 2, 3, 4, 5, 6]);
    assert_eq!(STAGE_TOTAL, 6);
    assert_eq!(s.finish_stop(true), Ok(()));
}

#[test]
fn starting_again_fully_stops_the_previous_session() {
    let mut s = RecordingSession::new();
    s.start(&demo_config(true, true), region(), &direct_env(), NOTHING, false, false)
        .outcome
        .unwrap();
    s.attach_processes(Some(222), Some(CaptureHandle::DirectProcess(111)));
    assert!(s.is_active());

    let probe = ArtifactProbe { video_present: true, audio_present: true };
    let out = s.start(&demo_config(true, false), region(), &direct_env(), probe, false, false);
    let prior = out.prior_stop.expect("an active session must be stopped first");
    assert!(prior.contains(&StageAction::SignalVideo { pid: 111 }));
    assert!(prior.contains(&StageAction::SignalAudio { pid: 222 }));
    // no handle of the old session survives: no two simultaneous captures
    assert!(!s.is_active());
    assert!(out.outcome.is_ok());
}

#[test]
fn post_command_is_launched_only_when_not_blank() {
    let mut cfg = demo_config(true, false);
    cfg.post_command = "notify-send done".to_string();
    let mut s = RecordingSession::new();
    s.start(&cfg, region(), &direct_env(), NOTHING, false, false).outcome.unwrap();
    let plan = s.stop(NOTHING);
    assert!(plan.contains(&StageAction::LaunchShell));

    let mut cfg2 = demo_config(true, false);
    cfg2.post_command = "   ".to_string();
    let mut t = RecordingSession::new();
    t.start(&cfg2, region(), &direct_env(), NOTHING, false, false).outcome.unwrap();
    let plan2 = t.stop(NOTHING);
    assert!(!plan2.contains(&StageAction::LaunchShell));
}

#[test]
fn encoder_failure_fails_the_session_but_start_recovers() {
    let mut s = RecordingSession::new();
    s.start(&demo_config(true, false), region(), &direct_env(), NOTHING, false, false)
        .outcome
        .unwrap();
    s.attach_processes(None, Some(CaptureHandle::DirectProcess(7)));
    s.stop(ArtifactProbe { video_present: true, audio_present: false });
    assert_eq!(s.finish_stop(false), Err(SessionError::EncoderFailure));
    assert_eq!(s.state, SessionState::Failed);
}

#[test]
fn spawn_failure_clears_the_session() {
    let mut s = RecordingSession::new();
    s.start(&demo_config(true, true), region(), &direct_env(), NOTHING, false, false)
        .outcome
        .unwrap();
    let e = s.spawn_failed();
    assert_eq!(e, SessionError::ProcessSpawnError);
    assert_eq!(s.state, SessionState::Failed);
    assert!(!s.is_active());
}

#[test]
fn playback_uses_the_resolved_path() {
    let mut s = RecordingSession::new();
    assert!(s.play_record(false).is_none());
    s.start(&demo_config(true, false), region(), &direct_env(), NOTHING, false, false)
        .outcome
        .unwrap();
    assert_eq!(
        s.play_record(false).unwrap(),
        vec!["xdg-open", "/tmp/demo.mp4"]
    );
    assert_eq!(
        s.play_record(true).unwrap(),
        vec!["snapctl", "user-open", "/tmp/demo.mp4"]
    );
}

#[test]
fn timestamp_name_reaches_the_resolved_path() {
    let mut cfg = demo_config(true, false);
    cfg.name = "".to_string();
    let mut s = RecordingSession::new();
    s.start(&cfg, region(), &direct_env(), NOTHING, false, false).outcome.unwrap();
    let p = s.resolved_path.clone().unwrap();
    assert!(p.starts_with("/tmp/"));
    assert!(p.ends_with(".mp4"));
    assert!(p.len() > "/tmp/.mp4".len());
    assert!(!p.contains(' '));
}

#[test]
fn compositor_video_and_audio_stop_stages_then_merges() {
    let mut s = RecordingSession::new();
    s.start(&demo_config(true, true), region(), &compositor_env(), NOTHING, false, false)
        .outcome
        .unwrap();
    s.attach_processes(Some(444), Some(CaptureHandle::CompositorWorker));
    let stop = s.stop(ArtifactProbe { video_present: true, audio_present: true });
    assert_eq!(
        stop,
        vec![
            StageAction::Report { stage: 1 },
            StageAction::Report { stage: 2 },
            StageAction::SignalAudio { pid: 444 },
            StageAction::Report { stage: 3 },
            StageAction::StopScreencastIpc,
            StageAction::SignalWorkerStop,
            StageAction::Transcode {
                input: ArtifactKind::TempVideo,
                output: ArtifactKind::TempWithoutAudio,
            },
            StageAction::DeleteFile { name: ArtifactKind::TempVideo },
            StageAction::Report { stage: 4 },
            StageAction::Report { stage: 5 },
            StageAction::Merge {
                video: ArtifactKind::TempWithoutAudio,
                audio: ArtifactKind::TempAudio,
                output: ArtifactKind::FinalOutput,
            },
            StageAction::DeleteFile { name: ArtifactKind::TempAudio },
            StageAction::DeleteFile { name: ArtifactKind::TempWithoutAudio },
            StageAction::Report { stage: 6 },
            StageAction::HideProgress,
        ]
    );
}
