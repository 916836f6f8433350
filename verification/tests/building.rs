//! Text utilities, path resolution and command-line builders on concrete
//! values.

use recorder_core::commands::{
    audio_capture_args, audio_convert_args, compositor_pipeline_text, compositor_transcode_args,
    direct_video_args, merge_args, playback_command,
};
use recorder_core::config::Region;
use recorder_core::errors::SessionError;
use recorder_core::paths::{
    resolve_output_path, temp_audio_path, temp_video_path, temp_without_audio_path,
};
use recorder_core::session::stage_label;
use recorder_core::text::{is_blank_str, trim_str, u64_string};

#[test]
fn u64_string_renders_decimal() {
    assert_eq!(u64_string(0), "0");
    assert_eq!(u64_string(7), "7");
    assert_eq!(u64_string(10), "10");
    assert_eq!(u64_string(800), "800");
    assert_eq!(u64_string(65535), "65535");
    assert_eq!(u64_string(18446744073709551615), "18446744073709551615");
}

#[test]
fn trim_removes_outer_whitespace_only() {
    assert_eq!(trim_str("  demo \n"), "demo");
    assert_eq!(trim_str("demo"), "demo");
    assert_eq!(trim_str("a b"), "a b");
    assert_eq!(trim_str("\t \r\n"), "");
    assert_eq!(trim_str(""), "");
    assert!(is_blank_str("   "));
    assert!(is_blank_str(""));
    assert!(!is_blank_str(" x "));
}

#[test]
fn stage_labels_are_the_six_documented_ones() {
    assert_eq!(stage_label(1), "Stop Recording Video");
    assert_eq!(stage_label(2), "Stop Recording Audio");
    assert_eq!(stage_label(3), "Finalize Compositor Capture");
    assert_eq!(stage_label(4), "Stage Video Track");
    assert_eq!(stage_label(5), "Merge And Convert");
    assert_eq!(stage_label(6), "Finished");
    assert_eq!(stage_label(0), "");
    assert_eq!(stage_label(7), "");
}

#[test]
fn resolve_uses_trimmed_name_verbatim() {
    let p = resolve_output_path("/tmp", " demo ", "mp4").unwrap();
    assert_eq!(p, "/tmp/demo.mp4");
    let q = resolve_output_path("/home/user/Videos", "voice", "ogg").unwrap();
    assert_eq!(q, "/home/user/Videos/voice.ogg");
}

#[test]
fn resolve_with_blank_name_derives_a_spaceless_stem() {
    let p = resolve_output_path("/tmp", "  ", "mp4").unwrap();
    assert!(p.starts_with("/tmp/"));
    assert!(p.ends_with(".mp4"));
    // the derived stem is not empty and holds no space
    assert!(p.len() > "/tmp/.mp4".len());
    assert!(!p.contains(' '));
}

#[test]
fn resolve_without_output_dir_is_a_config_error() {
    assert_eq!(
        resolve_output_path("", "demo", "mp4"),
        Err(SessionError::ConfigError)
    );
}

#[test]
fn temp_names_derive_from_the_resolved_path() {
    assert_eq!(temp_video_path("/tmp/demo.mp4"), "/tmp/demo.mp4.temp");
    assert_eq!(temp_audio_path("/tmp/demo.mp4"), "/tmp/demo.mp4.temp.audio");
    assert_eq!(
        temp_without_audio_path("/tmp/demo.mp4", "mp4"),
        "/tmp/demo.mp4.temp.without.audio.mp4"
    );
}

#[test]
fn audio_capture_arguments() {
    let args = audio_capture_args("alsa_output.monitor", "/tmp/demo.mp4");
    assert_eq!(
        args,
        vec![
            "-f",
            "pulse",
            "-i",
            "alsa_output.monitor",
            "-f",
            "ogg",
            "/tmp/demo.mp4.temp.audio",
            "-y",
        ]
    );
}

#[test]
fn direct_video_arguments_without_follow() {
    let region = Region { x: 0, y: 0, width: 800, height: 600 };
    let args = direct_video_args(region, 30, true, false, ":0", "/tmp/demo.mp4");
    assert_eq!(
        args,
        vec![
            "-video_size",
            "800x600",
            "-framerate",
            "30",
            "-f",
            "x11grab",
            "-i",
            ":0+0,0",
            "-draw_mouse",
            "1",
            "-crf",
            "1",
            "/tmp/demo.mp4",
            "-y",
        ]
    );
}

#[test]
fn direct_video_arguments_with_follow_and_hidden_cursor() {
    let region = Region { x: 10, y: 20, width: 1280, height: 720 };
    let args = direct_video_args(region, 60, false, true, ":1", "/tmp/demo.mkv");
    assert_eq!(
        args,
        vec![
            "-video_size",
            "1280x720",
            "-framerate",
            "60",
            "-f",
            "x11grab",
            "-i",
            ":1+10,20",
            "-draw_mouse",
            "0",
            "-follow_mouse",
            "centered",
            "-crf",
            "1",
            "/tmp/demo.mkv",
            "-y",
        ]
    );
}

#[test]
fn compositor_transcode_targets_staged_name_only_with_audio() {
    let with_audio = compositor_transcode_args("/tmp/demo.mp4", "mp4", true);
    assert_eq!(
        with_audio,
        vec![
            "-f",
            "webm",
            "-i",
            "/tmp/demo.mp4.temp",
            "/tmp/demo.mp4.temp.without.audio.mp4",
            "-y",
        ]
    );
    let without_audio = compositor_transcode_args("/tmp/demo.mp4", "mp4", false);
    assert_eq!(
        without_audio,
        vec!["-f", "webm", "-i", "/tmp/demo.mp4.temp", "/tmp/demo.mp4", "-y"]
    );
}

#[test]
fn merge_copies_video_and_transcodes_audio() {
    let args = merge_args("/tmp/demo.mp4", "mp4");
    assert_eq!(
        args,
        vec![
            "-i",
            "/tmp/demo.mp4.temp.without.audio.mp4",
            "-i",
            "/tmp/demo.mp4.temp.audio",
            "-c:v",
            "copy",
            "-c:a",
            "aac",
            "/tmp/demo.mp4",
            "-y",
        ]
    );
}

#[test]
fn audio_only_conversion_arguments() {
    let args = audio_convert_args("/tmp/voice.ogg");
    assert_eq!(
        args,
        vec!["-f", "ogg", "-i", "/tmp/voice.ogg.temp.audio", "/tmp/voice.ogg"]
    );
}

#[test]
fn playback_opener_depends_on_packaging() {
    assert_eq!(
        playback_command("/tmp/demo.mp4", true),
        vec!["snapctl", "user-open", "/tmp/demo.mp4"]
    );
    assert_eq!(
        playback_command("/tmp/demo.mp4", false),
        vec!["xdg-open", "/tmp/demo.mp4"]
    );
}

#[test]
fn compositor_pipeline_names_the_native_container() {
    let p = compositor_pipeline_text();
    assert_eq!(
        p,
        "vp8enc min_quantizer=10 max_quantizer=50 cq_level=13 cpu-used=5 deadline=1000000 threads=%T ! queue ! webmmux"
    );
}

#[test]
fn every_error_has_a_message() {
    assert_eq!(
        SessionError::ConfigError.describe(),
        "no usable output location"
    );
    assert_eq!(
        SessionError::ConflictDeclined.describe(),
        "recording cancelled: the output file was not overwritten"
    );
    assert_eq!(
        SessionError::ProcessSpawnError.describe(),
        "could not spawn a capture process"
    );
    assert_eq!(
        SessionError::ProcessSignalError.describe(),
        "could not signal a capture process"
    );
    assert_eq!(
        SessionError::EncoderFailure.describe(),
        "an encoder invocation failed"
    );
    assert_eq!(
        SessionError::IpcError.describe(),
        "the compositor capture service failed"
    );
}
