//! Encoder and opener command lines.
//!
//! Each builder returns the argument vector (without the program name) that
//! the embedding program hands to the encoder or opener process; the spec
//! functions beside them pin every argument down.

use vstd::prelude::*;
use crate::config::Region;
use crate::paths::{temp_video_of, temp_audio_of, temp_without_audio_of};
use crate::paths::{temp_video_path, temp_audio_path, temp_without_audio_path};
use crate::text::{dec_of, u64_string};

verus! {

/// Arguments of the audio capture encoder: read the given input source, write
/// the raw track to `<resolved>.temp.audio` in the intermediate container,
/// overwriting a stale one.
pub open spec fn audio_capture_argv(source: Seq<char>, resolved: Seq<char>) -> Seq<Seq<char>> {
    seq![
        "-f"@,
        "pulse"@,
        "-i"@,
        source,
        "-f"@,
        "ogg"@,
        temp_audio_of(resolved),
        "-y"@,
    ]
}

/// Builds `audio_capture_argv`.
pub fn audio_capture_args(source: &str, resolved: &str) -> (r: Vec<String>)
    ensures
        r.deep_view() == audio_capture_argv(source@, resolved@),
{
    let mut r: Vec<String> = Vec::new();
    r.push(String::from_str("-f"));
    r.push(String::from_str("pulse"));
    r.push(String::from_str("-i"));
    r.push(String::from_str(source));
    r.push(String::from_str("-f"));
    r.push(String::from_str("ogg"));
    r.push(temp_audio_path(resolved));
    r.push(String::from_str("-y"));
    proof {
        assert(r.deep_view() =~~= audio_capture_argv(source@, resolved@));
    }
    r
}

/// `WIDTHxHEIGHT`, both in decimal.
pub open spec fn video_size_text(width: nat, height: nat) -> Seq<char> {
    dec_of(width) + "x"@ + dec_of(height)
}

/// `DISPLAY+x,y`: the grab origin on the given display target.
pub open spec fn grab_input_text(display: Seq<char>, x: nat, y: nat) -> Seq<char> {
    display + "+"@ + dec_of(x) + ","@ + dec_of(y)
}

/// Arguments of the direct frame-grab encoder: capture the region at the
/// given frame rate from the display target, draw (`1`) or hide (`0`) the
/// cursor, optionally follow it, and write straight to the resolved path,
/// overwriting an existing file.
pub open spec fn direct_video_argv(
    region: Region,
    frame_rate: nat,
    draw_cursor: bool,
    follow_cursor: bool,
    display: Seq<char>,
    resolved: Seq<char>,
) -> Seq<Seq<char>> {
    seq![
        "-video_size"@,
        video_size_text(region.width as nat, region.height as nat),
        "-framerate"@,
        dec_of(frame_rate),
        "-f"@,
        "x11grab"@,
        "-i"@,
        grab_input_text(display, region.x as nat, region.y as nat),
        "-draw_mouse"@,
        if draw_cursor { "1"@ } else { "0"@ },
    ] + (if follow_cursor {
        seq!["-follow_mouse"@, "centered"@]
    } else {
        Seq::<Seq<char>>::empty()
    }) + seq!["-crf"@, "1"@, resolved, "-y"@]
}

fn video_size_string(width: u16, height: u16) -> (r: String)
    ensures
        r@ == video_size_text(width as nat, height as nat),
{
    let mut r = u64_string(width as u64);
    r.append("x");
    let h = u64_string(height as u64);
    r.append(h.as_str());
    r
}

fn grab_input_string(display: &str, x: u16, y: u16) -> (r: String)
    ensures
        r@ == grab_input_text(display@, x as nat, y as nat),
{
    let mut r = String::from_str(display);
    r.append("+");
    let xs = u64_string(x as u64);
    r.append(xs.as_str());
    r.append(",");
    let ys = u64_string(y as u64);
    r.append(ys.as_str());
    r
}

/// Builds `direct_video_argv`.
pub fn direct_video_args(
    region: Region,
    frame_rate: u64,
    draw_cursor: bool,
    follow_cursor: bool,
    display: &str,
    resolved: &str,
) -> (r: Vec<String>)
    ensures
        r.deep_view() == direct_video_argv(
            region,
            frame_rate as nat,
            draw_cursor,
            follow_cursor,
            display@,
            resolved@,
        ),
{
    let mut r: Vec<String> = Vec::new();
    r.push(String::from_str("-video_size"));
    r.push(video_size_string(region.width, region.height));
    r.push(String::from_str("-framerate"));
    r.push(u64_string(frame_rate));
    r.push(String::from_str("-f"));
    r.push(String::from_str("x11grab"));
    r.push(String::from_str("-i"));
    r.push(grab_input_string(display, region.x, region.y));
    r.push(String::from_str("-draw_mouse"));
    if draw_cursor {
        r.push(String::from_str("1"));
    } else {
        r.push(String::from_str("0"));
    }
    if follow_cursor {
        r.push(String::from_str("-follow_mouse"));
        r.push(String::from_str("centered"));
    }
    r.push(String::from_str("-crf"));
    r.push(String::from_str("1"));
    r.push(String::from_str(resolved));
    r.push(String::from_str("-y"));
    proof {
        assert(r.deep_view() =~~= direct_video_argv(
            region,
            frame_rate as nat,
            draw_cursor,
            follow_cursor,
            display@,
            resolved@,
        ));
    }
    r
}

/// Arguments of the compositor transcode: read the native-container capture
/// at `<resolved>.temp` and write it to the staged name when an audio track
/// was also recorded, else straight to the resolved path.
pub open spec fn compositor_transcode_argv(
    resolved: Seq<char>,
    ext: Seq<char>,
    audio_present: bool,
) -> Seq<Seq<char>> {
    seq![
        "-f"@,
        "webm"@,
        "-i"@,
        temp_video_of(resolved),
        if audio_present {
            temp_without_audio_of(resolved, ext)
        } else {
            resolved
        },
        "-y"@,
    ]
}

/// Builds `compositor_transcode_argv`.
pub fn compositor_transcode_args(resolved: &str, ext: &str, audio_present: bool) -> (r: Vec<
    String,
>)
    ensures
        r.deep_view() == compositor_transcode_argv(resolved@, ext@, audio_present),
{
    let mut r: Vec<String> = Vec::new();
    r.push(String::from_str("-f"));
    r.push(String::from_str("webm"));
    r.push(String::from_str("-i"));
    r.push(temp_video_path(resolved));
    if audio_present {
        r.push(temp_without_audio_path(resolved, ext));
    } else {
        r.push(String::from_str(resolved));
    }
    r.push(String::from_str("-y"));
    proof {
        assert(r.deep_view() =~~= compositor_transcode_argv(resolved@, ext@, audio_present));
    }
    r
}

/// Arguments of the merge encoder: copy the staged video stream unmodified,
/// transcode the raw audio track to a standard lossy codec, and write the
/// merged file to the resolved path, overwriting the staged name's source.
pub open spec fn merge_argv(resolved: Seq<char>, ext: Seq<char>) -> Seq<Seq<char>> {
    seq![
        "-i"@,
        temp_without_audio_of(resolved, ext),
        "-i"@,
        temp_audio_of(resolved),
        "-c:v"@,
        "copy"@,
        "-c:a"@,
        "aac"@,
        resolved,
        "-y"@,
    ]
}

/// Builds `merge_argv`.
pub fn merge_args(resolved: &str, ext: &str) -> (r: Vec<String>)
    ensures
        r.deep_view() == merge_argv(resolved@, ext@),
{
    let mut r: Vec<String> = Vec::new();
    r.push(String::from_str("-i"));
    r.push(temp_without_audio_path(resolved, ext));
    r.push(String::from_str("-i"));
    r.push(temp_audio_path(resolved));
    r.push(String::from_str("-c:v"));
    r.push(String::from_str("copy"));
    r.push(String::from_str("-c:a"));
    r.push(String::from_str("aac"));
    r.push(String::from_str(resolved));
    r.push(String::from_str("-y"));
    proof {
        assert(r.deep_view() =~~= merge_argv(resolved@, ext@));
    }
    r
}

/// Arguments of the audio-only conversion: read the raw audio track in the
/// intermediate container and write it to the resolved path in the
/// user-chosen container.
pub open spec fn audio_convert_argv(resolved: Seq<char>) -> Seq<Seq<char>> {
    seq!["-f"@, "ogg"@, "-i"@, temp_audio_of(resolved), resolved]
}

/// Builds `audio_convert_argv`.
pub fn audio_convert_args(resolved: &str) -> (r: Vec<String>)
    ensures
        r.deep_view() == audio_convert_argv(resolved@),
{
    let mut r: Vec<String> = Vec::new();
    r.push(String::from_str("-f"));
    r.push(String::from_str("ogg"));
    r.push(String::from_str("-i"));
    r.push(temp_audio_path(resolved));
    r.push(String::from_str(resolved));
    proof {
        assert(r.deep_view() =~~= audio_convert_argv(resolved@));
    }
    r
}

/// The full opener command for the finished artifact: the sandboxed opener
/// inside a sandboxed package, the desktop default opener otherwise.
pub open spec fn playback_argv(path: Seq<char>, sandboxed: bool) -> Seq<Seq<char>> {
    if sandboxed {
        seq!["snapctl"@, "user-open"@, path]
    } else {
        seq!["xdg-open"@, path]
    }
}

/// Builds `playback_argv`.
pub fn playback_command(path: &str, sandboxed: bool) -> (r: Vec<String>)
    ensures
        r.deep_view() == playback_argv(path@, sandboxed),
{
    let mut r: Vec<String> = Vec::new();
    if sandboxed {
        r.push(String::from_str("snapctl"));
        r.push(String::from_str("user-open"));
    } else {
        r.push(String::from_str("xdg-open"));
    }
    r.push(String::from_str(path));
    proof {
        assert(r.deep_view() =~~= playback_argv(path@, sandboxed));
    }
    r
}

/// The compositor's encoder pipeline description; the capture service
/// resolves the thread-count placeholder `%T` itself.
pub open spec fn compositor_pipeline() -> Seq<char> {
    "vp8enc min_quantizer=10 max_quantizer=50 cq_level=13 cpu-used=5 deadline=1000000 threads=%T ! queue ! webmmux"@
}

/// Builds `compositor_pipeline`.
pub fn compositor_pipeline_text() -> (r: String)
    ensures
        r@ == compositor_pipeline(),
{
    String::from_str(
        "vp8enc min_quantizer=10 max_quantizer=50 cq_level=13 cpu-used=5 deadline=1000000 threads=%T ! queue ! webmmux",
    )
}

} // verus!
