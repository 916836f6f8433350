//! Resolution of the output path and the temporary artifact namespace
//! derived from it.
//!
//! A session writes at most four files. The final artifact lives at the
//! resolved path; three temporary names are derived from it and exist only
//! while a stop is in progress:
//!
//! - `<resolved>.temp` — the compositor's native-container capture,
//! - `<resolved>.temp.audio` — the raw recorded audio track,
//! - `<resolved>.temp.without.audio.<ext>` — the video track staged for the
//!   merge, freeing the resolved name for the merge output.

use vstd::prelude::*;
use crate::errors::SessionError;
use crate::text::{trimmed, has_no_space, trim_str};
use crate::clock::timestamp_name;

verus! {

/// `dir/stem.ext`.
pub open spec fn joined_path(dir: Seq<char>, stem: Seq<char>, ext: Seq<char>) -> Seq<char> {
    dir + "/"@ + stem + "."@ + ext
}

/// The compositor's raw capture name: `<resolved>.temp`.
pub open spec fn temp_video_of(resolved: Seq<char>) -> Seq<char> {
    resolved + ".temp"@
}

/// The raw audio track name: `<resolved>.temp.audio`.
pub open spec fn temp_audio_of(resolved: Seq<char>) -> Seq<char> {
    resolved + ".temp.audio"@
}

/// The staged video track name: `<resolved>.temp.without.audio.<ext>`.
pub open spec fn temp_without_audio_of(resolved: Seq<char>, ext: Seq<char>) -> Seq<char> {
    resolved + ".temp.without.audio."@ + ext
}

/// What `resolve_output_path` promises of a successfully resolved path `p`:
/// a name that is not blank is used verbatim after trimming; a blank name
/// falls back to some non-empty stem with no embedded spaces (in practice a
/// timestamp, so that names sort by recording time).
pub open spec fn resolved_path_ok(
    dir: Seq<char>,
    name: Seq<char>,
    ext: Seq<char>,
    p: Seq<char>,
) -> bool {
    if trimmed(name).len() > 0 {
        p == joined_path(dir, trimmed(name), ext)
    } else {
        exists|stem: Seq<char>|
            stem.len() > 0 && has_no_space(stem) && p == #[trigger] joined_path(dir, stem, ext)
    }
}

fn joined(dir: &str, stem: &str, ext: &str) -> (r: String)
    ensures
        r@ == joined_path(dir@, stem@, ext@),
{
    let mut r = String::from_str(dir);
    r.append("/");
    r.append(stem);
    r.append(".");
    r.append(ext);
    r
}

/// Computes `dir/(name-or-timestamp).ext`, the one place a session will write
/// its final artifact. An empty output directory is the one configuration
/// that cannot be used.
pub fn resolve_output_path(dir: &str, name: &str, ext: &str) -> (r: Result<String, SessionError>)
    ensures
        dir@.len() == 0 ==> r == Result::<String, SessionError>::Err(SessionError::ConfigError),
        dir@.len() > 0 ==> r is Ok && resolved_path_ok(dir@, name@, ext@, r->Ok_0@),
{
    if dir.unicode_len() == 0 {
        return Err(SessionError::ConfigError);
    }
    let stem = trim_str(name);
    if stem.unicode_len() > 0 {
        Ok(joined(dir, stem, ext))
    } else {
        let ts = timestamp_name();
        let p = joined(dir, ts.as_str(), ext);
        proof {
            assert(p@ == joined_path(dir@, ts@, ext@));
        }
        Ok(p)
    }
}

/// Builds `<resolved>.temp`.
pub fn temp_video_path(resolved: &str) -> (r: String)
    ensures
        r@ == temp_video_of(resolved@),
{
    let mut r = String::from_str(resolved);
    r.append(".temp");
    r
}

/// Builds `<resolved>.temp.audio`.
pub fn temp_audio_path(resolved: &str) -> (r: String)
    ensures
        r@ == temp_audio_of(resolved@),
{
    let mut r = String::from_str(resolved);
    r.append(".temp.audio");
    r
}

/// Builds `<resolved>.temp.without.audio.<ext>`.
pub fn temp_without_audio_path(resolved: &str, ext: &str) -> (r: String)
    ensures
        r@ == temp_without_audio_of(resolved@, ext@),
{
    let mut r = String::from_str(resolved);
    r.append(".temp.without.audio.");
    r.append(ext);
    r
}

} // verus!
