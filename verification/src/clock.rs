//! The one place where the library reads the clock: a timestamp rendered as a
//! file-name stem.

use vstd::prelude::*;
use crate::text::has_no_space;

verus! {

/// Relies on `chrono::Utc::now` and `DateTime::format` with the pattern
/// `"%Y-%m-%d-%H-%M-%S"`: every field renders as decimal digits (a negative
/// year renders with a leading `-`) joined by `-`, so the rendering is never
/// empty and never holds a space. Nothing more is assumed of it: the value
/// depends on the moment of the call.
#[verifier::external_body]
pub(crate) fn timestamp_name() -> (r: String)
    ensures
        r@.len() > 0,
        has_no_space(r@),
{
    chrono::Utc::now().format("%Y-%m-%d-%H-%M-%S").to_string()
}

} // verus!
