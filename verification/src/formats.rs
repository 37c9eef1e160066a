//! The container formats the playback side accepts.

use vstd::prelude::*;

verus! {

use crate::text::chars_of;
use crate::text::lower_vec;
use crate::text::lowered;
use crate::text::vecs_equal;

/// Whether a format name, case-folded, is one of the supported formats.
pub open spec fn spec_format_supported(s: Seq<char>) -> bool {
    ||| lowered(s) == "wav"@
    ||| lowered(s) == "mp3"@
    ||| lowered(s) == "flac"@
    ||| lowered(s) == "ogg"@
    ||| lowered(s) == "aac"@
    ||| lowered(s) == "m4a"@
    ||| lowered(s) == "opus"@
    ||| lowered(s) == "wma"@
}

/// The list of supported container formats.
pub fn get_supported_formats() -> (v: Vec<String>)
    ensures
        v@.len() == 8,
        v@[0]@ == "wav"@,
        v@[1]@ == "mp3"@,
        v@[2]@ == "flac"@,
        v@[3]@ == "ogg"@,
        v@[4]@ == "aac"@,
        v@[5]@ == "m4a"@,
        v@[6]@ == "opus"@,
        v@[7]@ == "wma"@,
{
    let mut v: Vec<String> = Vec::new();
    v.push(String::from_str("wav"));
    v.push(String::from_str("mp3"));
    v.push(String::from_str("flac"));
    v.push(String::from_str("ogg"));
    v.push(String::from_str("aac"));
    v.push(String::from_str("m4a"));
    v.push(String::from_str("opus"));
    v.push(String::from_str("wma"));
    v
}

/// Whether the given format (in any case) is supported.
pub fn is_format_supported(format: String) -> (r: bool)
    ensures
        r == spec_format_supported(format@),
{
    let v = chars_of(format.as_str());
    let l = lower_vec(&v);
    vecs_equal(&l, &chars_of("wav")) || vecs_equal(&l, &chars_of("mp3")) || vecs_equal(
        &l,
        &chars_of("flac"),
    ) || vecs_equal(&l, &chars_of("ogg")) || vecs_equal(&l, &chars_of("aac")) || vecs_equal(
        &l,
        &chars_of("m4a"),
    ) || vecs_equal(&l, &chars_of("opus")) || vecs_equal(&l, &chars_of("wma"))
}

} // verus!
