//! Single frames taken from a video on request, cached by whole second.

use vstd::prelude::*;
use vstd::string::*;

use crate::text::{lemma_numbered_names_distinct, push_signed, push_string, signed_decimal, string_views};

verus! {

/// `"{key}.jpg"`, the cached frame of second `key`.
pub open spec fn cache_file_name(key: i64) -> Seq<char> {
    signed_decimal(key as int) + ".jpg"@
}

/// The cache file of second `key`.
pub fn cache_name(key: i64) -> (name: String)
    ensures
        name@ == cache_file_name(key),
{
    let mut name = String::new();
    push_signed(&mut name, key);
    name.append(".jpg");
    name
}

/// The ffmpeg arguments that write the frame at `timestamp` (already
/// formatted) of `input` as a JPEG to standard output.
pub open spec fn frame_args_spec(timestamp: Seq<char>, input: Seq<char>) -> Seq<Seq<char>> {
    seq![
        "-ss"@,
        timestamp,
        "-i"@,
        input,
        "-vframes"@,
        "1"@,
        "-f"@,
        "image2"@,
        "-vcodec"@,
        "mjpeg"@,
        "-q:v"@,
        "2"@,
        "pipe:1"@,
    ]
}

/// The ffmpeg arguments for one frame.
pub fn frame_args(timestamp: &str, input: &str) -> (args: Vec<String>)
    ensures
        string_views(args@) == frame_args_spec(timestamp@, input@),
{
    let mut args: Vec<String> = Vec::new();
    push_string(&mut args, "-ss");
    push_string(&mut args, timestamp);
    push_string(&mut args, "-i");
    push_string(&mut args, input);
    push_string(&mut args, "-vframes");
    push_string(&mut args, "1");
    push_string(&mut args, "-f");
    push_string(&mut args, "image2");
    push_string(&mut args, "-vcodec");
    push_string(&mut args, "mjpeg");
    push_string(&mut args, "-q:v");
    push_string(&mut args, "2");
    push_string(&mut args, "pipe:1");
    assert(string_views(args@) =~= frame_args_spec(timestamp@, input@));
    args
}

/// A frame is served only when ffmpeg succeeded and wrote something.
pub fn frame_usable(succeeded: bool, output_len: usize) -> (usable: bool)
    ensures
        usable == (succeeded && output_len > 0),
{
    succeeded && output_len > 0
}


/// Frames of distinct seconds are cached in distinct files.
pub proof fn lemma_cache_names_distinct(a: i64, b: i64)
    requires
        a != b,
    ensures
        cache_file_name(a) != cache_file_name(b),
{
    lemma_numbered_names_distinct(a as int, b as int, ".jpg"@);
}


/// A frame request seeks to the timestamp before opening the input (fast
/// seeking), takes one frame and writes it to standard output as a JPEG of
/// quality 2.
pub proof fn lemma_frame_args_shape(timestamp: Seq<char>, input: Seq<char>)
    ensures
        ({
            let a = frame_args_spec(timestamp, input);
            &&& a.len() == 13
            &&& a[0] == "-ss"@ && a[1] == timestamp
            &&& a[2] == "-i"@ && a[3] == input
            &&& a[4] == "-vframes"@ && a[5] == "1"@
            &&& a[6] == "-f"@ && a[7] == "image2"@
            &&& a[8] == "-vcodec"@ && a[9] == "mjpeg"@
            &&& a[10] == "-q:v"@ && a[11] == "2"@
            &&& a[12] == "pipe:1"@
        }),
{
}

}
