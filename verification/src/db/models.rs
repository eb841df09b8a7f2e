//! The media catalogue's record types and the classification of files by extension.

use vstd::prelude::*;
use vstd::string::*;
use vstd::utf8::is_ascii_chars;

use crate::text::str_eq;

verus! {

/// The kind of a catalogued file.
#[derive(Debug, Clone, Copy, PartialEq, Eq, Structural)]
pub enum MediaType {
    Video,
    Image,
    Unknown,
}

/// A row of the media catalogue.
#[derive(Debug, Clone)]
pub struct MediaFile {
    pub id: i64,
    pub path: String,
    pub media_type: MediaType,
    pub size_bytes: i64,
    pub thumbnail_path: Option<String>,
    pub vtt_path: Option<String>,
    /// One of "pending", "processing", "completed", "failed".
    pub process_status: String,
    pub last_modified: i64,
}

/// What `str::to_lowercase` returns for the given characters.
pub uninterp spec fn lowercase(s: Seq<char>) -> Seq<char>;

/// `c` with an ASCII upper-case letter turned into its lower-case letter.
pub open spec fn ascii_lower_char(c: char) -> char {
    if 'A' <= c && c <= 'Z' {
        ((c as u32) + 32) as char
    } else {
        c
    }
}

/// `c` with an ASCII lower-case letter turned into its upper-case letter.
pub open spec fn ascii_upper_char(c: char) -> char {
    if 'a' <= c && c <= 'z' {
        ((c as u32) - 32) as char
    } else {
        c
    }
}

/// The text with ASCII letters in lower case.
pub open spec fn ascii_lowercase(s: Seq<char>) -> Seq<char> {
    s.map_values(|c: char| ascii_lower_char(c))
}

/// The text with ASCII letters in upper case.
pub open spec fn ascii_uppercase(s: Seq<char>) -> Seq<char> {
    s.map_values(|c: char| ascii_upper_char(c))
}

/// Lower-cases a string slice.
///
/// Trusted: calls `str::to_lowercase` from std, which lower-cases by the
/// Unicode `Lowercase` mapping and depends on its argument alone. The contract
/// names that result (`lowercase`) and states its ASCII part, which std's
/// documentation shows ("HELLO" becomes "hello"): on ASCII text, `A`-`Z` become
/// `a`-`z` and every other character stays. Outside ASCII it is left unsaid.
#[verifier::external_body]
fn to_lowercase(s: &str) -> (lower: String)
    ensures
        lower@ == lowercase(s@),
        is_ascii_chars(s@) ==> lower@ == ascii_lowercase(s@),
{
    s.to_lowercase()
}

/// The lower-case extensions that denote videos.
pub open spec fn is_video_extension(ext: Seq<char>) -> bool {
    ||| ext == "mp4"@
    ||| ext == "mkv"@
    ||| ext == "avi"@
    ||| ext == "mov"@
    ||| ext == "webm"@
}

/// The lower-case extensions that denote images.
pub open spec fn is_image_extension(ext: Seq<char>) -> bool {
    ||| ext == "jpg"@
    ||| ext == "jpeg"@
    ||| ext == "png"@
    ||| ext == "gif"@
    ||| ext == "webp"@
}

/// The media type denoted by an already lower-cased extension.
pub open spec fn type_of_lowercase_extension(ext: Seq<char>) -> MediaType {
    if is_video_extension(ext) {
        MediaType::Video
    } else if is_image_extension(ext) {
        MediaType::Image
    } else {
        MediaType::Unknown
    }
}

/// The stored name of a media type.
pub open spec fn stored_name(t: MediaType) -> Seq<char> {
    match t {
        MediaType::Video => "video"@,
        MediaType::Image => "image"@,
        MediaType::Unknown => "unknown"@,
    }
}

/// The media type that a stored name denotes; anything else is `Unknown`.
pub open spec fn type_of_stored_name(s: Seq<char>) -> MediaType {
    if s == "video"@ {
        MediaType::Video
    } else if s == "image"@ {
        MediaType::Image
    } else {
        MediaType::Unknown
    }
}

impl MediaType {
    /// Classifies a file extension, ignoring case.
    pub fn from_extension(ext: &str) -> (t: MediaType)
        ensures
            t == type_of_lowercase_extension(lowercase(ext@)),
            is_ascii_chars(ext@) ==> t == type_of_lowercase_extension(ascii_lowercase(ext@)),
    {
        let lower = to_lowercase(ext);
        MediaType::from_lowercase_extension(lower.as_str())
    }

    /// Classifies an extension that is already in lower case.
    pub fn from_lowercase_extension(ext: &str) -> (t: MediaType)
        ensures
            t == type_of_lowercase_extension(ext@),
    {
        if str_eq(ext, "mp4") || str_eq(ext, "mkv") || str_eq(ext, "avi") || str_eq(ext, "mov")
            || str_eq(ext, "webm") {
            MediaType::Video
        } else if str_eq(ext, "jpg") || str_eq(ext, "jpeg") || str_eq(ext, "png") || str_eq(
            ext,
            "gif",
        ) || str_eq(ext, "webp") {
            MediaType::Image
        } else {
            MediaType::Unknown
        }
    }

    /// The name under which the type is stored.
    pub fn to_string(&self) -> (name: &'static str)
        ensures
            name@ == stored_name(*self),
    {
        match self {
            MediaType::Video => "video",
            MediaType::Image => "image",
            MediaType::Unknown => "unknown",
        }
    }

    /// The type that a stored name denotes; unrecognised names give `Unknown`.
    pub fn from_string(s: &str) -> (t: MediaType)
        ensures
            t == type_of_stored_name(s@),
    {
        if str_eq(s, "video") {
            MediaType::Video
        } else if str_eq(s, "image") {
            MediaType::Image
        } else {
            MediaType::Unknown
        }
    }
}

/// Storing a media type by name and reading the name back gives the same type.
pub proof fn lemma_stored_name_round_trip(t: MediaType)
    ensures
        type_of_stored_name(stored_name(t)) == t,
{
    reveal_strlit("video");
    reveal_strlit("image");
    reveal_strlit("unknown");
    assert("video"@[0] != "image"@[0]);
    assert("unknown"@[0] != "video"@[0]);
    assert("unknown"@[0] != "image"@[0]);
}

/// A stored name that denotes a known type is that type's name.
pub proof fn lemma_known_name_is_canonical(s: Seq<char>)
    requires
        type_of_stored_name(s) != MediaType::Unknown,
    ensures
        stored_name(type_of_stored_name(s)) == s,
{
}


proof fn lemma_ascii_char_cases(c: char)
    requires
        (c as u32) < 128,
    ensures
        ascii_lower_char(ascii_upper_char(c)) == ascii_lower_char(c),
        (ascii_upper_char(c) as u32) < 128,
{
    if 'a' <= c && c <= 'z' {
        let u = (c as u32) - 32;
        assert((u as char) as u32 == u);
        assert(((u + 32) as char) as u32 == u + 32);
        assert((u + 32) as char == c);
    }
}

/// Extension classification ignores ASCII case: an ASCII extension and its
/// upper-case form denote the same media type (with `from_extension`'s contract,
/// `from_extension("MP4") == from_extension("mp4")`).
pub proof fn lemma_extension_case_insensitive(ext: Seq<char>)
    requires
        is_ascii_chars(ext),
    ensures
        is_ascii_chars(ascii_uppercase(ext)),
        ascii_lowercase(ascii_uppercase(ext)) == ascii_lowercase(ext),
        type_of_lowercase_extension(ascii_lowercase(ascii_uppercase(ext)))
            == type_of_lowercase_extension(ascii_lowercase(ext)),
{
    let up = ascii_uppercase(ext);
    assert forall|i: int| 0 <= i < ext.len() implies ascii_lower_char(up[i]) == ascii_lower_char(ext[i])
        && '\0' <= #[trigger] up[i] <= '\u{7f}' by {
        assert('\0' <= ext[i] <= '\u{7f}');
        lemma_ascii_char_cases(ext[i]);
    }
    assert(ascii_lowercase(up) =~= ascii_lowercase(ext));
}


/// The five video and five image extensions, and the stored names of the types.
pub proof fn lemma_extension_table()
    ensures
        type_of_lowercase_extension("mp4"@) == MediaType::Video,
        type_of_lowercase_extension("mkv"@) == MediaType::Video,
        type_of_lowercase_extension("avi"@) == MediaType::Video,
        type_of_lowercase_extension("mov"@) == MediaType::Video,
        type_of_lowercase_extension("webm"@) == MediaType::Video,
        type_of_lowercase_extension("jpg"@) == MediaType::Image,
        type_of_lowercase_extension("jpeg"@) == MediaType::Image,
        type_of_lowercase_extension("png"@) == MediaType::Image,
        type_of_lowercase_extension("gif"@) == MediaType::Image,
        type_of_lowercase_extension("webp"@) == MediaType::Image,
        stored_name(MediaType::Video) == "video"@,
        stored_name(MediaType::Image) == "image"@,
        stored_name(MediaType::Unknown) == "unknown"@,
{
    reveal_strlit("mp4");
    reveal_strlit("mkv");
    reveal_strlit("avi");
    reveal_strlit("mov");
    reveal_strlit("webm");
    reveal_strlit("jpg");
    reveal_strlit("jpeg");
    reveal_strlit("png");
    reveal_strlit("gif");
    reveal_strlit("webp");
    let videos = seq!["mp4"@, "mkv"@, "avi"@, "mov"@, "webm"@];
    let images = seq!["jpg"@, "jpeg"@, "png"@, "gif"@, "webp"@];
    assert forall|i: int, j: int| 0 <= i < 5 && 0 <= j < 5 implies #[trigger] images[i] != #[trigger] videos[j] by {
        if images[i].len() == videos[j].len() {
            if i == 4 {
                assert(images[i][3] != videos[j][3]);
            } else {
                assert(images[i][0] != videos[j][0]);
            }
        }
    }
    assert(images[0] == "jpg"@);
    assert(images[1] == "jpeg"@);
    assert(images[2] == "png"@);
    assert(images[3] == "gif"@);
    assert(images[4] == "webp"@);
    assert(videos[0] == "mp4"@);
    assert(videos[1] == "mkv"@);
    assert(videos[2] == "avi"@);
    assert(videos[3] == "mov"@);
    assert(videos[4] == "webm"@);
}

}
