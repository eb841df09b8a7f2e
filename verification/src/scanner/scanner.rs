//! Which files of the media directory enter the catalogue, and with what.

use vstd::prelude::*;

use crate::db::models::{lowercase, type_of_lowercase_extension, MediaType};

verus! {

/// What the file system reports of a path.
#[derive(Debug, Clone)]
pub struct FileFacts {
    /// The path names a regular file.
    pub is_file: bool,
    /// The file name's extension, when it has one that is valid UTF-8.
    pub extension: Option<String>,
    /// The file's length in bytes, when its metadata could be read.
    pub size: Option<u64>,
    /// Seconds from the Unix epoch to the file's last modification, when known.
    pub modified_secs: Option<u64>,
}

/// A file to add to the catalogue (ignored when its path is already there).
#[derive(Debug, Clone)]
pub struct NewMedia {
    pub path: String,
    pub media_type: MediaType,
    pub size_bytes: i64,
    pub last_modified: i64,
}

/// The catalogue only holds videos and images.
pub open spec fn is_catalogued(t: MediaType) -> bool {
    t == MediaType::Video || t == MediaType::Image
}

/// The media type of a file with the given facts, if it is catalogued.
pub open spec fn catalogued_type(facts: FileFacts) -> Option<MediaType> {
    if facts.is_file && facts.extension is Some && is_catalogued(
        type_of_lowercase_extension(lowercase(facts.extension->0@)),
    ) {
        Some(type_of_lowercase_extension(lowercase(facts.extension->0@)))
    } else {
        None
    }
}

/// An optional unsigned quantity as a stored integer: wrapped into 64 signed
/// bits, 0 when unknown.
pub open spec fn stored_quantity(q: Option<u64>) -> i64 {
    match q {
        Some(n) => n as i64,
        None => 0,
    }
}

/// Sizes and times are stored as 64-bit signed integers: a known quantity
/// below 2^63 is stored as it is, a larger one wraps around by 2^64, and an
/// unknown one is stored as 0.
pub proof fn lemma_stored_quantity_value(n: u64)
    ensures
        stored_quantity(None) == 0,
        n < 0x8000_0000_0000_0000 ==> stored_quantity(Some(n)) as int == n as int,
        n >= 0x8000_0000_0000_0000 ==> stored_quantity(Some(n)) as int == n as int
            - 0x1_0000_0000_0000_0000,
{
    if n < 0x8000_0000_0000_0000 {
        assert((n as i64) as int == n as int) by (bit_vector)
            requires
                n < 0x8000_0000_0000_0000u64,
        ;
    } else {
        assert((n as i64) as int == n as int - 0x1_0000_0000_0000_0000) by (bit_vector)
            requires
                n >= 0x8000_0000_0000_0000u64,
        ;
    }
}

/// Only regular files that are videos or images enter the catalogue.
pub proof fn lemma_only_media_files(facts: FileFacts)
    ensures
        !facts.is_file ==> catalogued_type(facts) is None,
        facts.extension is None ==> catalogued_type(facts) is None,
        catalogued_type(facts) matches Some(t) ==> (t == MediaType::Video || t == MediaType::Image),
{
}

fn to_stored(q: Option<u64>) -> (v: i64)
    ensures
        v == stored_quantity(q),
{
    match q {
        Some(n) => n as i64,
        None => 0,
    }
}

/// The catalogue entry for the file at `path`, if it is a video or an image.
pub fn index_entry(path: String, facts: &FileFacts) -> (entry: Option<NewMedia>)
    ensures
        entry is Some <==> catalogued_type(*facts) is Some,
        entry matches Some(m) ==> {
            &&& m.path == path
            &&& Some(m.media_type) == catalogued_type(*facts)
            &&& m.size_bytes == stored_quantity(facts.size)
            &&& m.last_modified == stored_quantity(facts.modified_secs)
        },
{
    if !facts.is_file {
        return None;
    }
    match &facts.extension {
        Some(ext) => {
            let t = MediaType::from_extension(ext.as_str());
            match t {
                MediaType::Video | MediaType::Image => Some(
                    NewMedia {
                        path,
                        media_type: t,
                        size_bytes: to_stored(facts.size),
                        last_modified: to_stored(facts.modified_secs),
                    },
                ),
                MediaType::Unknown => None,
            }
        },
        None => None,
    }
}

}
