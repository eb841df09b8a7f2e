//! HTTP Live Streaming: the playlists served for a video, and when a segment
//! that the transcoder is still writing may be served.

use vstd::prelude::*;
use vstd::string::*;

use crate::text::{
    contains_chars, occurs_at, lemma_zero_padded_decimal_injective, decimal, push_padded, push_signed, signed_decimal, push_string, str_contains, string_views, zero_padded,
};

verus! {

/// The master playlist of video `id`: one stream, pointing at its media playlist.
pub open spec fn master_playlist_text(id: i64) -> Seq<char> {
    "#EXTM3U\n#EXT-X-STREAM-INF:PROGRAM-ID=1,BANDWIDTH=2000000\n/hls/"@ + signed_decimal(id as int)
        + "/playlist.m3u8\n"@
}

/// `segment_{i:03}.ts`, the file name of segment `i`.
pub open spec fn segment_file_name(i: nat) -> Seq<char> {
    "segment_"@ + zero_padded(decimal(i), 3) + ".ts"@
}

/// The playlist entry of segment `i` of video `id`, lasting `duration` (already formatted).
pub open spec fn segment_entry(id: i64, i: nat, duration: Seq<char>) -> Seq<char> {
    "#EXTINF:"@ + duration + ",\n"@ + "/hls/"@ + signed_decimal(id as int) + "/"@ + segment_file_name(i)
        + "\n"@
}

/// The entries of the first `durations.len()` segments.
pub open spec fn segment_entries(id: i64, durations: Seq<Seq<char>>) -> Seq<char>
    decreases durations.len(),
{
    if durations.len() == 0 {
        Seq::empty()
    } else {
        segment_entries(id, durations.drop_last()) + segment_entry(
            id,
            (durations.len() - 1) as nat,
            durations.last(),
        )
    }
}

/// The header of a video-on-demand media playlist with ten-second segments.
pub open spec fn vod_header() -> Seq<char> {
    "#EXTM3U\n"@ + "#EXT-X-VERSION:3\n"@ + "#EXT-X-TARGETDURATION:10\n"@ + "#EXT-X-MEDIA-SEQUENCE:0\n"@
        + "#EXT-X-PLAYLIST-TYPE:VOD\n"@
}

/// The complete media playlist of video `id` whose segments last `durations`.
pub open spec fn vod_playlist_text(id: i64, durations: Seq<Seq<char>>) -> Seq<char> {
    vod_header() + segment_entries(id, durations) + "#EXT-X-ENDLIST\n"@
}

/// The master playlist of video `id`.
pub fn master_playlist(id: i64) -> (text: String)
    ensures
        text@ == master_playlist_text(id),
{
    let mut text = String::from_str("#EXTM3U\n#EXT-X-STREAM-INF:PROGRAM-ID=1,BANDWIDTH=2000000\n/hls/");
    push_signed(&mut text, id);
    text.append("/playlist.m3u8\n");
    text
}

/// Appends `segment_{i:03}.ts`.
fn push_segment_file_name(out: &mut String, i: u64)
    ensures
        final(out)@ == old(out)@ + segment_file_name(i as nat),
{
    out.append("segment_");
    push_padded(out, i, 3);
    out.append(".ts");
    assert(out@ =~= old(out)@ + segment_file_name(i as nat));
}

/// The file name of segment `i`.
pub fn segment_name(i: u32) -> (name: String)
    ensures
        name@ == segment_file_name(i as nat),
{
    let mut name = String::new();
    push_segment_file_name(&mut name, i as u64);
    name
}

/// The media playlist of video `id`, listing one segment per entry of
/// `durations` (each already formatted with six decimals), in order.
pub fn vod_playlist(id: i64, durations: &Vec<String>) -> (text: String)
    ensures
        text@ == vod_playlist_text(id, string_views(durations@)),
{
    let mut text = String::new();
    text.append("#EXTM3U\n");
    text.append("#EXT-X-VERSION:3\n");
    text.append("#EXT-X-TARGETDURATION:10\n");
    text.append("#EXT-X-MEDIA-SEQUENCE:0\n");
    text.append("#EXT-X-PLAYLIST-TYPE:VOD\n");
    let ghost views = string_views(durations@);
    assert(views.take(0) =~= Seq::<Seq<char>>::empty());
    let mut i: usize = 0;
    while i < durations.len()
        invariant
            i <= durations.len(),
            views == string_views(durations@),
            text@ == vod_header() + segment_entries(id, views.take(i as int)),
        decreases durations.len() - i,
    {
        text.append("#EXTINF:");
        text.append(durations[i].as_str());
        text.append(",\n");
        text.append("/hls/");
        push_signed(&mut text, id);
        text.append("/");
        push_segment_file_name(&mut text, i as u64);
        text.append("\n");
        proof {
            assert(views.take(i + 1).drop_last() =~= views.take(i as int));
            assert(views[i as int] == durations@[i as int]@);
        }
        i = i + 1;
    }
    text.append("#EXT-X-ENDLIST\n");
    assert(views.take(durations.len() as int) =~= views);
    text
}

/// How many times a segment request checks whether the segment is complete.
pub const SEGMENT_CHECKS: u32 = 150;

/// What to do after one check of whether a requested segment is complete.
#[derive(Debug, Clone, Copy, PartialEq, Eq, Structural)]
pub enum SegmentWait {
    /// The transcoder has listed the segment: serve it now.
    Serve,
    /// Not listed yet: wait a tenth of a second and check again.
    SleepThenCheck,
    /// Not listed after the last check: wait a tenth of a second, then serve
    /// whatever is on disk.
    SleepThenServe,
}

/// Whether the transcoder's own playlist, if it could be read, lists `segment`.
/// The transcoder writes a segment completely before listing it.
pub fn segment_listed(transcoder_playlist: Option<&str>, segment: &str) -> (listed: bool)
    ensures
        listed == (transcoder_playlist matches Some(p) && contains_chars(p@, segment@)),
{
    match transcoder_playlist {
        Some(p) => str_contains(p, segment),
        None => false,
    }
}

/// The decision after check number `check` (counted from zero).
pub fn segment_wait_step(check: u32, listed: bool) -> (next: SegmentWait)
    requires
        check < SEGMENT_CHECKS,
    ensures
        listed ==> next == SegmentWait::Serve,
        !listed && check + 1 < SEGMENT_CHECKS ==> next == SegmentWait::SleepThenCheck,
        !listed && check + 1 == SEGMENT_CHECKS ==> next == SegmentWait::SleepThenServe,
{
    if listed {
        SegmentWait::Serve
    } else if check + 1 < SEGMENT_CHECKS {
        SegmentWait::SleepThenCheck
    } else {
        SegmentWait::SleepThenServe
    }
}


/// Distinct segments of a playlist name distinct files.
pub proof fn lemma_segment_names_distinct(i: nat, j: nat)
    requires
        i != j,
    ensures
        segment_file_name(i) != segment_file_name(j),
{
    if segment_file_name(i) == segment_file_name(j) {
        reveal_strlit("segment_");
        reveal_strlit(".ts");
        let a = zero_padded(decimal(i), 3);
        let b = zero_padded(decimal(j), 3);
        assert(segment_file_name(i).subrange(8, 8 + a.len() as int) =~= a);
        assert(segment_file_name(j).subrange(8, 8 + b.len() as int) =~= b);
        assert(segment_file_name(i).len() == 8 + a.len() + 3);
        lemma_zero_padded_decimal_injective(i, j, 3);
    }
}


/// The ffmpeg arguments that transcode `input` into ten-second HLS segments
/// named by `segment_pattern`, listing them in `transcoder_playlist` as each
/// is completed (video copied, audio to AAC, a key frame every ten seconds).
pub open spec fn transcode_args_spec(
    input: Seq<char>,
    segment_pattern: Seq<char>,
    transcoder_playlist: Seq<char>,
) -> Seq<Seq<char>> {
    seq![
        "-i"@,
        input,
        "-c:v"@,
        "copy"@,
        "-c:a"@,
        "aac"@,
        "-f"@,
        "hls"@,
        "-hls_time"@,
        "10"@,
        "-hls_list_size"@,
        "0"@,
        "-hls_playlist_type"@,
        "event"@,
        "-force_key_frames"@,
        "expr:gte(t,n_forced*10)"@,
        "-hls_segment_filename"@,
        segment_pattern,
        transcoder_playlist,
    ]
}

/// The transcoder's arguments.
pub fn transcode_args(input: &str, segment_pattern: &str, transcoder_playlist: &str) -> (args: Vec<
    String,
>)
    ensures
        string_views(args@) == transcode_args_spec(input@, segment_pattern@, transcoder_playlist@),
{
    let mut args: Vec<String> = Vec::new();
    push_string(&mut args, "-i");
    push_string(&mut args, input);
    push_string(&mut args, "-c:v");
    push_string(&mut args, "copy");
    push_string(&mut args, "-c:a");
    push_string(&mut args, "aac");
    push_string(&mut args, "-f");
    push_string(&mut args, "hls");
    push_string(&mut args, "-hls_time");
    push_string(&mut args, "10");
    push_string(&mut args, "-hls_list_size");
    push_string(&mut args, "0");
    push_string(&mut args, "-hls_playlist_type");
    push_string(&mut args, "event");
    push_string(&mut args, "-force_key_frames");
    push_string(&mut args, "expr:gte(t,n_forced*10)");
    push_string(&mut args, "-hls_segment_filename");
    push_string(&mut args, segment_pattern);
    push_string(&mut args, transcoder_playlist);
    assert(string_views(args@) =~= transcode_args_spec(input@, segment_pattern@, transcoder_playlist@));
    args
}


/// The transcoder writes ten-second MPEG-TS segments of `input` named by
/// `segment_pattern` (video copied, audio as AAC, a key frame every ten
/// seconds), and keeps an "event" playlist at `transcoder_playlist` that lists
/// every segment as soon as it is complete and never drops one.
pub proof fn lemma_transcode_args_shape(input: Seq<char>, segment_pattern: Seq<char>, transcoder_playlist: Seq<char>)
    ensures
        ({
            let a = transcode_args_spec(input, segment_pattern, transcoder_playlist);
            &&& a.len() == 19
            &&& a[0] == "-i"@ && a[1] == input
            &&& a[2] == "-c:v"@ && a[3] == "copy"@
            &&& a[4] == "-c:a"@ && a[5] == "aac"@
            &&& a[6] == "-f"@ && a[7] == "hls"@
            &&& a[8] == "-hls_time"@ && a[9] == "10"@
            &&& a[10] == "-hls_list_size"@ && a[11] == "0"@
            &&& a[12] == "-hls_playlist_type"@ && a[13] == "event"@
            &&& a[14] == "-force_key_frames"@ && a[15] == "expr:gte(t,n_forced*10)"@
            &&& a[16] == "-hls_segment_filename"@ && a[17] == segment_pattern
            &&& a[18] == transcoder_playlist
        }),
{
}

/// The text of the entries of the first `n` segments is a prefix of the text
/// of all entries.
proof fn lemma_entries_prefix(id: i64, durations: Seq<Seq<char>>, n: int)
    requires
        0 <= n <= durations.len(),
    ensures
        segment_entries(id, durations).subrange(0, segment_entries(id, durations.take(n)).len() as int)
            == segment_entries(id, durations.take(n)),
        segment_entries(id, durations.take(n)).len() <= segment_entries(id, durations).len(),
    decreases durations.len(),
{
    if n == durations.len() {
        assert(durations.take(n) =~= durations);
        assert(segment_entries(id, durations).subrange(0, segment_entries(id, durations).len() as int)
            =~= segment_entries(id, durations));
    } else {
        let init = durations.drop_last();
        lemma_entries_prefix(id, init, n);
        assert(init.take(n) =~= durations.take(n));
        let p = segment_entries(id, durations.take(n));
        let e = segment_entries(id, init);
        assert(segment_entries(id, durations).subrange(0, p.len() as int) =~= e.subrange(0, p.len() as int));
    }
}

/// For every segment `i` of a media playlist, the playlist lists the URL
/// `/hls/{id}/segment_{i:03}.ts` on a line of its own, right after that
/// segment's `#EXTINF` line: entry `i` names segment `i`.
pub proof fn lemma_playlist_lists_every_segment(id: i64, durations: Seq<Seq<char>>, i: int)
    requires
        0 <= i < durations.len(),
    ensures
        contains_chars(
            vod_playlist_text(id, durations),
            "#EXTINF:"@ + durations[i] + ",\n"@ + "/hls/"@ + signed_decimal(id as int) + "/segment_"@
                + zero_padded(decimal(i as nat), 3) + ".ts\n"@,
        ),
{
    let needle = "#EXTINF:"@ + durations[i] + ",\n"@ + "/hls/"@ + signed_decimal(id as int) + "/segment_"@
        + zero_padded(decimal(i as nat), 3) + ".ts\n"@;
    let upto = durations.take(i + 1);
    assert(upto.drop_last() =~= durations.take(i));
    assert(upto.last() == durations[i]);
    let before = segment_entries(id, durations.take(i));
    reveal_strlit("/");
    reveal_strlit("segment_");
    reveal_strlit("/segment_");
    reveal_strlit(".ts");
    reveal_strlit("\n");
    reveal_strlit(".ts\n");
    assert(segment_entry(id, i as nat, durations[i]) =~= needle);
    assert(segment_entries(id, upto) == before + needle);
    lemma_entries_prefix(id, durations, i + 1);
    let all = segment_entries(id, durations);
    let text = vod_playlist_text(id, durations);
    let o: int = vod_header().len() as int + before.len() as int;
    assert(all.subrange(before.len() as int, (before.len() + needle.len()) as int) =~= needle) by {
        assert(all.subrange(0, (before.len() + needle.len()) as int) == before + needle);
        assert forall|k: int| 0 <= k < needle.len() implies all.subrange(
            before.len() as int,
            (before.len() + needle.len()) as int,
        )[k] == needle[k] by {
            assert(all.subrange(0, (before.len() + needle.len()) as int)[before.len() + k] == (before
                + needle)[before.len() + k]);
        }
    }
    assert forall|k: int| 0 <= k < needle.len() implies text.subrange(o, o + needle.len())[k] == needle[k] by {
        assert(text[o + k] == all[before.len() + k]);
        assert(all.subrange(before.len() as int, (before.len() + needle.len()) as int)[k] == all[before.len() + k]);
    }
    assert(text.subrange(o, o + needle.len()) =~= needle);
    assert(occurs_at(text, needle, o));
}


/// A segment request checks the transcoder's playlist at most 150 times, a
/// tenth of a second apart, so it waits at most fifteen seconds.
pub proof fn lemma_segment_wait_bound()
    ensures
        SEGMENT_CHECKS == 150,
{
}

/// The master playlist declares a single 2 Mbit/s stream whose media playlist
/// is `/hls/{id}/playlist.m3u8`; the media playlist is a finished
/// video-on-demand list of segments of at most ten seconds, numbered from 0,
/// ending with the end-of-list tag.
pub proof fn lemma_playlist_headers(id: i64, durations: Seq<Seq<char>>)
    ensures
        master_playlist_text(id) == "#EXTM3U\n"@ + "#EXT-X-STREAM-INF:PROGRAM-ID=1,BANDWIDTH=2000000\n"@
            + "/hls/"@ + signed_decimal(id as int) + "/playlist.m3u8\n"@,
        vod_playlist_text(id, durations) == "#EXTM3U\n"@ + "#EXT-X-VERSION:3\n"@
            + "#EXT-X-TARGETDURATION:10\n"@ + "#EXT-X-MEDIA-SEQUENCE:0\n"@
            + "#EXT-X-PLAYLIST-TYPE:VOD\n"@ + segment_entries(id, durations) + "#EXT-X-ENDLIST\n"@,
{
    reveal_strlit("#EXTM3U\n#EXT-X-STREAM-INF:PROGRAM-ID=1,BANDWIDTH=2000000\n/hls/");
    reveal_strlit("#EXTM3U\n");
    reveal_strlit("#EXT-X-STREAM-INF:PROGRAM-ID=1,BANDWIDTH=2000000\n");
    reveal_strlit("/hls/");
    assert("#EXTM3U\n#EXT-X-STREAM-INF:PROGRAM-ID=1,BANDWIDTH=2000000\n/hls/"@ =~= "#EXTM3U\n"@
        + "#EXT-X-STREAM-INF:PROGRAM-ID=1,BANDWIDTH=2000000\n"@ + "/hls/"@);
    assert(master_playlist_text(id) =~= "#EXTM3U\n"@ + "#EXT-X-STREAM-INF:PROGRAM-ID=1,BANDWIDTH=2000000\n"@
        + "/hls/"@ + signed_decimal(id as int) + "/playlist.m3u8\n"@);
}

}
