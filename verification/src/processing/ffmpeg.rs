//! What the library hands to ffmpeg and ffprobe, and the WebVTT cue file that
//! maps timeline positions to tiles of a sprite sheet.

use vstd::prelude::*;
use vstd::string::*;

use crate::text::{
    contains_chars, occurs_at, decimal, digits_value, lemma_decimal_value, lemma_zero_padded_fixed_width, pow10, push_decimal, push_padded, push_string, string_views, zero_padded};

verus! {

/// A point in a video, split into whole hours, minutes, seconds and milliseconds.
#[derive(Debug, Clone, Copy, PartialEq, Eq, Structural)]
pub struct TimeParts {
    pub hours: u32,
    pub minutes: u32,
    pub seconds: u32,
    pub millis: u32,
}

/// `HH:MM:SS.mmm`, each part zero-padded (hours may take more than two digits).
pub open spec fn timestamp_text(t: TimeParts) -> Seq<char> {
    zero_padded(decimal(t.hours as nat), 2) + ":"@ + zero_padded(decimal(t.minutes as nat), 2) + ":"@
        + zero_padded(decimal(t.seconds as nat), 2) + "."@ + zero_padded(decimal(t.millis as nat), 3)
}

fn push_timestamp(out: &mut String, t: TimeParts)
    ensures
        final(out)@ == old(out)@ + timestamp_text(t),
{
    push_padded(out, t.hours as u64, 2);
    out.append(":");
    push_padded(out, t.minutes as u64, 2);
    out.append(":");
    push_padded(out, t.seconds as u64, 2);
    out.append(".");
    push_padded(out, t.millis as u64, 3);
    assert(out@ =~= old(out)@ + timestamp_text(t));
}

/// A timestamp whose parts are in their usual ranges is `HH:MM:SS.mmm`: twelve
/// characters, with `:`, `:` and `.` at positions 2, 5 and 8, and the four
/// digit groups reading back as hours, minutes, seconds and milliseconds.
pub proof fn lemma_timestamp_layout(t: TimeParts)
    requires
        t.hours < 100,
        t.minutes < 100,
        t.seconds < 100,
        t.millis < 1000,
    ensures
        ({
            let s = timestamp_text(t);
            &&& s.len() == 12
            &&& s[2] == ':' && s[5] == ':' && s[8] == '.'
            &&& digits_value(s.subrange(0, 2)) == t.hours
            &&& digits_value(s.subrange(3, 5)) == t.minutes
            &&& digits_value(s.subrange(6, 8)) == t.seconds
            &&& digits_value(s.subrange(9, 12)) == t.millis
        }),
{
    reveal_strlit(":");
    reveal_strlit(".");
    assert(pow10(2) == 100 && pow10(3) == 1000) by { reveal_with_fuel(pow10, 4); }
    lemma_zero_padded_fixed_width(t.hours as nat, 2);
    lemma_zero_padded_fixed_width(t.minutes as nat, 2);
    lemma_zero_padded_fixed_width(t.seconds as nat, 2);
    lemma_zero_padded_fixed_width(t.millis as nat, 3);
    let h = zero_padded(decimal(t.hours as nat), 2);
    let m = zero_padded(decimal(t.minutes as nat), 2);
    let c = zero_padded(decimal(t.seconds as nat), 2);
    let ms = zero_padded(decimal(t.millis as nat), 3);
    let s = timestamp_text(t);
    assert(s =~= h + seq![':'] + m + seq![':'] + c + seq!['.'] + ms);
    assert(s.subrange(0, 2) =~= h);
    assert(s.subrange(3, 5) =~= m);
    assert(s.subrange(6, 8) =~= c);
    assert(s.subrange(9, 12) =~= ms);
}

/// Formats a timestamp as WebVTT writes it.
pub fn format_timestamp(t: TimeParts) -> (text: String)
    ensures
        text@ == timestamp_text(t),
{
    let mut text = String::new();
    push_timestamp(&mut text, t);
    text
}

/// The number of tiles per row of a sprite sheet.
pub const SPRITE_COLUMNS: u32 = 10;

/// The horizontal offset of tile `i`.
pub open spec fn tile_x(i: nat, tile_width: u32) -> nat {
    (i % (SPRITE_COLUMNS as nat)) * (tile_width as nat)
}

/// The vertical offset of tile `i`.
pub open spec fn tile_y(i: nat, tile_height: u32) -> nat {
    (i / (SPRITE_COLUMNS as nat)) * (tile_height as nat)
}

/// The offsets of the first `count` tiles fit in 32 bits.
pub open spec fn tiles_fit(count: nat, tile_width: u32, tile_height: u32) -> bool {
    count > 0 ==> {
        &&& tile_x(if count - 1 < 9 { (count - 1) as nat } else { 9 }, tile_width) <= u32::MAX
        &&& tile_y((count - 1) as nat, tile_height) <= u32::MAX
    }
}

/// The timing line of a cue.
pub open spec fn cue_timing(start: TimeParts, end: TimeParts) -> Seq<char> {
    timestamp_text(start) + " --> "@ + timestamp_text(end) + "\n"@
}

/// The payload line of a cue: the sprite sheet and the tile's rectangle.
pub open spec fn cue_tile(image_name: Seq<char>, x: nat, y: nat, tile_width: u32, tile_height: u32) -> Seq<
    char,
> {
    image_name + "#xywh="@ + decimal(x) + ","@ + decimal(y) + ","@ + decimal(tile_width as nat) + ","@
        + decimal(tile_height as nat) + "\n\n"@
}

/// The cue for tile `i`, shown from `start` to `end`.
pub open spec fn vtt_cue(
    image_name: Seq<char>,
    i: nat,
    start: TimeParts,
    end: TimeParts,
    tile_width: u32,
    tile_height: u32,
) -> Seq<char> {
    cue_timing(start, end) + cue_tile(
        image_name,
        tile_x(i, tile_width),
        tile_y(i, tile_height),
        tile_width,
        tile_height,
    )
}

/// The cues of the first `cues.len()` tiles.
pub open spec fn vtt_cues(
    image_name: Seq<char>,
    cues: Seq<(TimeParts, TimeParts)>,
    tile_width: u32,
    tile_height: u32,
) -> Seq<char>
    decreases cues.len(),
{
    if cues.len() == 0 {
        Seq::empty()
    } else {
        vtt_cues(image_name, cues.drop_last(), tile_width, tile_height) + vtt_cue(
            image_name,
            (cues.len() - 1) as nat,
            cues.last().0,
            cues.last().1,
            tile_width,
            tile_height,
        )
    }
}

/// A WebVTT file whose cue `i` shows tile `i` of the sprite sheet `image_name`.
pub open spec fn vtt_text(
    image_name: Seq<char>,
    cues: Seq<(TimeParts, TimeParts)>,
    tile_width: u32,
    tile_height: u32,
) -> Seq<char> {
    "WEBVTT\n\n"@ + vtt_cues(image_name, cues, tile_width, tile_height)
}

/// Distinct cues show distinct tiles: tile `i` sits in column `i % 10` and row
/// `i / 10` of the sheet, inside the sheet's ten columns.
pub proof fn lemma_tiles_distinct(i: nat, j: nat, tile_width: u32, tile_height: u32)
    requires
        tile_width > 0,
        tile_height > 0,
    ensures
        tile_x(i, tile_width) + tile_width <= 10 * tile_width,
        tile_x(i, tile_width) % (tile_width as nat) == 0,
        tile_y(i, tile_height) % (tile_height as nat) == 0,
        i != j ==> tile_x(i, tile_width) != tile_x(j, tile_width) || tile_y(i, tile_height)
            != tile_y(j, tile_height),
{
    let w = tile_width as nat;
    let h = tile_height as nat;
    assert((i % 10) * w + w <= 10 * w) by (nonlinear_arith)
        requires
            i % 10 < 10,
    ;
    assert(((i % 10) * w) % w == 0) by (nonlinear_arith)
        requires
            w > 0,
    ;
    assert(((i / 10) * h) % h == 0) by (nonlinear_arith)
        requires
            h > 0,
    ;
    if i != j {
        if (i % 10) * w == (j % 10) * w && (i / 10) * h == (j / 10) * h {
            assert(i % 10 == j % 10) by (nonlinear_arith)
                requires
                    (i % 10) * w == (j % 10) * w,
                    w > 0,
            ;
            assert(i / 10 == j / 10) by (nonlinear_arith)
                requires
                    (i / 10) * h == (j / 10) * h,
                    h > 0,
            ;
            assert(i == (i / 10) * 10 + i % 10);
            assert(j == (j / 10) * 10 + j % 10);
        }
    }
}

proof fn lemma_cues_prefix(
    image_name: Seq<char>,
    cues: Seq<(TimeParts, TimeParts)>,
    tile_width: u32,
    tile_height: u32,
    n: int,
)
    requires
        0 <= n <= cues.len(),
    ensures
        vtt_cues(image_name, cues, tile_width, tile_height).subrange(
            0,
            vtt_cues(image_name, cues.take(n), tile_width, tile_height).len() as int,
        ) == vtt_cues(image_name, cues.take(n), tile_width, tile_height),
        vtt_cues(image_name, cues.take(n), tile_width, tile_height).len() <= vtt_cues(
            image_name,
            cues,
            tile_width,
            tile_height,
        ).len(),
    decreases cues.len(),
{
    if n == cues.len() {
        assert(cues.take(n) =~= cues);
        let a = vtt_cues(image_name, cues, tile_width, tile_height);
        assert(a.subrange(0, a.len() as int) =~= a);
    } else {
        let init = cues.drop_last();
        lemma_cues_prefix(image_name, init, tile_width, tile_height, n);
        assert(init.take(n) =~= cues.take(n));
        let p = vtt_cues(image_name, cues.take(n), tile_width, tile_height);
        let e = vtt_cues(image_name, init, tile_width, tile_height);
        assert(vtt_cues(image_name, cues, tile_width, tile_height).subrange(0, p.len() as int)
            =~= e.subrange(0, p.len() as int));
    }
}

/// For every cue `i`, the cue file holds the cue shown from `cues[i].0` to
/// `cues[i].1` whose payload is the tile at `x = (i % 10) * w`, `y = (i / 10) * h`
/// of the sprite sheet, `w` by `h` pixels.
pub proof fn lemma_vtt_has_every_cue(
    image_name: Seq<char>,
    cues: Seq<(TimeParts, TimeParts)>,
    tile_width: u32,
    tile_height: u32,
    i: int,
)
    requires
        0 <= i < cues.len(),
    ensures
        contains_chars(
            vtt_text(image_name, cues, tile_width, tile_height),
            timestamp_text(cues[i].0) + " --> "@ + timestamp_text(cues[i].1) + "\n"@ + image_name
                + "#xywh="@ + decimal(((i % 10) * tile_width) as nat) + ","@ + decimal(
                ((i / 10) * tile_height) as nat,
            ) + ","@ + decimal(tile_width as nat) + ","@ + decimal(tile_height as nat) + "\n\n"@,
        ),
{
    let needle = timestamp_text(cues[i].0) + " --> "@ + timestamp_text(cues[i].1) + "\n"@ + image_name
        + "#xywh="@ + decimal(((i % 10) * tile_width) as nat) + ","@ + decimal(
        ((i / 10) * tile_height) as nat,
    ) + ","@ + decimal(tile_width as nat) + ","@ + decimal(tile_height as nat) + "\n\n"@;
    let upto = cues.take(i + 1);
    assert(upto.drop_last() =~= cues.take(i));
    assert(upto.last() == cues[i]);
    let before = vtt_cues(image_name, cues.take(i), tile_width, tile_height);
    assert(vtt_cue(image_name, i as nat, cues[i].0, cues[i].1, tile_width, tile_height) =~= needle);
    assert(vtt_cues(image_name, upto, tile_width, tile_height) == before + needle);
    lemma_cues_prefix(image_name, cues, tile_width, tile_height, i + 1);
    let all = vtt_cues(image_name, cues, tile_width, tile_height);
    let text = vtt_text(image_name, cues, tile_width, tile_height);
    let o: int = "WEBVTT\n\n"@.len() as int + before.len() as int;
    assert(all.subrange(0, (before.len() + needle.len()) as int) == before + needle);
    assert forall|k: int| 0 <= k < needle.len() implies text.subrange(o, o + needle.len())[k]
        == needle[k] by {
        assert(text[o + k] == all[before.len() + k]);
        assert(all.subrange(0, (before.len() + needle.len()) as int)[before.len() + k] == (before
            + needle)[before.len() + k]);
    }
    assert(text.subrange(o, o + needle.len()) =~= needle);
    assert(occurs_at(text, needle, o));
}

proof fn lemma_tile_bounds(i: nat, count: nat, tile_width: u32, tile_height: u32)
    requires
        i < count,
        tiles_fit(count, tile_width, tile_height),
    ensures
        tile_x(i, tile_width) <= u32::MAX,
        tile_y(i, tile_height) <= u32::MAX,
{
    let c = (if count - 1 < 9 { (count - 1) as nat } else { 9 }) as nat;
    let w = tile_width as nat;
    let h = tile_height as nat;
    assert(i % 10 <= c % 10);
    assert((i % 10) * w <= (c % 10) * w) by (nonlinear_arith)
        requires
            i % 10 <= c % 10,
    ;
    assert(i / 10 <= (count - 1) as nat / 10) by (nonlinear_arith)
        requires
            i <= count - 1,
    ;
    assert((i / 10) * h <= ((count - 1) as nat / 10) * h) by (nonlinear_arith)
        requires
            i / 10 <= (count - 1) as nat / 10,
    ;
}

fn push_cue_timing(text: &mut String, start: TimeParts, end: TimeParts)
    ensures
        final(text)@ == old(text)@ + cue_timing(start, end),
{
    push_timestamp(text, start);
    text.append(" --> ");
    push_timestamp(text, end);
    text.append("\n");
    assert(text@ =~= old(text)@ + cue_timing(start, end));
}

fn push_cue_tile(text: &mut String, image_name: &str, x: u64, y: u64, tile_width: u32, tile_height: u32)
    ensures
        final(text)@ == old(text)@ + cue_tile(image_name@, x as nat, y as nat, tile_width, tile_height),
{
    text.append(image_name);
    text.append("#xywh=");
    push_decimal(text, x);
    text.append(",");
    push_decimal(text, y);
    text.append(",");
    push_decimal(text, tile_width as u64);
    text.append(",");
    push_decimal(text, tile_height as u64);
    text.append("\n\n");
    assert(text@ =~= old(text)@ + cue_tile(image_name@, x as nat, y as nat, tile_width, tile_height));
}

fn tile_offsets(i: usize, tile_width: u32, tile_height: u32) -> (xy: (u64, u64))
    requires
        tile_x(i as nat, tile_width) <= u32::MAX,
        tile_y(i as nat, tile_height) <= u32::MAX,
    ensures
        xy.0 == tile_x(i as nat, tile_width),
        xy.1 == tile_y(i as nat, tile_height),
{
    let col: u64 = (i % 10) as u64;
    let row: u64 = (i / 10) as u64;
    assert(col * tile_width <= u32::MAX);
    assert(row * tile_height <= u32::MAX);
    (col * tile_width as u64, row * tile_height as u64)
}

/// The WebVTT cue file for a sprite sheet: cue `i` runs from `cues[i].0` to
/// `cues[i].1` and shows the tile at column `i % 10`, row `i / 10`.
pub fn vtt_document(
    image_name: &str,
    cues: &Vec<(TimeParts, TimeParts)>,
    tile_width: u32,
    tile_height: u32,
) -> (text: String)
    requires
        tiles_fit(cues.len() as nat, tile_width, tile_height),
    ensures
        text@ == vtt_text(image_name@, cues@, tile_width, tile_height),
{
    let mut text = String::from_str("WEBVTT\n\n");
    assert(cues@.take(0) =~= Seq::<(TimeParts, TimeParts)>::empty());
    let mut i: usize = 0;
    while i < cues.len()
        invariant
            i <= cues.len(),
            tiles_fit(cues.len() as nat, tile_width, tile_height),
            text@ == "WEBVTT\n\n"@ + vtt_cues(image_name@, cues@.take(i as int), tile_width, tile_height),
        decreases cues.len() - i,
    {
        proof { lemma_tile_bounds(i as nat, cues.len() as nat, tile_width, tile_height); }
        let (start, end) = cues[i];
        let (x, y) = tile_offsets(i, tile_width, tile_height);
        push_cue_timing(&mut text, start, end);
        push_cue_tile(&mut text, image_name, x, y, tile_width, tile_height);
        proof {
            assert(cues@.take(i + 1).drop_last() =~= cues@.take(i as int));
            assert(cues@.take(i + 1).last() == cues@[i as int]);
        }
        i = i + 1;
    }
    assert(cues@.take(cues.len() as int) =~= cues@);
    text
}


/// The arguments that ask ffprobe for a file's duration in seconds, alone on its output.
pub open spec fn probe_duration_args_spec(path: Seq<char>) -> Seq<Seq<char>> {
    seq![
        "-v"@,
        "error"@,
        "-show_entries"@,
        "format=duration"@,
        "-of"@,
        "default=noprint_wrappers=1:nokey=1"@,
        path,
    ]
}

/// The ffprobe arguments for reading the duration of `path`.
pub fn probe_duration_args(path: &str) -> (args: Vec<String>)
    ensures
        string_views(args@) == probe_duration_args_spec(path@),
{
    let mut args: Vec<String> = Vec::new();
    push_string(&mut args, "-v");
    push_string(&mut args, "error");
    push_string(&mut args, "-show_entries");
    push_string(&mut args, "format=duration");
    push_string(&mut args, "-of");
    push_string(&mut args, "default=noprint_wrappers=1:nokey=1");
    push_string(&mut args, path);
    assert(string_views(args@) =~= probe_duration_args_spec(path@));
    args
}

/// The filter that fits a frame into a `size` by `size` box, never enlarging it.
pub open spec fn scale_filter_text(size: u32) -> Seq<char> {
    "scale='min("@ + decimal(size as nat) + ",iw)':'min("@ + decimal(size as nat) + ",ih)':force_original_aspect_ratio=decrease"@
}

/// The thumbnail's scale filter.
pub fn thumbnail_scale_filter(size: u32) -> (filter: String)
    ensures
        filter@ == scale_filter_text(size),
{
    let mut filter = String::from_str("scale='min(");
    push_decimal(&mut filter, size as u64);
    filter.append(",iw)':'min(");
    push_decimal(&mut filter, size as u64);
    filter.append(",ih)':force_original_aspect_ratio=decrease");
    filter
}

/// The ffmpeg arguments that write one scaled frame of `input` to `output`.
/// A video is first sought into: to `seek` (already formatted) when its
/// duration is known, else to one second.
pub open spec fn thumbnail_args_spec(
    input: Seq<char>,
    output: Seq<char>,
    is_video: bool,
    seek: Option<Seq<char>>,
    size: u32,
    quality: u8,
) -> Seq<Seq<char>> {
    let seek_args = if is_video {
        seq![
            "-ss"@,
            match seek {
                Some(t) => t,
                None => "00:00:01"@,
            },
        ]
    } else {
        Seq::empty()
    };
    seek_args + seq![
        "-i"@,
        input,
        "-vframes"@,
        "1"@,
        "-vf"@,
        scale_filter_text(size),
        "-q:v"@,
        decimal(quality as nat),
        "-y"@,
        output,
    ]
}

/// The ffmpeg arguments for a thumbnail.
pub fn thumbnail_args(
    input: &str,
    output: &str,
    is_video: bool,
    seek: Option<&str>,
    size: u32,
    quality: u8,
) -> (args: Vec<String>)
    ensures
        string_views(args@) == thumbnail_args_spec(
            input@,
            output@,
            is_video,
            match seek {
                Some(t) => Some(t@),
                None => None,
            },
            size,
            quality,
        ),
{
    let mut args: Vec<String> = Vec::new();
    if is_video {
        push_string(&mut args, "-ss");
        match seek {
            Some(t) => push_string(&mut args, t),
            None => push_string(&mut args, "00:00:01"),
        }
    }
    push_string(&mut args, "-i");
    push_string(&mut args, input);
    push_string(&mut args, "-vframes");
    push_string(&mut args, "1");
    push_string(&mut args, "-vf");
    let filter = thumbnail_scale_filter(size);
    push_string(&mut args, filter.as_str());
    push_string(&mut args, "-q:v");
    let mut q = String::new();
    push_decimal(&mut q, quality as u64);
    push_string(&mut args, q.as_str());
    push_string(&mut args, "-y");
    push_string(&mut args, output);
    assert(string_views(args@) =~= thumbnail_args_spec(
        input@,
        output@,
        is_video,
        match seek {
            Some(t) => Some(t@),
            None => None,
        },
        size,
        quality,
    ));
    args
}

/// A video's thumbnail arguments are an image's with the seek pair in front:
/// input, frame count, scale filter of the given size, quality and output do
/// not depend on whether the input is a video.
pub proof fn lemma_thumbnail_args_shape(
    input: Seq<char>,
    output: Seq<char>,
    seek: Option<Seq<char>>,
    size: u32,
    quality: u8,
)
    ensures
        ({
            let image = thumbnail_args_spec(input, output, false, seek, size, quality);
            let video = thumbnail_args_spec(input, output, true, seek, size, quality);
            &&& image.len() == 10
            &&& image[0] == "-i"@ && image[1] == input
            &&& image[2] == "-vframes"@ && image[3] == "1"@
            &&& image[4] == "-vf"@ && image[5] == scale_filter_text(size)
            &&& image[6] == "-q:v"@ && image[7] == decimal(quality as nat)
            &&& image[8] == "-y"@ && image[9] == output
            &&& video == seq![
                "-ss"@,
                match seek {
                    Some(t) => t,
                    None => "00:00:01"@,
                },
            ] + image
        }),
{
    let image = thumbnail_args_spec(input, output, false, seek, size, quality);
    assert(Seq::<Seq<char>>::empty() + image.subrange(0, 10) =~= image);
}

/// The scale filter names its size: distinct sizes give distinct filters.
pub proof fn lemma_scale_filter_injective(a: u32, b: u32)
    requires
        scale_filter_text(a) == scale_filter_text(b),
    ensures
        a == b,
{
    let p = "scale='min("@;
    let m = ",iw)':'min("@;
    let t = ",ih)':force_original_aspect_ratio=decrease"@;
    let da = decimal(a as nat);
    let db = decimal(b as nat);
    assert(scale_filter_text(a) =~= p + da + m + da + t);
    assert(scale_filter_text(b) =~= p + db + m + db + t);
    assert(da.len() == db.len());
    assert((p + da + m + da + t).subrange(p.len() as int, (p.len() + da.len()) as int) =~= da);
    assert((p + db + m + db + t).subrange(p.len() as int, (p.len() + db.len()) as int) =~= db);
    lemma_decimal_value(a as nat);
    lemma_decimal_value(b as nat);
}

/// The filter that samples one frame per `interval` seconds (already
/// formatted), scales it to `size` pixels wide and tiles the frames.
pub open spec fn sprite_filter_text(interval: Seq<char>, size: u32, rows: u32) -> Seq<char> {
    "fps=1/"@ + interval + ",scale="@ + decimal(size as nat) + ":-1,tile="@ + decimal(
        SPRITE_COLUMNS as nat,
    ) + "x"@ + decimal(rows as nat)
}

/// The sprite sheet's filter.
pub fn sprite_filter(interval: &str, size: u32, rows: u32) -> (filter: String)
    ensures
        filter@ == sprite_filter_text(interval@, size, rows),
{
    let mut filter = String::from_str("fps=1/");
    filter.append(interval);
    filter.append(",scale=");
    push_decimal(&mut filter, size as u64);
    filter.append(":-1,tile=");
    push_decimal(&mut filter, SPRITE_COLUMNS as u64);
    filter.append("x");
    push_decimal(&mut filter, rows as u64);
    filter
}

/// The ffmpeg arguments that apply `filter` to `input` and write `output`.
pub open spec fn filter_args_spec(input: Seq<char>, filter: Seq<char>, output: Seq<char>) -> Seq<
    Seq<char>,
> {
    seq!["-i"@, input, "-vf"@, filter, "-y"@, output]
}

/// The ffmpeg arguments for a sprite sheet.
pub fn sprite_args(input: &str, filter: &str, output: &str) -> (args: Vec<String>)
    ensures
        string_views(args@) == filter_args_spec(input@, filter@, output@),
{
    let mut args: Vec<String> = Vec::new();
    push_string(&mut args, "-i");
    push_string(&mut args, input);
    push_string(&mut args, "-vf");
    push_string(&mut args, filter);
    push_string(&mut args, "-y");
    push_string(&mut args, output);
    assert(string_views(args@) =~= filter_args_spec(input@, filter@, output@));
    args
}


/// ffprobe is asked, quietly, for the container's duration alone, printed
/// without key or section wrapper, for the given path.
pub proof fn lemma_probe_args_shape(path: Seq<char>)
    ensures
        ({
            let a = probe_duration_args_spec(path);
            &&& a.len() == 7
            &&& a[0] == "-v"@ && a[1] == "error"@
            &&& a[2] == "-show_entries"@ && a[3] == "format=duration"@
            &&& a[4] == "-of"@ && a[5] == "default=noprint_wrappers=1:nokey=1"@
            &&& a[6] == path
        }),
{
}

/// The sprite sheet samples one frame per interval, scales each to the tile
/// width keeping the aspect ratio, and tiles them ten to a row in `rows` rows;
/// ffmpeg reads `input` and overwrites `output` with it.
pub proof fn lemma_sprite_shape(interval: Seq<char>, size: u32, rows: u32, input: Seq<char>, filter: Seq<char>, output: Seq<char>)
    ensures
        sprite_filter_text(interval, size, rows) == "fps=1/"@ + interval + ",scale="@ + decimal(size as nat)
            + ":-1,tile="@ + seq!['1', '0'] + "x"@ + decimal(rows as nat),
        filter_args_spec(input, filter, output) == seq!["-i"@, input, "-vf"@, filter, "-y"@, output],
{
    assert(decimal(10) =~= seq!['1', '0']) by {
        assert(decimal(1) =~= seq!['1']);
    }
}

}
