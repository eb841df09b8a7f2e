//! Template filters: percent-encoding of paths, one segment at a time.

use vstd::prelude::*;
use vstd::string::*;
use vstd::utf8::*;

use crate::text::{chars_of, push_string, string_views};

verus! {

#[verifier::external_type_specification]
#[verifier::external_body]
pub struct ExTemplateError(askama::Error);

/// The bytes that percent-encoding leaves as they are: ASCII letters and
/// digits, `-`, `.`, `_` and `~`.
pub open spec fn is_unreserved(b: u8) -> bool {
    ||| (48 <= b <= 57)
    ||| (65 <= b <= 90)
    ||| (97 <= b <= 122)
    ||| b == 45
    ||| b == 46
    ||| b == 95
    ||| b == 126
}

/// The upper-case hexadecimal digit for `d < 16`.
pub open spec fn hex_digit(d: u8) -> char {
    if d < 10 {
        ((48 + d) as u8) as char
    } else {
        ((55 + d) as u8) as char
    }
}

/// The percent-encoding of one byte.
pub open spec fn encoded_byte(b: u8) -> Seq<char> {
    if is_unreserved(b) {
        seq![b as char]
    } else {
        seq!['%', hex_digit(b / 16), hex_digit(b % 16)]
    }
}

/// Every byte percent-encoded, except the unreserved ones.
pub open spec fn percent_encoded(bytes: Seq<u8>) -> Seq<char>
    decreases bytes.len(),
{
    if bytes.len() == 0 {
        Seq::empty()
    } else {
        percent_encoded(bytes.drop_last()) + encoded_byte(bytes.last())
    }
}

/// Percent-encodes a path segment.
///
/// Trusted: calls `urlencoding::encode`, which encodes the UTF-8 bytes of its
/// argument, keeping ASCII alphanumerics, `-`, `.`, `_` and `~` and writing
/// every other byte as `%` and two upper-case hexadecimal digits.
#[verifier::external_body]
fn encode_segment(s: &str) -> (e: String)
    ensures
        e@ == percent_encoded(encode_utf8(s@)),
{
    urlencoding::encode(s).into_owned()
}

/// The `/`-separated parts of `s`, as `str::split('/')` yields them (always at least one).
pub open spec fn split_slash(s: Seq<char>) -> Seq<Seq<char>>
    decreases s.len(),
{
    if s.len() == 0 {
        seq![Seq::empty()]
    } else if s.last() == '/' {
        split_slash(s.drop_last()).push(Seq::empty())
    } else {
        let parts = split_slash(s.drop_last());
        parts.update(parts.len() - 1, parts.last().push(s.last()))
    }
}

/// The parts joined with `/` between them.
pub open spec fn join_slash(parts: Seq<Seq<char>>) -> Seq<char>
    decreases parts.len(),
{
    if parts.len() == 0 {
        Seq::empty()
    } else if parts.len() == 1 {
        parts[0]
    } else {
        join_slash(parts.drop_last()) + seq!['/'] + parts.last()
    }
}

/// A path with each `/`-separated part percent-encoded and the slashes kept.
pub open spec fn encoded_path(s: Seq<char>) -> Seq<char> {
    join_slash(split_slash(s).map_values(|p: Seq<char>| percent_encoded(encode_utf8(p))))
}

proof fn lemma_split_nonempty(s: Seq<char>)
    ensures
        split_slash(s).len() >= 1,
    decreases s.len(),
{
    if s.len() > 0 {
        lemma_split_nonempty(s.drop_last());
    }
}

proof fn lemma_split_step(s: Seq<char>, i: int, start: int, done: Seq<Seq<char>>)
    requires
        0 <= start <= i < s.len(),
        done.push(s.subrange(start, i)) == split_slash(s.take(i)),
    ensures
        s[i] == '/' ==> done.push(s.subrange(start, i)).push(s.subrange(i + 1, i + 1)) == split_slash(
            s.take(i + 1),
        ),
        s[i] != '/' ==> done.push(s.subrange(start, i + 1)) == split_slash(s.take(i + 1)),
{
    assert(s.take(i + 1).drop_last() =~= s.take(i));
    assert(s.take(i + 1).last() == s[i]);
    let p = split_slash(s.take(i));
    if s[i] == '/' {
        assert(s.subrange(i + 1, i + 1) =~= Seq::<char>::empty());
    } else {
        assert(s.subrange(start, i).push(s[i]) =~= s.subrange(start, i + 1));
        assert(p.update(p.len() - 1, p.last().push(s[i])) =~= done.push(s.subrange(start, i + 1)));
    }
}

/// The `/`-separated parts of `s`.
fn split_parts(s: &str) -> (parts: Vec<String>)
    ensures
        string_views(parts@) == split_slash(s@),
{
    let chars = chars_of(s);
    let mut parts: Vec<String> = Vec::new();
    let mut start: usize = 0;
    let mut i: usize = 0;
    assert(s@.take(0) =~= Seq::<char>::empty());
    assert(string_views(parts@).push(s@.subrange(0, 0)) =~= split_slash(s@.take(0)));
    while i < chars.len()
        invariant
            chars@ == s@,
            start <= i <= chars.len(),
            string_views(parts@).push(s@.subrange(start as int, i as int)) == split_slash(
                s@.take(i as int),
            ),
        decreases chars.len() - i,
    {
        proof {
            lemma_split_step(s@, i as int, start as int, string_views(parts@));
        }
        if chars[i] == '/' {
            let part = s.substring_char(start, i);
            push_string(&mut parts, part);
            start = i + 1;
        }
        i = i + 1;
    }
    let last = s.substring_char(start, chars.len());
    push_string(&mut parts, last);
    assert(s@.take(chars.len() as int) =~= s@);
    parts
}

/// Percent-encodes each `/`-separated part of `s`, keeping the slashes.
fn encode_path(s: &str) -> (e: String)
    ensures
        e@ == encoded_path(s@),
{
    let parts = split_parts(s);
    let ghost views = split_slash(s@);
    let ghost enc = views.map_values(|p: Seq<char>| percent_encoded(encode_utf8(p)));
    proof { lemma_split_nonempty(s@); }
    let mut out = encode_segment(parts[0].as_str());
    assert(views[0] == parts@[0]@);
    assert(enc.take(1) =~= seq![enc[0]]);
    let mut k: usize = 1;
    while k < parts.len()
        invariant
            string_views(parts@) == views,
            views == split_slash(s@),
            enc == views.map_values(|p: Seq<char>| percent_encoded(encode_utf8(p))),
            1 <= k <= parts.len(),
            out@ == join_slash(enc.take(k as int)),
        decreases parts.len() - k,
    {
        out.append("/");
        let e = encode_segment(parts[k].as_str());
        out.append(e.as_str());
        proof {
            reveal_strlit("/");
            assert(enc.take(k + 1).drop_last() =~= enc.take(k as int));
            assert(views[k as int] == parts@[k as int]@);
            assert(enc[k as int] == percent_encoded(encode_utf8(views[k as int])));
            assert(enc.take(k + 1).last() == enc[k as int]);
        }
        k = k + 1;
    }
    assert(enc.take(parts.len() as int) =~= enc);
    out
}

/// The `urlencode` template filter: percent-encodes each `/`-separated part of
/// a path and keeps the slashes, so that whole paths stay usable as links.
pub fn urlencode(s: &str) -> (r: Result<String, askama::Error>)
    ensures
        r matches Ok(e) && e@ == encoded_path(s@),
{
    Ok(encode_path(s))
}

/// The `round` template filter: the value as it is.
pub fn round(val: i64) -> (r: Result<i64, askama::Error>)
    ensures
        r matches Ok(v) && v == val,
{
    Ok(val)
}


/// No character is a slash.
pub open spec fn slash_free(p: Seq<char>) -> bool {
    forall|j: int| 0 <= j < p.len() ==> p[j] != '/'
}

proof fn lemma_hex_digit_not_slash(d: u8)
    requires
        d < 16,
    ensures
        hex_digit(d) != '/',
{
    let x: u8 = if d < 10 { (48 + d) as u8 } else { (55 + d) as u8 };
    assert((x as char) as u32 == x);
    assert('/' as u32 == 47);
}

/// Percent-encoding never writes a slash.
proof fn lemma_encoded_slash_free(bytes: Seq<u8>)
    ensures
        slash_free(percent_encoded(bytes)),
    decreases bytes.len(),
{
    if bytes.len() > 0 {
        lemma_encoded_slash_free(bytes.drop_last());
        let b = bytes.last();
        if is_unreserved(b) {
            assert((b as char) as u32 == b);
            assert('/' as u32 == 47);
        } else {
            lemma_hex_digit_not_slash(b / 16);
            lemma_hex_digit_not_slash(b % 16);
        }
        let e = percent_encoded(bytes);
        assert forall|j: int| 0 <= j < e.len() implies e[j] != '/' by {
            let a = percent_encoded(bytes.drop_last());
            if j >= a.len() {
                assert(e[j] == encoded_byte(b)[j - a.len()]);
            } else {
                assert(e[j] == a[j]);
            }
        }
    }
}

proof fn lemma_split_of_slash_free(e: Seq<char>)
    requires
        slash_free(e),
    ensures
        split_slash(e) == seq![e],
    decreases e.len(),
{
    if e.len() > 0 {
        lemma_split_of_slash_free(e.drop_last());
        assert(e.drop_last().push(e.last()) =~= e);
    } else {
        assert(e =~= Seq::<char>::empty());
    }
}

proof fn lemma_split_after_slash(a: Seq<char>, e: Seq<char>)
    requires
        slash_free(e),
    ensures
        split_slash(a + seq!['/'] + e) == split_slash(a).push(e),
    decreases e.len(),
{
    let s = a + seq!['/'] + e;
    if e.len() == 0 {
        assert(s.drop_last() =~= a);
        assert(e =~= Seq::<char>::empty());
    } else {
        lemma_split_after_slash(a, e.drop_last());
        assert(s.drop_last() =~= a + seq!['/'] + e.drop_last());
        assert(e.drop_last().push(e.last()) =~= e);
    }
}

proof fn lemma_split_join(parts: Seq<Seq<char>>)
    requires
        parts.len() >= 1,
        forall|i: int| 0 <= i < parts.len() ==> slash_free(#[trigger] parts[i]),
    ensures
        split_slash(join_slash(parts)) == parts,
    decreases parts.len(),
{
    if parts.len() == 1 {
        lemma_split_of_slash_free(parts[0]);
        assert(parts =~= seq![parts[0]]);
    } else {
        let init = parts.drop_last();
        assert forall|i: int| 0 <= i < init.len() implies slash_free(#[trigger] init[i]) by {
            assert(init[i] == parts[i]);
        }
        lemma_split_join(init);
        assert(slash_free(parts[parts.len() - 1]));
        lemma_split_after_slash(join_slash(init), parts.last());
        assert(init.push(parts.last()) =~= parts);
    }
}

/// The filter does not encode slashes: the `/`-separated parts of an encoded
/// path are exactly the encoded parts of the input path.
pub proof fn lemma_slashes_kept(s: Seq<char>)
    ensures
        split_slash(encoded_path(s)) == split_slash(s).map_values(
            |p: Seq<char>| percent_encoded(encode_utf8(p)),
        ),
{
    let enc = split_slash(s).map_values(|p: Seq<char>| percent_encoded(encode_utf8(p)));
    lemma_split_nonempty(s);
    assert forall|i: int| 0 <= i < enc.len() implies slash_free(#[trigger] enc[i]) by {
        lemma_encoded_slash_free(encode_utf8(split_slash(s)[i]));
    }
    lemma_split_join(enc);
}


/// A character that percent-encoding keeps.
pub open spec fn is_unreserved_char(c: char) -> bool {
    ||| ('0' <= c && c <= '9')
    ||| ('A' <= c && c <= 'Z')
    ||| ('a' <= c && c <= 'z')
    ||| c == '-'
    ||| c == '.'
    ||| c == '_'
    ||| c == '~'
}

/// All characters are kept by percent-encoding.
pub open spec fn all_unreserved(p: Seq<char>) -> bool {
    forall|j: int| 0 <= j < p.len() ==> is_unreserved_char(#[trigger] p[j])
}

proof fn lemma_percent_encoded_identity(bytes: Seq<u8>)
    requires
        forall|j: int| 0 <= j < bytes.len() ==> is_unreserved(#[trigger] bytes[j]),
    ensures
        percent_encoded(bytes) == Seq::new(bytes.len(), |j: int| bytes[j] as char),
    decreases bytes.len(),
{
    if bytes.len() > 0 {
        let init = bytes.drop_last();
        assert forall|j: int| 0 <= j < init.len() implies is_unreserved(#[trigger] init[j]) by {
            assert(init[j] == bytes[j]);
        }
        lemma_percent_encoded_identity(init);
        assert(is_unreserved(bytes[bytes.len() - 1]));
        assert(percent_encoded(bytes) =~= Seq::new(bytes.len(), |j: int| bytes[j] as char));
    } else {
        assert(percent_encoded(bytes) =~= Seq::new(bytes.len(), |j: int| bytes[j] as char));
    }
}

/// Percent-encoding leaves text of unreserved characters as it is.
pub proof fn lemma_unreserved_unchanged(p: Seq<char>)
    requires
        all_unreserved(p),
    ensures
        percent_encoded(encode_utf8(p)) == p,
{
    assert(is_ascii_chars(p)) by {
        assert forall|i: int| 0 <= i < p.len() implies '\0' <= #[trigger] p[i] <= '\u{7f}' by {
            assert(is_unreserved_char(p[i]));
        }
    }
    is_ascii_chars_encode_utf8(p);
    let bytes = encode_utf8(p);
    assert forall|j: int| 0 <= j < bytes.len() implies is_unreserved(#[trigger] bytes[j]) by {
        assert(p[j] as u8 == bytes[j]);
        assert(is_unreserved_char(p[j]));
        assert((p[j] as u32) < 128);
    }
    lemma_percent_encoded_identity(bytes);
    assert forall|j: int| 0 <= j < p.len() implies (bytes[j] as char) == p[j] by {
        assert(p[j] as u8 == bytes[j]);
        assert(is_unreserved_char(p[j]));
        assert(((p[j] as u8) as char) as u32 == p[j] as u32);
    }
    assert(percent_encoded(bytes) =~= p);
}

proof fn lemma_parts_unreserved(s: Seq<char>)
    requires
        forall|i: int| 0 <= i < s.len() ==> #[trigger] s[i] == '/' || is_unreserved_char(s[i]),
    ensures
        forall|k: int| 0 <= k < split_slash(s).len() ==> all_unreserved(#[trigger] split_slash(s)[k]),
    decreases s.len(),
{
    if s.len() > 0 {
        let init = s.drop_last();
        assert forall|i: int| 0 <= i < init.len() implies #[trigger] init[i] == '/'
            || is_unreserved_char(init[i]) by {
            assert(init[i] == s[i]);
        }
        lemma_parts_unreserved(init);
        lemma_split_nonempty(init);
        assert(s[s.len() - 1] == '/' || is_unreserved_char(s[s.len() - 1]));
        let parts = split_slash(init);
        if s.last() != '/' {
            let q = parts.last().push(s.last());
            assert(all_unreserved(parts[parts.len() - 1]));
            assert forall|j: int| 0 <= j < q.len() implies is_unreserved_char(#[trigger] q[j]) by {
                if j < q.len() - 1 {
                    assert(q[j] == parts[parts.len() - 1][j]);
                }
            }
        }
    }
}

proof fn lemma_join_split(s: Seq<char>)
    ensures
        join_slash(split_slash(s)) == s,
    decreases s.len(),
{
    if s.len() > 0 {
        let init = s.drop_last();
        lemma_join_split(init);
        lemma_split_nonempty(init);
        let parts = split_slash(init);
        if s.last() == '/' {
            assert(parts.push(Seq::<char>::empty()).drop_last() =~= parts);
            assert(init + seq!['/'] + Seq::<char>::empty() =~= s);
        } else {
            let q = parts.update(parts.len() - 1, parts.last().push(s.last()));
            if parts.len() == 1 {
                assert(q[0] =~= s);
            } else {
                assert(q.drop_last() =~= parts.drop_last());
                assert(join_slash(parts) == join_slash(parts.drop_last()) + seq!['/'] + parts.last());
                assert(q.last() == parts.last().push(s.last()));
                assert(join_slash(q) == join_slash(q.drop_last()) + seq!['/'] + q.last());
                assert(s =~= init.push(s.last()));
                assert(join_slash(q) =~= s);
            }
        }
    } else {
        assert(s =~= Seq::<char>::empty());
    }
}

/// A path made only of slashes and characters that need no encoding (such as
/// the server's own `.app_data/thumbnails/12.jpg`) passes through unchanged.
pub proof fn lemma_plain_path_unchanged(s: Seq<char>)
    requires
        forall|i: int| 0 <= i < s.len() ==> #[trigger] s[i] == '/' || is_unreserved_char(s[i]),
    ensures
        encoded_path(s) == s,
{
    lemma_parts_unreserved(s);
    let parts = split_slash(s);
    let enc = parts.map_values(|p: Seq<char>| percent_encoded(encode_utf8(p)));
    assert forall|k: int| 0 <= k < parts.len() implies enc[k] == parts[k] by {
        lemma_unreserved_unchanged(parts[k]);
    }
    assert(enc =~= parts);
    lemma_join_split(s);
}


/// Percent-encoding writes each byte it encodes as `%` followed by the byte's
/// two hexadecimal digits, high nibble first, in upper case.
pub proof fn lemma_hex_digits_upper_case(d: u8)
    requires
        d < 16,
    ensures
        hex_digit(d) == "0123456789ABCDEF"@[d as int],
{
    reveal_strlit("0123456789ABCDEF");
    let x: u8 = if d < 10 { (48 + d) as u8 } else { (55 + d) as u8 };
    assert((x as char) as u32 == x);
    let c = "0123456789ABCDEF"@[d as int];
    assert(c as u32 == x) by {
        if d == 0 { assert(c == '0'); } else if d == 1 { assert(c == '1'); } else if d == 2 { assert(c == '2'); }
        else if d == 3 { assert(c == '3'); } else if d == 4 { assert(c == '4'); } else if d == 5 { assert(c == '5'); }
        else if d == 6 { assert(c == '6'); } else if d == 7 { assert(c == '7'); } else if d == 8 { assert(c == '8'); }
        else if d == 9 { assert(c == '9'); } else if d == 10 { assert(c == 'A'); } else if d == 11 { assert(c == 'B'); }
        else if d == 12 { assert(c == 'C'); } else if d == 13 { assert(c == 'D'); } else if d == 14 { assert(c == 'E'); }
        else { assert(c == 'F'); }
    }
    assert(hex_digit(d) == x as char);
}

}
