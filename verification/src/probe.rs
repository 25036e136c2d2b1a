//! Reading a video's title, artist, album and duration from what the media
//! tool prints when it opens the file.
use vstd::prelude::*;
use crate::text::{
    chars_of, find_char, first_char, has_prefix, is_whitespace, is_ws, lemma_first_char,
    lemma_trim_start_skip, lines, lowercase_of, split_lines, starts_with, string_of, to_lowercase,
    trim, trim_bounds, trim_start, trimmed,
};
use vstd::utf8::{decode_utf8, encode_utf8, encode_utf8_decode_utf8, is_char_boundary};

verus! {

/// The view of an optional string.
pub open spec fn opt_view(o: Option<String>) -> Option<Seq<char>> {
    match o {
        Some(s) => Some(s@),
        None => None,
    }
}

/// What follows a metadata tag gives a value when it is optional white
/// space, a colon, and a value that is not blank once trimmed.
pub open spec fn meta_after(after: Seq<char>) -> Option<Seq<char>> {
    let a = trim_start(after);
    if a.len() > 0 && a[0] == ':' {
        let v = trim(a.drop_first());
        if v.len() > 0 {
            Some(v)
        } else {
            None
        }
    } else {
        None
    }
}

/// The line's text from byte `n` on.
pub open spec fn text_from_byte(line: Seq<char>, n: int) -> Seq<char> {
    decode_utf8(encode_utf8(line).subrange(n, encode_utf8(line).len() as int))
}

/// Where the lowercased line begins with the tag, the line itself can be cut
/// after as many bytes as the tag has.
pub open spec fn tag_cut_ok(line: Seq<char>, tag: Seq<char>) -> bool {
    starts_with(lowercase_of(line), tag) ==> is_char_boundary(
        encode_utf8(line),
        encode_utf8(tag).len() as int,
    )
}

/// The value of a metadata line `tag: value`: the lowercased line begins
/// with the tag, and what follows the tag's bytes in the line gives a value.
pub open spec fn meta_value(line: Seq<char>, tag: Seq<char>) -> Option<Seq<char>> {
    if starts_with(lowercase_of(line), tag) {
        meta_after(text_from_byte(line, encode_utf8(tag).len() as int))
    } else {
        None
    }
}

fn skip_space(v: &Vec<char>, from: usize) -> (k: usize)
    requires
        from <= v.len(),
    ensures
        from <= k <= v.len(),
        forall|j: int| from <= j < k ==> is_ws(#[trigger] v@[j]),
        k < v.len() ==> !is_ws(v@[k as int]),
{
    let mut k = from;
    while k < v.len() && is_whitespace(v[k])
        invariant
            from <= k <= v.len(),
            forall|j: int| from <= j < k ==> is_ws(#[trigger] v@[j]),
        decreases v.len() - k,
    {
        k = k + 1;
    }
    k
}

fn meta_after_of(v: &Vec<char>) -> (r: Option<String>)
    ensures
        opt_view(r) == meta_after(v@),
{
    let k = skip_space(v, 0);
    proof {
        lemma_trim_start_skip(v@, k as int);
        let t = v@.subrange(k as int, v@.len() as int);
        if t.len() > 0 {
            assert(t[0] == v@[k as int]);
        }
        assert(trim_start(t) == t);
    }
    if k >= v.len() || v[k] != ':' {
        return None;
    }
    let (lo, hi) = trim_bounds(v, k + 1, v.len());
    assert(v@.subrange(k as int, v@.len() as int).drop_first() =~= v@.subrange(
        k + 1,
        v@.len() as int,
    ));
    if lo == hi {
        None
    } else {
        Some(string_of(v, lo, hi))
    }
}

/// Whether the line can be cut after the tag's bytes wherever its lowercase
/// form begins with the tag.
pub fn tag_cut_possible(line: &str, tag: &str) -> (r: bool)
    ensures
        r == tag_cut_ok(line@, tag@),
{
    let lower = to_lowercase(line);
    let lv = chars_of(lower.as_str());
    let tv = chars_of(tag);
    if !has_prefix(&lv, &tv) {
        return true;
    }
    let n = tag.as_bytes().len();
    line.is_char_boundary(n)
}

/// The value of `line` under `tag`, as a metadata line of the media tool's
/// report: see `meta_value`.
pub fn strip_meta_tag(line: &str, tag: &str) -> (r: Option<String>)
    requires
        tag_cut_ok(line@, tag@),
    ensures
        opt_view(r) == meta_value(line@, tag@),
{
    let lower = to_lowercase(line);
    let lv = chars_of(lower.as_str());
    let tv = chars_of(tag);
    if !has_prefix(&lv, &tv) {
        return None;
    }
    let n = tag.as_bytes().len();
    let (_, tail) = line.split_at(n);
    proof {
        encode_utf8_decode_utf8(tail@);
        assert(encode_utf8(tail@) =~= encode_utf8(line@).subrange(
            n as int,
            encode_utf8(line@).len() as int,
        ));
    }
    let v = chars_of(tail);
    meta_after_of(&v)
}

/// The text up to the first comma, or all of it.
pub open spec fn before_comma(s: Seq<char>) -> Seq<char> {
    match first_char(s, ',') {
        Some(k) => s.subrange(0, k),
        None => s,
    }
}

/// The duration field of a report line: what follows `Duration:` up to the
/// first comma, trimmed.
pub open spec fn duration_field(line: Seq<char>) -> Option<Seq<char>> {
    if starts_with(line, "Duration:"@) {
        Some(trim(before_comma(line.subrange("Duration:"@.len() as int, line.len() as int))))
    } else {
        None
    }
}

fn duration_of(v: &Vec<char>) -> (r: Option<String>)
    ensures
        opt_view(r) == duration_field(v@),
{
    let label = chars_of("Duration:");
    if !crate::text::has_prefix(v, &label) {
        return None;
    }
    let from = label.len();
    let ghost rest = v@.subrange(from as int, v@.len() as int);
    proof {
        lemma_first_char(rest, ',');
    }
    let end = match find_char(v, ',', from) {
        Some(c) => {
            proof {
                if first_char(rest, ',') is None {
                    assert(rest[c - from] == v@[c as int]);
                }
                let k = first_char(rest, ',')->0;
                if k + from < c {
                    assert(rest[k] == v@[k + from]);
                }
                if k + from > c {
                    assert(rest[c - from] == v@[c as int]);
                }
                assert(before_comma(rest) =~= v@.subrange(from as int, c as int));
            }
            c
        },
        None => {
            proof {
                if first_char(rest, ',') is Some {
                    let k = first_char(rest, ',')->0;
                    assert(rest[k] == v@[k + from]);
                }
                assert(before_comma(rest) =~= v@.subrange(from as int, v@.len() as int));
            }
            v.len()
        },
    };
    let (lo, hi) = trim_bounds(v, from, end);
    Some(string_of(v, lo, hi))
}

/// The last value that one of the lines gives under `tag`, each line
/// trimmed first.
pub open spec fn last_meta(ls: Seq<Seq<char>>, tag: Seq<char>) -> Option<Seq<char>>
    decreases ls.len(),
{
    if ls.len() == 0 {
        None
    } else {
        match meta_value(trim(ls.last()), tag) {
            Some(v) => Some(v),
            None => last_meta(ls.drop_last(), tag),
        }
    }
}

/// The last duration field among the lines, each line trimmed first.
pub open spec fn last_duration(ls: Seq<Seq<char>>) -> Option<Seq<char>>
    decreases ls.len(),
{
    if ls.len() == 0 {
        None
    } else {
        match duration_field(trim(ls.last())) {
            Some(v) => Some(v),
            None => last_duration(ls.drop_last()),
        }
    }
}

/// The text of an optional value, empty when there is none.
pub open spec fn or_empty(o: Option<Seq<char>>) -> Seq<char> {
    match o {
        Some(v) => v,
        None => seq![],
    }
}

/// What a media report tells of a video.
#[derive(Clone, Debug)]
pub struct ProbeInfo {
    pub title: String,
    pub artist: String,
    pub album: String,
    /// The text of the last duration field, as `HH:MM:SS.ss`.
    pub duration: Option<String>,
}

fn or_new(o: Option<String>) -> (s: String)
    ensures
        s@ == or_empty(opt_view(o)),
{
    match o {
        Some(s) => s,
        None => String::new(),
    }
}

/// Every line of the report, trimmed, can be cut after each tag that its
/// lowercase form begins with.
pub open spec fn report_readable(ls: Seq<Seq<char>>) -> bool {
    forall|j: int|
        0 <= j < ls.len() ==> {
            &&& tag_cut_ok(trim(#[trigger] ls[j]), "title"@)
            &&& tag_cut_ok(trim(ls[j]), "artist"@)
            &&& tag_cut_ok(trim(ls[j]), "album"@)
        }
}

/// Reads a video's title, artist, album and duration text from the media
/// tool's report; for each, the last line that gives one wins. A report
/// with a line that cannot be cut after a tag it begins with gives nothing.
pub fn read_probe(report: &str) -> (r: Option<ProbeInfo>)
    ensures
        r is None <==> !report_readable(lines(report@)),
        r matches Some(info) ==> {
            &&& info.title@ == or_empty(last_meta(lines(report@), "title"@))
            &&& info.artist@ == or_empty(last_meta(lines(report@), "artist"@))
            &&& info.album@ == or_empty(last_meta(lines(report@), "album"@))
            &&& opt_view(info.duration) == last_duration(lines(report@))
        },
{
    let all = chars_of(report);
    let ls = split_lines(&all);
    let ghost lv = lines(report@);
    let mut title: Option<String> = None;
    let mut artist: Option<String> = None;
    let mut album: Option<String> = None;
    let mut duration: Option<String> = None;
    let mut i: usize = 0;
    while i < ls.len()
        invariant
            i <= ls@.len() == lv.len(),
            all@ == report@,
            lv == lines(report@),
            forall|j: int| 0 <= j < ls@.len() ==> #[trigger] ls@[j]@ == lv[j],
            report_readable(lv.subrange(0, i as int)),
            opt_view(title) == last_meta(lv.subrange(0, i as int), "title"@),
            opt_view(artist) == last_meta(lv.subrange(0, i as int), "artist"@),
            opt_view(album) == last_meta(lv.subrange(0, i as int), "album"@),
            opt_view(duration) == last_duration(lv.subrange(0, i as int)),
        decreases ls@.len() - i,
    {
        let t = trimmed(ls[i].as_str());
        let tv = chars_of(t.as_str());
        let ghost pre = lv.subrange(0, i + 1);
        proof {
            assert(pre.drop_last() =~= lv.subrange(0, i as int));
            assert(pre.last() == lv[i as int]);
        }
        if !(tag_cut_possible(t.as_str(), "title") && tag_cut_possible(t.as_str(), "artist")
            && tag_cut_possible(t.as_str(), "album")) {
            proof {
                assert(ls@[i as int]@ == lv[i as int]);
                assert(!report_readable(lv)) by {
                    assert(lv[i as int] == ls@[i as int]@);
                }
            }
            return None;
        }
        proof {
            assert forall|j: int| 0 <= j < pre.len() implies {
                &&& tag_cut_ok(trim(#[trigger] pre[j]), "title"@)
                &&& tag_cut_ok(trim(pre[j]), "artist"@)
                &&& tag_cut_ok(trim(pre[j]), "album"@)
            } by {
                if j < i {
                    assert(pre[j] == lv.subrange(0, i as int)[j]);
                }
            }
        }
        match duration_of(&tv) {
            Some(d) => {
                duration = Some(d);
            },
            None => {},
        }
        match strip_meta_tag(t.as_str(), "title") {
            Some(v) => {
                title = Some(v);
            },
            None => {},
        }
        match strip_meta_tag(t.as_str(), "artist") {
            Some(v) => {
                artist = Some(v);
            },
            None => {},
        }
        match strip_meta_tag(t.as_str(), "album") {
            Some(v) => {
                album = Some(v);
            },
            None => {},
        }
        i = i + 1;
    }
    assert(lv.subrange(0, ls@.len() as int) =~= lv);
    Some(ProbeInfo { title: or_new(title), artist: or_new(artist), album: or_new(album), duration })
}

} // verus!
