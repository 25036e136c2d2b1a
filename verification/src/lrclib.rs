//! Lyrics from LRCLIB: the search request, the choice among the records it
//! returns, and reading synced (LRC) and plain lyrics.
use vstd::prelude::*;
use crate::text::{
    lowercase_of, to_lowercase,
    chars_of, find_char_in, first_char, lines, owned, push_str, same_text, split_lines, string_of,
    trim, trim_bounds, trimmed,
};

verus! {

// ---------------------------------------------------------------------------
// The search request
// ---------------------------------------------------------------------------

/// A search is worth making only for a song with a title and a known
/// artist.
pub fn lyrics_query_allowed(title: &str, artist: &str) -> (r: bool)
    ensures
        r == (title@.len() > 0 && artist@ != "Unknown Artist"@),
{
    !title.is_empty() && !same_text(artist, "Unknown Artist")
}

/// The byte is kept as it is by percent-encoding: an ASCII letter or digit,
/// `-`, `.`, `_` or `~`.
pub open spec fn unreserved(b: u8) -> bool {
    ||| (48 <= b && b <= 57)
    ||| (65 <= b && b <= 90)
    ||| (97 <= b && b <= 122)
    ||| b == 45
    ||| b == 46
    ||| b == 95
    ||| b == 126
}

/// The uppercase hexadecimal digit for a value below sixteen.
pub open spec fn upper_hex(v: int) -> char {
    if v < 10 {
        (('0' as int) + v) as char
    } else {
        (('A' as int) + v - 10) as char
    }
}

/// Percent-encoding of the bytes `b`: unreserved bytes stay, every other
/// byte becomes `%` and two uppercase hexadecimal digits.
pub open spec fn url_encoded(b: Seq<u8>) -> Seq<char>
    decreases b.len(),
{
    if b.len() == 0 {
        seq![]
    } else {
        url_encoded(b.drop_last()) + if unreserved(b.last()) {
            seq![(b.last() as u32) as char]
        } else {
            seq!['%', upper_hex((b.last() / 16) as int), upper_hex((b.last() % 16) as int)]
        }
    }
}

/// Percent-encodes the UTF-8 bytes of `s` with `urlencoding::encode`, which
/// keeps ASCII letters, digits and `-._~` and writes every other byte as `%`
/// followed by two uppercase hexadecimal digits.
#[verifier::external_body]
fn url_encode(s: &str) -> (out: String)
    ensures
        out@ == url_encoded(vstd::utf8::encode_utf8(s@)),
{
    urlencoding::encode(s).into_owned()
}

/// The LRCLIB search address for a title and an artist.
pub fn search_url(title: &str, artist: &str) -> (u: String)
    ensures
        u@ == "https://lrclib.net/api/search?track_name="@ + url_encoded(vstd::utf8::encode_utf8(title@))
            + "&artist_name="@ + url_encoded(vstd::utf8::encode_utf8(artist@)),
{
    let t = url_encode(title);
    let a = url_encode(artist);
    let mut u = owned("https://lrclib.net/api/search?track_name=");
    push_str(&mut u, t.as_str());
    push_str(&mut u, "&artist_name=");
    push_str(&mut u, a.as_str());
    u
}

// ---------------------------------------------------------------------------
// Choosing a record
// ---------------------------------------------------------------------------

/// What a search result offers.
#[derive(Clone, Copy, Debug)]
pub struct LyricsRecord {
    /// It has non-empty plain lyrics.
    pub has_plain: bool,
    /// It has non-empty synced lyrics.
    pub has_synced: bool,
    /// Its album name, lowercased, equals the song's album, lowercased.
    pub album_matches: bool,
    /// Ten times the difference between its duration and the song's, in
    /// seconds, cut to an integer.
    pub duration_penalty: i64,
}

/// A record's album matches the song's when both lowercase to the same
/// text; a record without an album never matches.
pub fn album_matches(record_album: Option<&str>, song_album: &str) -> (r: bool)
    ensures
        r == (record_album matches Some(a) && lowercase_of(a@) == lowercase_of(song_album@)),
{
    match record_album {
        Some(a) => {
            let x = to_lowercase(a);
            let y = to_lowercase(song_album);
            same_text(x.as_str(), y.as_str())
        },
        None => false,
    }
}

/// The record has lyrics of either kind.
pub open spec fn eligible(r: LyricsRecord) -> bool {
    r.has_plain || r.has_synced
}

/// The record's rank; lower is better. Synced lyrics weigh most, then a
/// matching album, then how close the duration is.
pub open spec fn rank(r: LyricsRecord) -> int {
    (if r.has_synced {
        0int
    } else {
        10000int
    }) + (if r.album_matches {
        0int
    } else {
        5000int
    }) + r.duration_penalty
}

/// The rank fits the integers the ranking is computed in.
pub open spec fn rankable(r: LyricsRecord) -> bool {
    r.duration_penalty <= i64::MAX - 15000
}

fn rank_of(r: &LyricsRecord) -> (k: i64)
    requires
        rankable(*r),
    ensures
        k == rank(*r),
{
    let synced: i64 = if r.has_synced {
        0
    } else {
        10000
    };
    let album: i64 = if r.album_matches {
        0
    } else {
        5000
    };
    if r.duration_penalty < 0 {
        synced + album + r.duration_penalty
    } else {
        r.duration_penalty + (synced + album)
    }
}

/// The record to use: among those with lyrics, the first of the best
/// ranked.
pub fn choose_record(records: &Vec<LyricsRecord>) -> (r: Option<usize>)
    requires
        forall|i: int| 0 <= i < records@.len() ==> rankable(#[trigger] records@[i]),
    ensures
        match r {
            Some(k) => {
                &&& k < records@.len()
                &&& eligible(records@[k as int])
                &&& forall|j: int|
                    0 <= j < records@.len() && eligible(#[trigger] records@[j]) ==> rank(
                        records@[k as int],
                    ) <= rank(records@[j])
                &&& forall|j: int|
                    0 <= j < k && eligible(#[trigger] records@[j]) ==> rank(records@[k as int])
                        < rank(records@[j])
            },
            None => forall|j: int| 0 <= j < records@.len() ==> !eligible(#[trigger] records@[j]),
        },
{
    let mut best: Option<usize> = None;
    let mut best_rank: i64 = 0;
    let mut i: usize = 0;
    while i < records.len()
        invariant
            i <= records@.len(),
            forall|j: int| 0 <= j < records@.len() ==> rankable(#[trigger] records@[j]),
            match best {
                Some(k) => {
                    &&& k < i
                    &&& eligible(records@[k as int])
                    &&& best_rank == rank(records@[k as int])
                    &&& forall|j: int|
                        0 <= j < i && eligible(#[trigger] records@[j]) ==> rank(records@[k as int])
                            <= rank(records@[j])
                    &&& forall|j: int|
                        0 <= j < k && eligible(#[trigger] records@[j]) ==> rank(
                            records@[k as int],
                        ) < rank(records@[j])
                },
                None => forall|j: int| 0 <= j < i ==> !eligible(#[trigger] records@[j]),
            },
        decreases records@.len() - i,
    {
        let r = records[i];
        assert(rankable(records@[i as int]));
        if r.has_plain || r.has_synced {
            let k = rank_of(&r);
            match best {
                None => {
                    best = Some(i);
                    best_rank = k;
                },
                Some(_) => {
                    if k < best_rank {
                        best = Some(i);
                        best_rank = k;
                    }
                },
            }
        }
        i = i + 1;
    }
    best
}

/// How two records compare: synced lyrics outweigh a matching album by a
/// duration penalty of 10000, and a matching album outweighs another one by
/// a penalty of 5000; otherwise the lower penalty ranks better.
pub proof fn law_rank_weights(a: LyricsRecord, b: LyricsRecord)
    ensures
        a.has_synced == b.has_synced && a.album_matches == b.album_matches ==> (rank(a) < rank(b)
            <==> a.duration_penalty < b.duration_penalty),
        a.has_synced == b.has_synced && a.album_matches && !b.album_matches ==> (rank(a) < rank(b)
            <==> a.duration_penalty < b.duration_penalty + 5000),
        a.has_synced && !b.has_synced && a.album_matches == b.album_matches ==> (rank(a) < rank(b)
            <==> a.duration_penalty < b.duration_penalty + 10000),
        a.has_synced && !b.has_synced && !a.album_matches && b.album_matches ==> (rank(a) < rank(
            b,
        ) <==> a.duration_penalty < b.duration_penalty + 5000),
        a.has_synced && !b.has_synced && a.album_matches && !b.album_matches ==> (rank(a) < rank(
            b,
        ) <==> a.duration_penalty < b.duration_penalty + 15000),
{
}

/// Synced lyrics are preferred whatever the albums: when a record with
/// synced lyrics has a duration penalty less than 5000 above that of every
/// other record with lyrics, the record chosen (a best ranked one with
/// lyrics, as `choose_record` returns) has synced lyrics.
pub proof fn law_synced_lyrics_preferred(records: Seq<LyricsRecord>, k: int, s: int)
    requires
        0 <= k < records.len(),
        eligible(records[k]),
        forall|j: int|
            0 <= j < records.len() && eligible(#[trigger] records[j]) ==> rank(records[k]) <= rank(
                records[j],
            ),
        0 <= s < records.len(),
        records[s].has_synced,
        forall|j: int|
            0 <= j < records.len() && j != s && eligible(#[trigger] records[j])
                ==> records[s].duration_penalty < records[j].duration_penalty + 5000,
    ensures
        records[k].has_synced,
{
    assert(eligible(records[s]));
    if k != s && !records[k].has_synced {
        assert(rank(records[k]) <= rank(records[s]));
        assert(records[s].duration_penalty < records[k].duration_penalty + 5000);
    }
}

// ---------------------------------------------------------------------------
// Synced (LRC) lyrics
// ---------------------------------------------------------------------------

/// A timed line of synced lyrics: the minutes and seconds of its time tag,
/// as written, and its text.
#[derive(Clone, Debug)]
pub struct LrcEntry {
    pub minutes: String,
    pub seconds: String,
    pub text: String,
}

/// What a trimmed line of LRC gives: a `[minutes:seconds]` tag followed by
/// non-empty text. The tag runs from the second character up to the first
/// `]`; its minutes run up to its first `:`.
pub open spec fn lrc_line(t: Seq<char>) -> Option<(Seq<char>, Seq<char>, Seq<char>)> {
    if t.len() == 0 {
        None
    } else {
        match first_char(t, ']') {
            None => None,
            Some(close) => {
                let tag = t.subrange(1, close);
                let text = trim(t.subrange(close + 1, t.len() as int));
                if text.len() == 0 {
                    None
                } else {
                    match first_char(tag, ':') {
                        None => None,
                        Some(c) => Some(
                            (tag.subrange(0, c), tag.subrange(c + 1, tag.len() as int), text),
                        ),
                    }
                }
            },
        }
    }
}

/// A trimmed line can be read without slicing text apart in the middle of a
/// character: when it holds a `]`, it starts with an ASCII character other
/// than `]`.
pub open spec fn lrc_line_readable(t: Seq<char>) -> bool {
    t.len() == 0 || first_char(t, ']') is None || (t[0] != ']' && (t[0] as u32) < 128)
}

/// Every line of the lyrics is readable.
pub open spec fn lrc_readable(lrc: Seq<char>) -> bool {
    forall|i: int| 0 <= i < lines(lrc).len() ==> lrc_line_readable(trim(#[trigger] lines(lrc)[i]))
}

/// The entries that the lines give, in order.
pub open spec fn lrc_entries_spec(ls: Seq<Seq<char>>) -> Seq<(Seq<char>, Seq<char>, Seq<char>)>
    decreases ls.len(),
{
    if ls.len() == 0 {
        seq![]
    } else {
        let rest = lrc_entries_spec(ls.drop_last());
        match lrc_line(trim(ls.last())) {
            Some(e) => rest.push(e),
            None => rest,
        }
    }
}

/// The view of an entry.
pub open spec fn entry_view(e: LrcEntry) -> (Seq<char>, Seq<char>, Seq<char>) {
    (e.minutes@, e.seconds@, e.text@)
}

fn first_ascii_below(v: &Vec<char>, i: usize) -> (r: bool)
    requires
        i < v.len(),
    ensures
        r == ((v@[i as int] as u32) < 128),
{
    (v[i] as u32) < 128
}

fn readable_line(line: &str) -> (r: bool)
    ensures
        r == lrc_line_readable(trim(line@)),
{
    let v = chars_of(line);
    let (lo, hi) = trim_bounds(&v, 0, v.len());
    assert(v@.subrange(0, v.len() as int) =~= v@);
    let ghost t = v@.subrange(lo as int, hi as int);
    if lo == hi {
        return true;
    }
    let w = crate::text::chars_of(string_of(&v, lo, hi).as_str());
    assert(w@ == t);
    match find_char_in(&w, ']', 0) {
        None => {
            assert(w@.subrange(0, w.len() as int) =~= t);
            true
        },
        Some(_) => {
            assert(w@.subrange(0, w.len() as int) =~= t);
            w[0] != ']' && first_ascii_below(&w, 0)
        },
    }
}

/// Whether every line of the lyrics can be read.
pub fn lrc_is_readable(lrc: &str) -> (r: bool)
    ensures
        r == lrc_readable(lrc@),
{
    let v = chars_of(lrc);
    let ls = split_lines(&v);
    let mut i: usize = 0;
    while i < ls.len()
        invariant
            i <= ls@.len(),
            v@ == lrc@,
            ls@.len() == lines(v@).len(),
            forall|j: int| 0 <= j < ls@.len() ==> #[trigger] ls@[j]@ == lines(v@)[j],
            forall|j: int| 0 <= j < i ==> lrc_line_readable(trim(#[trigger] lines(v@)[j])),
        decreases ls@.len() - i,
    {
        assert(ls@[i as int]@ == lines(v@)[i as int]);
        if !readable_line(ls[i].as_str()) {
            return false;
        }
        i = i + 1;
    }
    true
}

fn lrc_entry_of(line: &str) -> (r: Option<LrcEntry>)
    requires
        lrc_line_readable(trim(line@)),
    ensures
        match lrc_line(trim(line@)) {
            Some(e) => r matches Some(x) && entry_view(x) == e,
            None => r is None,
        },
{
    let t = trimmed(line);
    let v = chars_of(t.as_str());
    assert(v@ == trim(line@));
    if v.len() == 0 {
        return None;
    }
    let close = match find_char_in(&v, ']', 0) {
        None => {
            assert(v@.subrange(0, v.len() as int) =~= v@);
            return None;
        },
        Some(c) => c,
    };
    assert(v@.subrange(0, v.len() as int) =~= v@);
    if close == 0 {
        proof {
            assert(first_char(v@, ']') == Some(0int));
            crate::text::lemma_first_match_matches(v@, seq![']']);
            assert(v@.subrange(0, 1)[0] == v@[0]);
        }
        return None;
    }
    let (lo, hi) = trim_bounds(&v, close + 1, v.len());
    if lo == hi {
        return None;
    }
    let colon = match find_char_in(&v, ':', 1) {
        None => {
            proof {
                let tag = v@.subrange(1, close as int);
                crate::text::lemma_first_char_within(v@, 1, close as int, ':');
            }
            return None;
        },
        Some(c) => c,
    };
    proof {
        crate::text::lemma_first_char_within(v@, 1, close as int, ':');
    }
    if colon >= close {
        return None;
    }
    let tag_len = close - 1;
    let ghost tag = v@.subrange(1, close as int);
    assert(tag.subrange(0, colon - 1) =~= v@.subrange(1, colon as int));
    assert(tag.subrange(colon - 1 + 1, tag.len() as int) =~= v@.subrange(colon + 1, close as int));
    Some(
        LrcEntry {
            minutes: string_of(&v, 1, colon),
            seconds: string_of(&v, colon + 1, close),
            text: string_of(&v, lo, hi),
        },
    )
}

/// Reads the timed lines of synced lyrics: each trimmed line that starts
/// with a `[minutes:seconds]` tag and has text after it.
pub fn lrc_entries(lrc: &str) -> (out: Vec<LrcEntry>)
    requires
        lrc_readable(lrc@),
    ensures
        out@.map_values(|e: LrcEntry| entry_view(e)) == lrc_entries_spec(lines(lrc@)),
{
    let v = chars_of(lrc);
    let ls = split_lines(&v);
    let mut out: Vec<LrcEntry> = Vec::new();
    let mut i: usize = 0;
    while i < ls.len()
        invariant
            i <= ls@.len(),
            v@ == lrc@,
            lrc_readable(lrc@),
            ls@.len() == lines(v@).len(),
            forall|j: int| 0 <= j < ls@.len() ==> #[trigger] ls@[j]@ == lines(v@)[j],
            out@.map_values(|e: LrcEntry| entry_view(e)) == lrc_entries_spec(
                lines(v@).subrange(0, i as int),
            ),
        decreases ls@.len() - i,
    {
        assert(ls@[i as int]@ == lines(v@)[i as int]);
        let e = lrc_entry_of(ls[i].as_str());
        proof {
            let s = lines(v@).subrange(0, i + 1);
            assert(s.drop_last() =~= lines(v@).subrange(0, i as int));
            assert(s.last() == lines(v@)[i as int]);
        }
        match e {
            Some(x) => {
                out.push(x);
                assert(out@.map_values(|e: LrcEntry| entry_view(e)) =~= lrc_entries_spec(
                    lines(v@).subrange(0, i + 1),
                ));
            },
            None => {},
        }
        i = i + 1;
    }
    assert(lines(v@).subrange(0, ls@.len() as int) =~= lines(v@));
    out
}

// ---------------------------------------------------------------------------
// Plain lyrics
// ---------------------------------------------------------------------------

/// The lines of plain lyrics, trimmed, without the empty ones.
pub open spec fn plain_lines_spec(ls: Seq<Seq<char>>) -> Seq<Seq<char>>
    decreases ls.len(),
{
    if ls.len() == 0 {
        seq![]
    } else {
        let rest = plain_lines_spec(ls.drop_last());
        if trim(ls.last()).len() > 0 {
            rest.push(trim(ls.last()))
        } else {
            rest
        }
    }
}

/// Reads plain lyrics: their lines, trimmed, leaving out the empty ones.
pub fn plain_lines(plain: &str) -> (out: Vec<String>)
    ensures
        out@.map_values(|s: String| s@) == plain_lines_spec(lines(plain@)),
{
    let v = chars_of(plain);
    let ls = split_lines(&v);
    let mut out: Vec<String> = Vec::new();
    let mut i: usize = 0;
    while i < ls.len()
        invariant
            i <= ls@.len(),
            v@ == plain@,
            ls@.len() == lines(v@).len(),
            forall|j: int| 0 <= j < ls@.len() ==> #[trigger] ls@[j]@ == lines(v@)[j],
            out@.map_values(|s: String| s@) == plain_lines_spec(lines(v@).subrange(0, i as int)),
        decreases ls@.len() - i,
    {
        assert(ls@[i as int]@ == lines(v@)[i as int]);
        let t = trimmed(ls[i].as_str());
        proof {
            let s = lines(v@).subrange(0, i + 1);
            assert(s.drop_last() =~= lines(v@).subrange(0, i as int));
            assert(s.last() == lines(v@)[i as int]);
        }
        if !t.as_str().is_empty() {
            out.push(t);
            assert(out@.map_values(|s: String| s@) =~= plain_lines_spec(
                lines(v@).subrange(0, i + 1),
            ));
        }
        i = i + 1;
    }
    assert(lines(v@).subrange(0, ls@.len() as int) =~= lines(v@));
    out
}

} // verus!
