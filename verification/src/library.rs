//! The song library: what is known of each song, how songs are named and
//! ordered, which files count as songs, and how a song's analysis status
//! moves.
use vstd::prelude::*;
use crate::order::{lemma_lt_irreflexive, lemma_lt_total, lemma_lt_transitive, lt_chars, text_lt};
use crate::paths::{extension, extension_spec, file_stem, file_stem_spec};
use crate::text::{
    ascii_lower, chars_of, eq_ignore_ascii_case, hex_digit, owned, push_decimal, push_str,
    to_ascii_lower,
};

verus! {

/// Where a song's lyrics came from.
#[derive(Clone, Copy, Debug, PartialEq, Eq, Structural)]
pub enum TranscriptSource {
    /// Fetched, timed lyrics aligned to the vocals.
    Lyrics,
    /// Transcribed from the vocals.
    Generated,
}

/// How far a song's analysis has got.
#[derive(Clone, Debug)]
pub enum AnalysisStatus {
    NotAnalyzed,
    Queued,
    Analyzing,
    Ready(TranscriptSource),
    Failed(String),
}

impl AnalysisStatus {
    /// A copy of this status.
    pub fn copy(&self) -> (c: AnalysisStatus)
        ensures
            c == *self,
    {
        match self {
            AnalysisStatus::NotAnalyzed => AnalysisStatus::NotAnalyzed,
            AnalysisStatus::Queued => AnalysisStatus::Queued,
            AnalysisStatus::Analyzing => AnalysisStatus::Analyzing,
            AnalysisStatus::Ready(s) => AnalysisStatus::Ready(*s),
            AnalysisStatus::Failed(m) => AnalysisStatus::Failed(m.clone()),
        }
    }
}

/// A song of the library.
#[derive(Clone, Debug)]
pub struct Song {
    pub path: String,
    pub file_hash: String,
    pub title: String,
    pub artist: String,
    pub album: String,
    pub analysis_status: AnalysisStatus,
    pub language: Option<String>,
    pub is_video: bool,
}

/// The title shown for a song: its tag, or else its file stem, or else
/// "Unknown".
pub open spec fn display_title_spec(s: Song, windows: bool) -> Seq<char> {
    if s.title@.len() > 0 {
        s.title@
    } else {
        match file_stem_spec(s.path@, windows) {
            Some(stem) => stem,
            None => "Unknown"@,
        }
    }
}

/// The artist shown for a song: its tag, or else "Unknown Artist".
pub open spec fn display_artist_spec(s: Song) -> Seq<char> {
    if s.artist@.len() > 0 {
        s.artist@
    } else {
        "Unknown Artist"@
    }
}

impl Song {
    /// The title to show.
    pub fn display_title(&self, windows: bool) -> (t: String)
        ensures
            t@ == display_title_spec(*self, windows),
    {
        if self.title.as_str().is_empty() {
            match file_stem(self.path.as_str(), windows) {
                Some(stem) => stem,
                None => owned("Unknown"),
            }
        } else {
            self.title.clone()
        }
    }

    /// The artist to show.
    pub fn display_artist(&self) -> (a: String)
        ensures
            a@ == display_artist_spec(*self),
    {
        if self.artist.as_str().is_empty() {
            owned("Unknown Artist")
        } else {
            self.artist.clone()
        }
    }

    /// A copy of this song.
    pub fn copy(&self) -> (c: Song)
        ensures
            c == *self,
    {
        Song {
            path: self.path.clone(),
            file_hash: self.file_hash.clone(),
            title: self.title.clone(),
            artist: self.artist.clone(),
            album: self.album.clone(),
            analysis_status: self.analysis_status.copy(),
            language: match &self.language {
                Some(l) => Some(l.clone()),
                None => None,
            },
            is_video: self.is_video,
        }
    }
}

// ---------------------------------------------------------------------------
// Which files are songs
// ---------------------------------------------------------------------------

/// The audio formats the library plays, by file extension.
pub open spec fn audio_extensions() -> Seq<Seq<char>> {
    seq!["mp3"@, "flac"@, "ogg"@, "wav"@, "m4a"@, "aac"@, "wma"@]
}

/// The file's extension, compared without ASCII case, is one of the audio
/// formats.
pub open spec fn is_audio_path(path: Seq<char>, windows: bool) -> bool {
    has_extension_in(path, windows, audio_extensions())
}

fn eq_ascii_ci(a: &Vec<char>, b: &str) -> (r: bool)
    ensures
        r == eq_ignore_ascii_case(a@, b@),
{
    let w = chars_of(b);
    if a.len() != w.len() {
        return false;
    }
    let mut i: usize = 0;
    while i < a.len()
        invariant
            a.len() == w.len(),
            w@ == b@,
            i <= a.len(),
            forall|j: int| 0 <= j < i ==> ascii_lower(#[trigger] a@[j]) == ascii_lower(w@[j]),
        decreases a.len() - i,
    {
        if to_ascii_lower(a[i]) != to_ascii_lower(w[i]) {
            return false;
        }
        i = i + 1;
    }
    true
}

/// The file's extension is one of `exts`, letters compared without case.
pub open spec fn has_extension_in(path: Seq<char>, windows: bool, exts: Seq<Seq<char>>) -> bool {
    match extension_spec(path, windows) {
        Some(e) => exists|i: int| 0 <= i < exts.len() && eq_ignore_ascii_case(e, #[trigger] exts[i]),
        None => false,
    }
}

fn extension_among(path: &str, windows: bool, exts: &Vec<&str>) -> (r: bool)
    ensures
        r == has_extension_in(path@, windows, exts@.map_values(|s: &str| s@)),
{
    let ghost names = exts@.map_values(|s: &str| s@);
    match extension(path, windows) {
        None => false,
        Some(e) => {
            let v = chars_of(e.as_str());
            let mut i: usize = 0;
            while i < exts.len()
                invariant
                    i <= exts.len(),
                    v@ == e@,
                    extension_spec(path@, windows) == Some(e@),
                    names == exts@.map_values(|s: &str| s@),
                    forall|j: int| 0 <= j < i ==> !eq_ignore_ascii_case(e@, #[trigger] names[j]),
                decreases exts.len() - i,
            {
                assert(names[i as int] == exts@[i as int]@);
                if eq_ascii_ci(&v, exts[i]) {
                    assert(eq_ignore_ascii_case(e@, names[i as int]));
                    return true;
                }
                i = i + 1;
            }
            false
        },
    }
}

/// Whether the file at `path` is in one of the audio formats.
pub fn is_audio_file(path: &str, windows: bool) -> (r: bool)
    ensures
        r == is_audio_path(path@, windows),
{
    let exts = vec!["mp3", "flac", "ogg", "wav", "m4a", "aac", "wma"];
    assert(exts@.map_values(|s: &str| s@) =~= audio_extensions());
    extension_among(path, windows, &exts)
}

/// The video formats a library may hold.
pub open spec fn video_extensions() -> Seq<Seq<char>> {
    seq!["mp4"@, "mkv"@, "avi"@, "webm"@, "mov"@, "m4v"@]
}

/// Whether the file at `path` is in one of the video formats.
pub fn is_video_file(path: &str, windows: bool) -> (r: bool)
    ensures
        r == has_extension_in(path@, windows, video_extensions()),
{
    let exts = vec!["mp4", "mkv", "avi", "webm", "mov", "m4v"];
    assert(exts@.map_values(|s: &str| s@) =~= video_extensions());
    extension_among(path, windows, &exts)
}

// ---------------------------------------------------------------------------
// Order of the library
// ---------------------------------------------------------------------------

/// `a` sorts after `b`: by display artist, then by display title.
pub open spec fn song_after(a: Song, b: Song, windows: bool) -> bool {
    ||| text_lt(display_artist_spec(b), display_artist_spec(a))
    ||| (display_artist_spec(a) == display_artist_spec(b) && text_lt(
        display_title_spec(b, windows),
        display_title_spec(a, windows),
    ))
}

/// Where an insertion into the sorted `s` puts `x`: after every song that
/// does not sort after `x`.
pub open spec fn insert_pos(s: Seq<Song>, x: Song, windows: bool) -> int
    decreases s.len(),
{
    if s.len() == 0 {
        0
    } else if song_after(s.last(), x, windows) {
        insert_pos(s.drop_last(), x, windows)
    } else {
        s.len() as int
    }
}

/// `s` with `x` inserted in its place.
pub open spec fn insert_sorted(s: Seq<Song>, x: Song, windows: bool) -> Seq<Song> {
    let p = insert_pos(s, x, windows);
    s.subrange(0, p) + seq![x] + s.subrange(p, s.len() as int)
}

/// The library in display order. Songs that compare equal keep their
/// relative order, as a stable sort leaves them.
pub open spec fn sorted_songs(s: Seq<Song>, windows: bool) -> Seq<Song>
    decreases s.len(),
{
    if s.len() == 0 {
        seq![]
    } else {
        insert_sorted(sorted_songs(s.drop_last(), windows), s.last(), windows)
    }
}

proof fn lemma_insert_pos_bounds(s: Seq<Song>, x: Song, windows: bool)
    ensures
        0 <= insert_pos(s, x, windows) <= s.len(),
    decreases s.len(),
{
    if s.len() > 0 && song_after(s.last(), x, windows) {
        lemma_insert_pos_bounds(s.drop_last(), x, windows);
    }
}

proof fn lemma_sorted_len(s: Seq<Song>, windows: bool)
    ensures
        sorted_songs(s, windows).len() == s.len(),
    decreases s.len(),
{
    if s.len() > 0 {
        lemma_sorted_len(s.drop_last(), windows);
        lemma_insert_pos_bounds(sorted_songs(s.drop_last(), windows), s.last(), windows);
    }
}

/// The sort keys of a song.
struct SongKey {
    artist: Vec<char>,
    title: Vec<char>,
}

spec fn key_matches(k: SongKey, s: Song, windows: bool) -> bool {
    k.artist@ == display_artist_spec(s) && k.title@ == display_title_spec(s, windows)
}

spec fn keys_match(keys: Seq<SongKey>, out: Seq<Song>, windows: bool) -> bool {
    keys.len() == out.len() && forall|j: int|
        0 <= j < keys.len() ==> key_matches(#[trigger] keys[j], out[j], windows)
}

fn key_of(s: &Song, windows: bool) -> (k: SongKey)
    ensures
        k.artist@ == display_artist_spec(*s),
        k.title@ == display_title_spec(*s, windows),
{
    let a = s.display_artist();
    let t = s.display_title(windows);
    SongKey { artist: chars_of(a.as_str()), title: chars_of(t.as_str()) }
}

fn key_after(a: &SongKey, b: &SongKey) -> (r: bool)
    ensures
        r == (text_lt(b.artist@, a.artist@) || (a.artist@ == b.artist@ && text_lt(
            b.title@,
            a.title@,
        ))),
{
    if lt_chars(&b.artist, &a.artist) {
        return true;
    }
    if crate::text::same_chars(&a.artist, &b.artist) {
        return lt_chars(&b.title, &a.title);
    }
    false
}

/// Sorts the library by display artist, then display title, keeping songs
/// that compare equal in their order.
pub fn sort_songs(songs: Vec<Song>, windows: bool) -> (out: Vec<Song>)
    ensures
        out@ == sorted_songs(songs@, windows),
{
    let mut out: Vec<Song> = Vec::new();
    let mut keys: Vec<SongKey> = Vec::new();
    let mut i: usize = 0;
    while i < songs.len()
        invariant
            i <= songs.len(),
            out@ == sorted_songs(songs@.subrange(0, i as int), windows),
            keys@.len() == out@.len(),
            keys_match(keys@, out@, windows),
        decreases songs.len() - i,
    {
        let x = songs[i].copy();
        let kx = key_of(&x, windows);
        proof {
            let pre = songs@.subrange(0, i + 1);
            assert(pre.drop_last() =~= songs@.subrange(0, i as int));
            assert(pre.last() == x);
        }
        let mut p = out.len();
        assert(out@.subrange(0, p as int) =~= out@);
        while p > 0 && key_after(&keys[p - 1], &kx)
            invariant
                p <= out@.len(),
                keys@.len() == out@.len(),
                kx.artist@ == display_artist_spec(x),
                kx.title@ == display_title_spec(x, windows),
                keys_match(keys@, out@, windows),
                insert_pos(out@, x, windows) == insert_pos(out@.subrange(0, p as int), x, windows),
            decreases p,
        {
            proof {
                assert(key_matches(keys@[p - 1], out@[p - 1], windows));
                let s = out@.subrange(0, p as int);
                assert(s.last() == out@[p - 1]);
                assert(s.drop_last() =~= out@.subrange(0, p - 1));
            }
            p = p - 1;
        }
        proof {
            let s = out@.subrange(0, p as int);
            if p > 0 {
                assert(s.last() == out@[p - 1]);
                assert(key_matches(keys@[p - 1], out@[p - 1], windows));
            }
            assert(insert_pos(out@, x, windows) == p);
        }
        let ghost before = out@;
        out.insert(p, x);
        keys.insert(p, kx);
        proof {
            assert(out@ =~= insert_sorted(before, x, windows));
            assert forall|j: int| 0 <= j < keys@.len() implies key_matches(
                #[trigger] keys@[j],
                out@[j],
                windows,
            ) by {
                if j < p {
                } else if j == p {
                } else {
                    assert(out@[j] == before[j - 1]);
                }
            }
        }
        i = i + 1;
    }
    assert(songs@.subrange(0, songs.len() as int) =~= songs@);
    out
}

/// The sorted library is in order: no song sorts after the one that follows
/// it.
pub proof fn law_sorted_in_order(s: Seq<Song>, windows: bool, i: int)
    requires
        0 <= i && i + 1 < s.len(),
    ensures
        !song_after(sorted_songs(s, windows)[i], sorted_songs(s, windows)[i + 1], windows),
{
    lemma_sorted_len(s, windows);
    lemma_sorted_ordered(s, windows);
}

/// Sorting keeps every song: the sorted library holds each song exactly as
/// often as the library does.
pub proof fn law_sort_is_permutation(s: Seq<Song>, windows: bool)
    ensures
        sorted_songs(s, windows).to_multiset() == s.to_multiset(),
    decreases s.len(),
{
    if s.len() > 0 {
        let r = sorted_songs(s.drop_last(), windows);
        let x = s.last();
        law_sort_is_permutation(s.drop_last(), windows);
        lemma_insert_pos_bounds(r, x, windows);
        let p = insert_pos(r, x, windows);
        assert(insert_sorted(r, x, windows) =~= r.insert(p, x));
        vstd::seq_lib::to_multiset_insert(r, p, x);
        vstd::seq_lib::to_multiset_build(s.drop_last(), x);
        assert(s.drop_last().push(x) =~= s);
        assert(sorted_songs(s, windows) == r.insert(p, x));
        assert(sorted_songs(s, windows).to_multiset() =~= s.to_multiset());
    } else {
        assert(s =~= Seq::<Song>::empty());
        assert(sorted_songs(s, windows) =~= Seq::<Song>::empty());
    }
}

/// `song_after` orders songs strictly and totally by their keys.
proof fn lemma_after_order(a: Song, b: Song, c: Song, windows: bool)
    ensures
        song_after(a, b, windows) && song_after(b, c, windows) ==> song_after(a, c, windows),
        !(song_after(a, b, windows) && song_after(b, a, windows)),
        !song_after(a, b, windows) && !song_after(b, a, windows) ==> display_artist_spec(a)
            == display_artist_spec(b) && display_title_spec(a, windows) == display_title_spec(
            b,
            windows,
        ),
{
    let (aa, ba, ca) = (display_artist_spec(a), display_artist_spec(b), display_artist_spec(c));
    let (at, bt, ct) = (
        display_title_spec(a, windows),
        display_title_spec(b, windows),
        display_title_spec(c, windows),
    );
    lemma_lt_total(aa, ba);
    lemma_lt_total(ba, ca);
    lemma_lt_total(aa, ca);
    lemma_lt_total(at, bt);
    lemma_lt_irreflexive(aa);
    lemma_lt_irreflexive(at);
    if song_after(a, b, windows) && song_after(b, c, windows) {
        if text_lt(ba, aa) && text_lt(ca, ba) {
            lemma_lt_transitive(ca, ba, aa);
        }
        if text_lt(bt, at) && text_lt(ct, bt) {
            lemma_lt_transitive(ct, bt, at);
        }
    }
}

proof fn lemma_sorted_ordered(s: Seq<Song>, windows: bool)
    ensures
        forall|i: int|
            0 <= i && i + 1 < sorted_songs(s, windows).len() ==> !song_after(
                #[trigger] sorted_songs(s, windows)[i],
                sorted_songs(s, windows)[i + 1],
                windows,
            ),
    decreases s.len(),
{
    if s.len() > 0 {
        let r = sorted_songs(s.drop_last(), windows);
        let x = s.last();
        lemma_sorted_ordered(s.drop_last(), windows);
        lemma_insert_pos_bounds(r, x, windows);
        lemma_insert_pos_facts(r, x, windows);
        let p = insert_pos(r, x, windows);
        let t = insert_sorted(r, x, windows);
        assert forall|i: int| 0 <= i && i + 1 < t.len() implies !song_after(
            #[trigger] t[i],
            t[i + 1],
            windows,
        ) by {
            if i + 1 < p {
                assert(t[i] == r[i]);
                assert(t[i + 1] == r[i + 1]);
            } else if i + 1 == p {
                assert(t[i] == r[i]);
                assert(t[i + 1] == x);
            } else if i == p {
                assert(t[i] == x);
                assert(t[i + 1] == r[p]);
                lemma_after_order(r[p], x, x, windows);
            } else {
                assert(t[i] == r[i - 1]);
                assert(t[i + 1] == r[i]);
            }
        }
    }
}

/// At the insertion point, the song before does not sort after `x`, and the
/// song after does.
proof fn lemma_insert_pos_facts(r: Seq<Song>, x: Song, windows: bool)
    ensures
        insert_pos(r, x, windows) > 0 ==> !song_after(r[insert_pos(r, x, windows) - 1], x, windows),
        insert_pos(r, x, windows) < r.len() ==> song_after(r[insert_pos(r, x, windows)], x, windows),
    decreases r.len(),
{
    if r.len() > 0 && song_after(r.last(), x, windows) {
        let d = r.drop_last();
        lemma_insert_pos_facts(d, x, windows);
        lemma_insert_pos_bounds(d, x, windows);
        let p = insert_pos(d, x, windows);
        if p > 0 {
            assert(r[p - 1] == d[p - 1]);
        }
        if p < d.len() {
            assert(r[p] == d[p]);
        }
    }
}

// ---------------------------------------------------------------------------
// Status transitions and labels
// ---------------------------------------------------------------------------

/// The status a freshly scanned song starts with.
pub fn scanned_status(transcript_exists: bool, source: TranscriptSource) -> (s: AnalysisStatus)
    ensures
        transcript_exists ==> s == AnalysisStatus::Ready(source),
        !transcript_exists ==> s is NotAnalyzed,
{
    if transcript_exists {
        AnalysisStatus::Ready(source)
    } else {
        AnalysisStatus::NotAnalyzed
    }
}

/// The source recorded in a transcript: "lyrics" means fetched lyrics,
/// anything else (or a transcript that could not be read) a transcription.
pub fn transcript_source(recorded: Option<&str>) -> (s: TranscriptSource)
    ensures
        (recorded matches Some(r) && r@ == "lyrics"@) ==> s == TranscriptSource::Lyrics,
        !(recorded matches Some(r) && r@ == "lyrics"@) ==> s == TranscriptSource::Generated,
{
    match recorded {
        Some(r) => if crate::text::same_text(r, "lyrics") {
            TranscriptSource::Lyrics
        } else {
            TranscriptSource::Generated
        },
        None => TranscriptSource::Generated,
    }
}

/// The status once an analysis job has ended: ready, with the transcript's
/// source, when the job succeeded and its results are in the cache;
/// failed with the job's last message otherwise.
pub fn finished_status(
    success: bool,
    transcript_exists: bool,
    recorded_source: Option<&str>,
    message: String,
) -> (s: AnalysisStatus)
    ensures
        success && transcript_exists ==> s == AnalysisStatus::Ready(
            if recorded_source matches Some(r) && r@ == "lyrics"@ {
                TranscriptSource::Lyrics
            } else {
                TranscriptSource::Generated
            },
        ),
        !(success && transcript_exists) ==> s == AnalysisStatus::Failed(message),
{
    if success && transcript_exists {
        AnalysisStatus::Ready(transcript_source(recorded_source))
    } else {
        AnalysisStatus::Failed(message)
    }
}

/// The label of a song's status badge.
pub open spec fn badge_text_spec(status: AnalysisStatus) -> Seq<char> {
    match status {
        AnalysisStatus::Ready(TranscriptSource::Lyrics) => "LYRICS"@,
        AnalysisStatus::Ready(TranscriptSource::Generated) => "AI"@,
        AnalysisStatus::NotAnalyzed => "NOT ANALYZED"@,
        AnalysisStatus::Queued => "QUEUED"@,
        AnalysisStatus::Analyzing => "ANALYZING..."@,
        AnalysisStatus::Failed(_) => "FAILED"@,
    }
}

/// The badge label for a status.
pub fn badge_text(status: &AnalysisStatus) -> (t: &'static str)
    ensures
        t@ == badge_text_spec(*status),
{
    match status {
        AnalysisStatus::Ready(TranscriptSource::Lyrics) => "LYRICS",
        AnalysisStatus::Ready(TranscriptSource::Generated) => "AI",
        AnalysisStatus::NotAnalyzed => "NOT ANALYZED",
        AnalysisStatus::Queued => "QUEUED",
        AnalysisStatus::Analyzing => "ANALYZING...",
        AnalysisStatus::Failed(_) => "FAILED",
    }
}

/// The badge label while the library is showing: an analysing song shows
/// its progress in percent when the running job is its own.
pub fn live_badge_text(status: &AnalysisStatus, active_percent: Option<u32>) -> (t: String)
    ensures
        (status is Analyzing && active_percent is Some) ==> t@ == crate::text::decimal(
            active_percent->0 as nat,
        ) + "%"@,
        !(status is Analyzing && active_percent is Some) ==> t@ == badge_text_spec(*status),
{
    match (status, active_percent) {
        (AnalysisStatus::Analyzing, Some(p)) => {
            let mut t = String::new();
            push_decimal(&mut t, p as u64);
            push_str(&mut t, "%");
            t
        },
        _ => owned(badge_text(status)),
    }
}

/// The status is one of the two the re-analyse button shows for.
pub open spec fn can_reanalyze(status: AnalysisStatus) -> bool {
    status is Ready || status is Failed
}

/// Whether a song's re-analyse button shows.
pub fn reanalyze_visible(status: &AnalysisStatus) -> (r: bool)
    ensures
        r == can_reanalyze(*status),
{
    match status {
        AnalysisStatus::Ready(_) | AnalysisStatus::Failed(_) => true,
        _ => false,
    }
}

/// The number of ready songs.
pub open spec fn ready_count_spec(songs: Seq<Song>) -> nat
    decreases songs.len(),
{
    if songs.len() == 0 {
        0
    } else {
        ready_count_spec(songs.drop_last()) + if songs.last().analysis_status is Ready {
            1nat
        } else {
            0nat
        }
    }
}

/// How many songs are ready to sing.
pub fn ready_count(songs: &Vec<Song>) -> (n: usize)
    ensures
        n == ready_count_spec(songs@),
{
    let mut n: usize = 0;
    let mut i: usize = 0;
    while i < songs.len()
        invariant
            i <= songs.len(),
            n == ready_count_spec(songs@.subrange(0, i as int)),
            n <= i,
        decreases songs.len() - i,
    {
        proof {
            let s = songs@.subrange(0, i + 1);
            assert(s.drop_last() =~= songs@.subrange(0, i as int));
        }
        if let AnalysisStatus::Ready(_) = songs[i].analysis_status {
            n = n + 1;
        }
        i = i + 1;
    }
    assert(songs@.subrange(0, songs.len() as int) =~= songs@);
    n
}

/// The summary line above the song list.
pub fn stats_text(songs: &Vec<Song>) -> (t: String)
    ensures
        t@ == crate::text::decimal(songs@.len()) + " songs found · "@ + crate::text::decimal(
            ready_count_spec(songs@),
        ) + " ready for karaoke"@,
{
    let ready = ready_count(songs);
    let mut t = String::new();
    push_decimal(&mut t, songs.len() as u64);
    push_str(&mut t, " songs found · ");
    push_decimal(&mut t, ready as u64);
    push_str(&mut t, " ready for karaoke");
    t
}

/// Some song is queued or being analysed (the hint about slow first
/// analyses shows then).
pub fn any_analyzing(songs: &Vec<Song>) -> (r: bool)
    ensures
        r == exists|i: int|
            0 <= i < songs@.len() && (#[trigger] songs@[i].analysis_status is Analyzing
                || songs@[i].analysis_status is Queued),
{
    let mut i: usize = 0;
    while i < songs.len()
        invariant
            i <= songs.len(),
            forall|j: int|
                0 <= j < i ==> !(#[trigger] songs@[j].analysis_status is Analyzing
                    || songs@[j].analysis_status is Queued),
        decreases songs.len() - i,
    {
        match songs[i].analysis_status {
            AnalysisStatus::Analyzing | AnalysisStatus::Queued => {
                return true;
            },
            _ => {},
        }
        i = i + 1;
    }
    false
}

// ---------------------------------------------------------------------------
// File hashes
// ---------------------------------------------------------------------------

/// What BLAKE3 gives for the bytes `data`.
pub uninterp spec fn blake3_of(data: Seq<u8>) -> Seq<u8>;

/// Computes the BLAKE3 hash of `data` with `blake3::hash`. The result is
/// the 32-byte digest (`blake3::OUT_LEN`), named `blake3_of(data)`.
#[verifier::external_body]
fn blake3_digest(data: &[u8]) -> (d: Vec<u8>)
    ensures
        d@ == blake3_of(data@),
        d@.len() == 32,
{
    blake3::hash(data).as_bytes().to_vec()
}

/// Lowercase hexadecimal of the bytes `b`, two digits per byte.
pub open spec fn hex_of(b: Seq<u8>) -> Seq<char>
    decreases b.len(),
{
    if b.len() == 0 {
        seq![]
    } else {
        hex_of(b.drop_last()) + seq![
            hex_digit((b.last() / 16) as int),
            hex_digit((b.last() % 16) as int),
        ]
    }
}

fn hex_char(v: u8) -> (c: char)
    requires
        v < 16,
    ensures
        c == hex_digit(v as int),
{
    if v < 10 {
        crate::text::char_from_ascii(48 + v)
    } else {
        crate::text::char_from_ascii(87 + v)
    }
}

/// The identity of a song's file: the first 32 hexadecimal digits of the
/// BLAKE3 hash of its contents (that is, of the first 16 bytes of the
/// digest).
pub fn compute_file_hash(contents: &[u8]) -> (h: String)
    ensures
        h@ == hex_of(blake3_of(contents@).subrange(0, 16)),
        h@.len() == 32,
{
    let d = blake3_digest(contents);
    let mut h = String::new();
    let mut i: usize = 0;
    while i < 16
        invariant
            i <= 16,
            d@.len() == 32,
            h@ == hex_of(d@.subrange(0, i as int)),
            h@.len() == 2 * i,
        decreases 16 - i,
    {
        let b = d[i];
        proof {
            let s = d@.subrange(0, i + 1);
            assert(s.drop_last() =~= d@.subrange(0, i as int));
            assert(s.last() == b);
        }
        h.push(hex_char(b / 16));
        h.push(hex_char(b % 16));
        i = i + 1;
    }
    h
}

} // verus!
