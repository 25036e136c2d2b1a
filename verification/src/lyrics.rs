//! Following the lyrics during playback: which line is current, when the
//! current and next lines and the countdown show, and how far each word has
//! been sung. Times are in milliseconds.
use vstd::prelude::*;
use crate::text::{owned, push_str};

verus! {

/// How long before its start a line becomes current.
pub open spec fn lyrics_lead() -> int {
    150
}

/// How long after its end a line stays current.
pub open spec fn line_linger() -> int {
    500
}

/// How long before a line the countdown runs.
pub open spec fn countdown_duration() -> int {
    3000
}

/// The silence before a line that earns it a countdown.
pub open spec fn countdown_gap() -> int {
    3500
}

/// How much earlier than its timestamp a word is highlighted.
pub open spec fn word_highlight_lead() -> int {
    250
}

/// A timed word.
#[derive(Clone, Debug)]
pub struct Word {
    pub word: String,
    pub start_ms: i64,
    pub end_ms: i64,
    pub estimated: bool,
}

/// A line of lyrics with its words.
#[derive(Clone, Debug)]
pub struct Segment {
    pub text: String,
    pub start_ms: i64,
    pub end_ms: i64,
    pub words: Vec<Word>,
}

/// Scanning from line `i` on: the first line that has not yet ended (its end
/// plus the linger time still ahead), or the line after it when that one is
/// already about to start; the last line when every line has ended.
pub open spec fn scan_from(segs: Seq<Segment>, time: int, i: int) -> int
    decreases segs.len() - i,
{
    if i >= segs.len() {
        if segs.len() == 0 {
            0
        } else {
            segs.len() - 1
        }
    } else if time < segs[i].end_ms + line_linger() {
        if i + 1 < segs.len() && time >= segs[i + 1].start_ms - lyrics_lead() {
            i + 1
        } else {
            i
        }
    } else {
        scan_from(segs, time, i + 1)
    }
}

/// The current line at `time`, given the line that was current before as a
/// hint: the scan starts at the hint when the hint has already begun, and
/// from the first line otherwise.
pub open spec fn current_segment_spec(segs: Seq<Segment>, time: int, hint: int) -> int {
    let start = if 0 <= hint < segs.len() && time >= segs[hint].start_ms - lyrics_lead() {
        hint
    } else {
        0
    };
    scan_from(segs, time, start)
}

/// Finds the current line.
pub fn find_current_segment(segments: &Vec<Segment>, time_ms: i64, hint: usize) -> (r: usize)
    ensures
        r == current_segment_spec(segments@, time_ms as int, hint as int),
        segments@.len() > 0 ==> r < segments@.len(),
{
    let t = time_ms as i128;
    let n = segments.len();
    let start = if hint < n && t >= segments[hint].start_ms as i128 - 150 {
        hint
    } else {
        0
    };
    let mut i = start;
    assert(current_segment_spec(segments@, time_ms as int, hint as int) == scan_from(
        segments@,
        time_ms as int,
        start as int,
    ));
    while i < n
        invariant
            start <= i <= n,
            n == segments@.len(),
            t == time_ms,
            current_segment_spec(segments@, time_ms as int, hint as int) == scan_from(
                segments@,
                time_ms as int,
                i as int,
            ),
        decreases n - i,
    {
        if t < segments[i].end_ms as i128 + 500 {
            if i + 1 < n && t >= segments[i + 1].start_ms as i128 - 150 {
                return i + 1;
            }
            return i;
        }
        i = i + 1;
    }
    if n == 0 {
        0
    } else {
        n - 1
    }
}

/// What of the lyrics shows at a moment.
#[derive(Clone, Copy, Debug, PartialEq, Eq, Structural)]
pub struct LineDisplay {
    /// The current line shows.
    pub show_current: bool,
    /// The next line shows below it.
    pub show_next: bool,
    /// The countdown shows this many seconds.
    pub countdown: Option<i64>,
    /// The current line is being sung (its words are highlighted).
    pub active: bool,
}

/// The line is being sung: from shortly before its start to shortly after
/// its end.
pub open spec fn line_active(seg: Segment, time: int) -> bool {
    time >= seg.start_ms - lyrics_lead() && time <= seg.end_ms + line_linger()
}

/// The silence before line `idx`: since the song started for the first
/// line, since the previous line ended for the others.
pub open spec fn gap_before(segs: Seq<Segment>, idx: int) -> int {
    if idx == 0 {
        segs[0].start_ms as int
    } else {
        segs[idx].start_ms - segs[idx - 1].end_ms
    }
}

/// A countdown runs before a line that follows a long enough silence,
/// during the last seconds before it starts.
pub open spec fn countdown_on(segs: Seq<Segment>, idx: int, time: int) -> bool {
    let until = segs[idx].start_ms - time;
    gap_before(segs, idx) >= countdown_gap() && until > 0 && until <= countdown_duration()
}

/// The number the countdown shows: the seconds left, rounded up.
pub open spec fn countdown_seconds(until: int) -> int {
    (until + 999) / 1000
}

/// What shows when line `idx` is current at `time`.
pub open spec fn line_display_spec(segs: Seq<Segment>, idx: int, time: int) -> LineDisplay {
    let active = line_active(segs[idx], time);
    let cd = countdown_on(segs, idx, time);
    let show_current = active || cd;
    LineDisplay {
        show_current,
        show_next: show_current && idx + 1 < segs.len(),
        countdown: if cd {
            Some(countdown_seconds(segs[idx].start_ms - time) as i64)
        } else {
            None
        },
        active,
    }
}

/// Decides what shows when line `idx` is current at `time_ms`.
pub fn line_display(segments: &Vec<Segment>, idx: usize, time_ms: i64) -> (d: LineDisplay)
    requires
        idx < segments@.len(),
    ensures
        d == line_display_spec(segments@, idx as int, time_ms as int),
{
    let t = time_ms as i128;
    let seg = &segments[idx];
    let active = t >= seg.start_ms as i128 - 150 && t <= seg.end_ms as i128 + 500;
    let gap: i128 = if idx == 0 {
        seg.start_ms as i128
    } else {
        seg.start_ms as i128 - segments[idx - 1].end_ms as i128
    };
    let until: i128 = seg.start_ms as i128 - t;
    let cd = gap >= 3500 && until > 0 && until <= 3000;
    let show_current = active || cd;
    let countdown = if cd {
        Some(((until + 999) / 1000) as i64)
    } else {
        None
    };
    LineDisplay { show_current, show_next: show_current && segments.len() - idx > 1, countdown, active }
}

/// The countdown only ever shows one, two or three seconds.
pub proof fn law_countdown_range(segs: Seq<Segment>, idx: int, time: int)
    requires
        0 <= idx < segs.len(),
        countdown_on(segs, idx, time),
    ensures
        1 <= countdown_seconds(segs[idx].start_ms - time) <= 3,
{
}

/// How far a word has been sung.
#[derive(Clone, Copy, Debug, PartialEq, Eq, Structural)]
pub enum WordPhase {
    Unsung,
    Singing,
    Sung,
}

/// The word's phase at `time`: sung once its (advanced) end has passed,
/// being sung once its (advanced) start has, unsung before.
pub open spec fn word_phase_spec(w: Word, time: int) -> WordPhase {
    if time >= w.end_ms - word_highlight_lead() {
        WordPhase::Sung
    } else if time >= w.start_ms - word_highlight_lead() {
        WordPhase::Singing
    } else {
        WordPhase::Unsung
    }
}

/// The phase of a word at `time_ms`.
pub fn word_phase(w: &Word, time_ms: i64) -> (p: WordPhase)
    ensures
        p == word_phase_spec(*w, time_ms as int),
{
    let t = time_ms as i128;
    if t >= w.end_ms as i128 - 250 {
        WordPhase::Sung
    } else if t >= w.start_ms as i128 - 250 {
        WordPhase::Singing
    } else {
        WordPhase::Unsung
    }
}

/// Phases only move forward as time passes.
pub proof fn law_word_phase_monotone(w: Word, t1: int, t2: int)
    requires
        t1 <= t2,
    ensures
        word_phase_spec(w, t1) == WordPhase::Sung ==> word_phase_spec(w, t2) == WordPhase::Sung,
        word_phase_spec(w, t1) == WordPhase::Singing ==> word_phase_spec(w, t2)
            != WordPhase::Unsung,
{
}

/// When the first line starts (the song's start when there are none).
pub fn first_segment_start(segments: &Vec<Segment>) -> (t: i64)
    ensures
        segments@.len() > 0 ==> t == segments@[0].start_ms,
        segments@.len() == 0 ==> t == 0,
{
    if segments.len() > 0 {
        segments[0].start_ms
    } else {
        0
    }
}

/// When the last line ends (the song's start when there are none).
pub fn last_segment_end(segments: &Vec<Segment>) -> (t: i64)
    ensures
        segments@.len() > 0 ==> t == segments@.last().end_ms,
        segments@.len() == 0 ==> t == 0,
{
    if segments.len() > 0 {
        segments[segments.len() - 1].end_ms
    } else {
        0
    }
}

/// The "Skip Intro" button shows until three seconds before the first line.
pub fn skip_intro_visible(segments: &Vec<Segment>, time_ms: i64) -> (r: bool)
    ensures
        r == (time_ms < first_start(segments@) - 3000),
{
    (time_ms as i128) < first_segment_start(segments) as i128 - 3000
}

/// The "Skip Outro" button shows from one second after the last line.
pub fn skip_outro_visible(segments: &Vec<Segment>, time_ms: i64) -> (r: bool)
    ensures
        r == (time_ms > last_end(segments@) + 1000),
{
    (time_ms as i128) > last_segment_end(segments) as i128 + 1000
}

/// Where skipping the intro seeks to: three seconds before the first line,
/// but not before the song's start.
pub fn skip_intro_target(segments: &Vec<Segment>) -> (t: i64)
    ensures
        t == if first_start(segments@) - 3000 > 0 {
            first_start(segments@) - 3000
        } else {
            0
        },
{
    let s = first_segment_start(segments) as i128 - 3000;
    if s > 0 {
        s as i64
    } else {
        0
    }
}

/// When the first line starts (zero when there are none).
pub open spec fn first_start(segs: Seq<Segment>) -> int {
    if segs.len() > 0 {
        segs[0].start_ms as int
    } else {
        0
    }
}

/// When the last line ends (zero when there are none).
pub open spec fn last_end(segs: Seq<Segment>) -> int {
    if segs.len() > 0 {
        segs.last().end_ms as int
    } else {
        0
    }
}

/// A word as shown in a line: followed by a space unless it is the last.
pub fn spaced_word(w: &str, trailing_space: bool) -> (s: String)
    ensures
        trailing_space ==> s@ == w@ + " "@,
        !trailing_space ==> s@ == w@,
{
    let mut s = owned(w);
    if trailing_space {
        push_str(&mut s, " ");
    }
    s
}

/// The text piece of word `i` in a line of `words`: the word, with a space
/// after it unless it is the last.
pub open spec fn word_piece(words: Seq<Word>, i: int) -> Seq<char> {
    if i < words.len() - 1 {
        words[i].word@ + " "@
    } else {
        words[i].word@
    }
}

/// The pieces line `idx` is shown with, one per word; none when there is
/// no such line or it has no words.
pub fn line_pieces(segments: &Vec<Segment>, idx: usize) -> (out: Vec<String>)
    ensures
        idx < segments@.len() ==> out@.len() == segments@[idx as int].words@.len(),
        idx < segments@.len() ==> forall|i: int|
            0 <= i < out@.len() ==> #[trigger] out@[i]@ == word_piece(
                segments@[idx as int].words@,
                i,
            ),
        idx >= segments@.len() ==> out@.len() == 0,
{
    let mut out: Vec<String> = Vec::new();
    if idx >= segments.len() {
        return out;
    }
    let words = &segments[idx].words;
    let mut i: usize = 0;
    while i < words.len()
        invariant
            i <= words@.len(),
            words@ == segments@[idx as int].words@,
            out@.len() == i,
            forall|j: int| 0 <= j < i ==> #[trigger] out@[j]@ == word_piece(words@, j),
        decreases words@.len() - i,
    {
        out.push(spaced_word(words[i].word.as_str(), i + 1 < words.len()));
        i = i + 1;
    }
    out
}

} // verus!
