//! Song analysis: the queue of songs waiting for the analyzer, the progress
//! the analyzer reports, and what to make of its exit.
use vstd::prelude::*;
use crate::layout::{join, path_join};
use crate::library::{AnalysisStatus, Song};
use crate::text::{
    chars_of, contains_text, decimal, find, find_char_in, first_char, first_match, is_blank,
    owned, parse_u32, parse_u32_spec, push_decimal, push_str, string_of, texts, trim, trim_bounds,
};

verus! {

// ---------------------------------------------------------------------------
// The queue
// ---------------------------------------------------------------------------

/// The songs waiting for analysis, first come first served, and the song
/// being analysed, if any.
pub struct AnalysisQueue {
    pub queue: std::collections::VecDeque<usize>,
    pub active: Option<usize>,
}

impl AnalysisQueue {
    /// No song waits twice, and the song being analysed does not wait.
    pub open spec fn wf(&self) -> bool {
        &&& forall|i: int, j: int|
            0 <= i < j < self.queue@.len() ==> self.queue@[i] != self.queue@[j]
        &&& forall|i: int|
            0 <= i < self.queue@.len() ==> Some(#[trigger] self.queue@[i]) != self.active
    }

    /// An empty queue with nothing running.
    pub fn new() -> (q: AnalysisQueue)
        ensures
            q.queue@.len() == 0,
            q.active is None,
            q.wf(),
    {
        AnalysisQueue { queue: std::collections::VecDeque::new(), active: None }
    }

    fn waiting(&self, song_index: usize) -> (r: bool)
        ensures
            r == self.queue@.contains(song_index),
    {
        let mut i: usize = 0;
        while i < self.queue.len()
            invariant
                i <= self.queue@.len(),
                forall|j: int| 0 <= j < i ==> self.queue@[j] != song_index,
            decreases self.queue@.len() - i,
        {
            if self.queue[i] == song_index {
                return true;
            }
            i = i + 1;
        }
        false
    }

    /// Adds a song at the back of the queue, unless it is being analysed or
    /// already waits.
    pub fn enqueue(&mut self, song_index: usize)
        ensures
            old(self).wf() ==> final(self).wf(),
            final(self).active == old(self).active,
            (old(self).active == Some(song_index) || old(self).queue@.contains(song_index))
                ==> final(self).queue@ == old(self).queue@,
            !(old(self).active == Some(song_index) || old(self).queue@.contains(song_index))
                ==> final(self).queue@ == old(self).queue@.push(song_index),
    {
        if self.active == Some(song_index) {
            return;
        }
        if !self.waiting(song_index) {
            self.queue.push_back(song_index);
        }
    }

    /// Starts the next song when nothing runs: takes it from the front of
    /// the queue and makes it the active one.
    pub fn start_next(&mut self) -> (r: Option<usize>)
        ensures
            old(self).wf() ==> final(self).wf(),
            (old(self).active is Some || old(self).queue@.len() == 0) ==> (r is None
                && final(self).active == old(self).active && final(self).queue@ == old(self).queue@),
            !(old(self).active is Some || old(self).queue@.len() == 0) ==> {
                &&& r == Some(old(self).queue@[0])
                &&& final(self).active == r
                &&& final(self).queue@ == old(self).queue@.drop_first()
            },
    {
        if self.active.is_some() || self.queue.len() == 0 {
            return None;
        }
        let next = self.queue.pop_front();
        match next {
            Some(idx) => {
                self.active = Some(idx);
                proof {
                    assert(self.queue@ =~= old(self).queue@.drop_first());
                    if old(self).wf() {
                        assert forall|i: int| 0 <= i < self.queue@.len() implies Some(
                            #[trigger] self.queue@[i],
                        ) != self.active by {
                            assert(self.queue@[i] == old(self).queue@[i + 1]);
                        }
                    }
                }
                Some(idx)
            },
            None => None,
        }
    }

    /// Ends the active job and hands back its song.
    pub fn finish_active(&mut self) -> (r: Option<usize>)
        ensures
            old(self).wf() ==> final(self).wf(),
            r == old(self).active,
            final(self).active is None,
            final(self).queue@ == old(self).queue@,
    {
        let r = self.active;
        self.active = None;
        r
    }

    /// The progress of the running analysis, given as `progress`, when the
    /// song being analysed is `song_index`.
    pub fn active_progress(&self, song_index: usize, progress: &ProgressInfo) -> (r: Option<
        ProgressInfo,
    >)
        ensures
            self.active == Some(song_index) ==> (r matches Some(p) && p.percent == progress.percent
                && p.message@ == progress.message@ && p.finished == progress.finished),
            self.active != Some(song_index) ==> r is None,
    {
        if self.active == Some(song_index) {
            Some(
                ProgressInfo {
                    percent: progress.percent,
                    message: progress.message.clone(),
                    finished: progress.finished,
                },
            )
        } else {
            None
        }
    }

    /// Whether the given song is the one being analysed.
    pub fn is_active(&self, song_index: usize) -> (r: bool)
        ensures
            r == (self.active == Some(song_index)),
    {
        self.active == Some(song_index)
    }
}

/// Adding a song twice in a row queues it once.
pub proof fn law_enqueue_idempotent(q0: AnalysisQueue, q1: AnalysisQueue, q2: AnalysisQueue, s: usize)
    requires
        q1.active == q0.active,
        (q0.active == Some(s) || q0.queue@.contains(s)) ==> q1.queue@ == q0.queue@,
        !(q0.active == Some(s) || q0.queue@.contains(s)) ==> q1.queue@ == q0.queue@.push(s),
        q2.active == q1.active,
        (q1.active == Some(s) || q1.queue@.contains(s)) ==> q2.queue@ == q1.queue@,
        !(q1.active == Some(s) || q1.queue@.contains(s)) ==> q2.queue@ == q1.queue@.push(s),
    ensures
        q2.queue@ == q1.queue@,
{
    if !(q0.active == Some(s) || q0.queue@.contains(s)) {
        assert(q1.queue@[q1.queue@.len() - 1] == s);
    }
}

/// The queue is first come, first served: songs start in the order they
/// were added.
pub proof fn law_queue_fifo(q0: AnalysisQueue, q1: AnalysisQueue, a: usize, b: usize)
    requires
        q0.active is None,
        q0.queue@.len() == 0,
        q1.queue@ == q0.queue@.push(a).push(b),
    ensures
        q1.queue@[0] == a,
        q1.queue@.drop_first()[0] == b,
{
}

/// What a click on a song does: a ready song is played; a song not yet
/// analysed, or whose analysis failed, is queued; a queued or running song
/// is left alone. Positions outside the library do nothing.
#[derive(Clone, Copy, Debug, PartialEq, Eq, Structural)]
pub enum Activation {
    Play(usize),
    Queued,
    Nothing,
}

/// Activates the song at `idx`.
pub fn activate_song(idx: usize, songs: &mut Vec<Song>, queue: &mut AnalysisQueue) -> (r:
    Activation)
    ensures
        old(queue).wf() ==> final(queue).wf(),
        final(songs)@.len() == old(songs)@.len(),
        idx >= old(songs)@.len() ==> (r == Activation::Nothing && final(songs)@ == old(songs)@
            && final(queue).active == old(queue).active && final(queue).queue@ == old(queue).queue@),
        idx < old(songs)@.len() ==> match old(songs)@[idx as int].analysis_status {
            AnalysisStatus::Ready(_) => r == Activation::Play(idx) && final(songs)@ == old(
                songs,
            )@ && final(queue).active == old(queue).active && final(queue).queue@ == old(
                queue,
            ).queue@,
            AnalysisStatus::NotAnalyzed | AnalysisStatus::Failed(_) => {
                &&& r == Activation::Queued
                &&& final(songs)@[idx as int] == (Song {
                    analysis_status: AnalysisStatus::Queued,
                    ..old(songs)@[idx as int]
                })
                &&& final(queue).active == old(queue).active
                &&& (old(queue).active == Some(idx) || old(queue).queue@.contains(idx))
                    ==> final(queue).queue@ == old(queue).queue@
                &&& !(old(queue).active == Some(idx) || old(queue).queue@.contains(idx))
                    ==> final(queue).queue@ == old(queue).queue@.push(idx)
                &&& forall|j: int|
                    0 <= j < old(songs)@.len() && j != idx ==> final(songs)@[j] == old(songs)@[j]
            },
            _ => r == Activation::Nothing && final(songs)@ == old(songs)@ && final(queue).active
                == old(queue).active && final(queue).queue@ == old(queue).queue@,
        },
{
    if idx >= songs.len() {
        return Activation::Nothing;
    }
    match songs[idx].analysis_status {
        AnalysisStatus::Ready(_) => Activation::Play(idx),
        AnalysisStatus::NotAnalyzed | AnalysisStatus::Failed(_) => {
            queue.enqueue(idx);
            let mut song = songs[idx].copy();
            song.analysis_status = AnalysisStatus::Queued;
            songs.set(idx, song);
            proof {
                if !(old(queue).active == Some(idx) || old(queue).queue@.contains(idx)) {
                    assert(queue.queue@[queue.queue@.len() - 1] == idx);
                }
            }
            Activation::Queued
        },
        _ => Activation::Nothing,
    }
}

/// Starts the next analysis: when nothing runs and a song waits, the first
/// waiting song becomes the running one and is marked as being analysed;
/// otherwise nothing changes.
pub fn process_queue(songs: &mut Vec<Song>, queue: &mut AnalysisQueue) -> (r: Option<usize>)
    requires
        old(queue).active is None && old(queue).queue@.len() > 0 ==> old(queue).queue@[0] < old(
            songs,
        )@.len(),
    ensures
        old(queue).wf() ==> final(queue).wf(),
        final(songs)@.len() == old(songs)@.len(),
        (old(queue).active is Some || old(queue).queue@.len() == 0) ==> {
            &&& r is None
            &&& final(queue).active == old(queue).active
            &&& final(queue).queue@ == old(queue).queue@
            &&& final(songs)@ == old(songs)@
        },
        !(old(queue).active is Some || old(queue).queue@.len() == 0) ==> {
            let i = old(queue).queue@[0];
            &&& r == Some(i)
            &&& final(queue).active == Some(i)
            &&& final(queue).queue@ == old(queue).queue@.drop_first()
            &&& final(songs)@[i as int] == (Song {
                analysis_status: AnalysisStatus::Analyzing,
                ..old(songs)@[i as int]
            })
            &&& forall|j: int|
                0 <= j < old(songs)@.len() && j != i ==> final(songs)@[j] == old(songs)@[j]
        },
{
    let r = queue.start_next();
    match r {
        Some(i) => {
            let mut song = songs[i].copy();
            song.analysis_status = AnalysisStatus::Analyzing;
            songs.set(i, song);
        },
        None => {},
    }
    r
}

/// Queues a song again after its cached transcript was removed.
pub fn requeue_song(idx: usize, songs: &mut Vec<Song>, queue: &mut AnalysisQueue)
    requires
        idx < old(songs)@.len(),
    ensures
        old(queue).wf() ==> final(queue).wf(),
        final(songs)@.len() == old(songs)@.len(),
        final(songs)@[idx as int] == (Song {
            analysis_status: AnalysisStatus::Queued,
            ..old(songs)@[idx as int]
        }),
        final(queue).active == old(queue).active,
        (old(queue).active == Some(idx) || old(queue).queue@.contains(idx))
            ==> final(queue).queue@ == old(queue).queue@,
        !(old(queue).active == Some(idx) || old(queue).queue@.contains(idx))
            ==> final(queue).queue@ == old(queue).queue@.push(idx),
        forall|j: int|
            0 <= j < old(songs)@.len() && j != idx ==> final(songs)@[j] == old(songs)@[j],
{
    let mut song = songs[idx].copy();
    song.analysis_status = AnalysisStatus::Queued;
    songs.set(idx, song);
    queue.enqueue(idx);
    proof {
        if !(old(queue).active == Some(idx) || old(queue).queue@.contains(idx)) {
            assert(queue.queue@[queue.queue@.len() - 1] == idx);
        }
    }
}

// ---------------------------------------------------------------------------
// Progress
// ---------------------------------------------------------------------------

/// The progress of the running analysis.
#[derive(Clone, Debug)]
pub struct ProgressInfo {
    pub percent: u32,
    pub message: String,
    pub finished: Option<bool>,
}

/// The progress when a job starts: looking for lyrics.
pub fn initial_progress() -> (p: ProgressInfo)
    ensures
        p.percent == 0,
        p.message@ == "Searching for lyrics..."@,
        p.finished is None,
{
    ProgressInfo { percent: 0, message: owned("Searching for lyrics..."), finished: None }
}

/// What the analyzer writes before the percentage in a progress line.
pub open spec fn progress_marker() -> Seq<char> {
    "[nightingale:PROGRESS:"@
}

/// What a line of the analyzer's output reports: after the first progress
/// marker, the text up to the next `]` must read as a percentage; the
/// message is the rest of the line, trimmed.
pub open spec fn progress_line_spec(line: Seq<char>) -> Option<(u32, Seq<char>)> {
    match first_match(line, progress_marker()) {
        None => None,
        Some(start) => {
            let after = line.subrange(start + progress_marker().len(), line.len() as int);
            match first_char(after, ']') {
                None => None,
                Some(end) => match parse_u32_spec(after.subrange(0, end)) {
                    None => None,
                    Some(pct) => Some((pct, trim(after.subrange(end + 1, after.len() as int)))),
                },
            }
        },
    }
}

/// Reads a progress report out of a line of the analyzer's output.
pub fn parse_progress_line(line: &str) -> (r: Option<(u32, String)>)
    ensures
        match progress_line_spec(line@) {
            None => r is None,
            Some((pct, msg)) => r matches Some((p, m)) && p == pct && m@ == msg,
        },
{
    proof {
        reveal_strlit("[nightingale:PROGRESS:");
    }
    let v = chars_of(line);
    let marker = chars_of("[nightingale:PROGRESS:");
    let start = match find(&v, &marker) {
        None => return None,
        Some(s) => s,
    };
    let ghost after = v@.subrange(start + marker@.len(), v@.len() as int);
    assert(start + marker.len() <= v.len()) by {
        assert(crate::text::matches_at(v@, marker@, start as int));
    }
    let from = start + marker.len();
    let end = match find_char_in(&v, ']', from) {
        None => return None,
        Some(e) => e,
    };
    assert(after.subrange(0, end - from) =~= v@.subrange(from as int, end as int));
    let pct = match parse_u32(&v, from, end) {
        None => return None,
        Some(p) => p,
    };
    let (lo, hi) = trim_bounds(&v, end + 1, v.len());
    assert(after.subrange(end - from + 1, after.len() as int) =~= v@.subrange(
        end + 1,
        v.len() as int,
    ));
    Some((pct, string_of(&v, lo, hi)))
}

impl ProgressInfo {
    /// Takes in a line of the analyzer's output: a progress line replaces
    /// the percentage and the message; any other line changes nothing.
    pub fn apply_line(&mut self, line: &str)
        ensures
            final(self).finished == old(self).finished,
            match progress_line_spec(line@) {
                None => *final(self) == *old(self),
                Some((pct, msg)) => final(self).percent == pct && final(self).message@ == msg,
            },
    {
        if let Some((pct, msg)) = parse_progress_line(line) {
            self.percent = pct;
            self.message = msg;
        }
    }
}

// ---------------------------------------------------------------------------
// The analyzer's exit
// ---------------------------------------------------------------------------

/// The lines joined by line feeds.
pub open spec fn joined(lines: Seq<Seq<char>>) -> Seq<char>
    decreases lines.len(),
{
    if lines.len() == 0 {
        seq![]
    } else if lines.len() == 1 {
        lines[0]
    } else {
        joined(lines.drop_last()) + "\n"@ + lines.last()
    }
}


/// The error output shows the GPU ran out of memory.
pub open spec fn out_of_memory(stderr: Seq<Seq<char>>) -> bool {
    contains_text(joined(stderr), "CUDA out of memory"@) || contains_text(
        joined(stderr),
        "OutOfMemoryError"@,
    )
}

/// The last line of the error output that is not blank, if any.
pub open spec fn last_nonblank(lines: Seq<Seq<char>>) -> Option<Seq<char>>
    decreases lines.len(),
{
    if lines.len() == 0 {
        None
    } else if trim(lines.last()).len() > 0 {
        Some(lines.last())
    } else {
        last_nonblank(lines.drop_last())
    }
}

/// What to do once the analyzer has exited.
#[derive(Clone, Debug)]
pub enum Verdict {
    /// The analysis succeeded.
    Finished,
    /// The GPU ran out of memory: run again with this batch size.
    Retry(u32),
    /// The analysis failed with this message.
    Failed(String),
}

fn join_chars(lines: &Vec<String>) -> (out: Vec<char>)
    ensures
        out@ == joined(texts(lines@)),
{
    let mut out: Vec<char> = Vec::new();
    let mut i: usize = 0;
    while i < lines.len()
        invariant
            i <= lines.len(),
            out@ == joined(texts(lines@.subrange(0, i as int))),
        decreases lines.len() - i,
    {
        let ghost before = out@;
        if i > 0 {
            out.push('\n');
        }
        let v = chars_of(lines[i].as_str());
        let mut k: usize = 0;
        proof {
            reveal_strlit("\n");
            assert(out@ =~= (if i > 0 {
                before + "\n"@
            } else {
                before
            }) + v@.subrange(0, 0));
        }
        while k < v.len()
            invariant
                k <= v.len(),
                out@ == (if i > 0 {
                    before + "\n"@
                } else {
                    before
                }) + v@.subrange(0, k as int),
            decreases v.len() - k,
        {
            out.push(v[k]);
            k = k + 1;
            assert(out@ =~= (if i > 0 {
                before + "\n"@
            } else {
                before
            }) + v@.subrange(0, k as int));
        }
        proof {
            reveal_strlit("\n");
            let t = texts(lines@.subrange(0, i + 1));
            assert(t.drop_last() =~= texts(lines@.subrange(0, i as int)));
            assert(t.last() == lines@[i as int]@);
            assert(v@.subrange(0, v.len() as int) =~= v@);
            if i == 0 {
                assert(before =~= Seq::<char>::empty());
                assert(out@ =~= t[0]);
            } else {
                assert(out@ =~= joined(t.drop_last()) + "\n"@ + t.last());
            }
        }
        i = i + 1;
    }
    assert(lines@.subrange(0, lines.len() as int) =~= lines@);
    out
}

fn find_last_nonblank(lines: &Vec<String>) -> (r: Option<usize>)
    ensures
        match r {
            Some(i) => i < lines@.len() && last_nonblank(texts(lines@)) == Some(
                lines@[i as int]@,
            ),
            None => last_nonblank(texts(lines@)) is None,
        },
{
    let mut j = lines.len();
    assert(texts(lines@).subrange(0, j as int) =~= texts(lines@));
    while j > 0
        invariant
            j <= lines@.len(),
            last_nonblank(texts(lines@)) == last_nonblank(texts(lines@).subrange(0, j as int)),
        decreases j,
    {
        let blank = is_blank(lines[j - 1].as_str());
        proof {
            let s = texts(lines@).subrange(0, j as int);
            assert(s.last() == lines@[j - 1]@);
            assert(s.drop_last() =~= texts(lines@).subrange(0, j - 1));
        }
        if !blank {
            return Some(j - 1);
        }
        j = j - 1;
    }
    None
}

impl ProgressInfo {
    /// Records a verdict on the analyzer's exit: success finishes the job; a
    /// retry starts over at zero with a message naming the smaller batch and
    /// hands that batch back; a failure finishes the job with its message.
    pub fn apply_verdict(&mut self, verdict: &Verdict) -> (retry: Option<u32>)
        ensures
            match verdict {
                Verdict::Finished => {
                    &&& retry is None
                    &&& *final(self) == (ProgressInfo { finished: Some(true), ..*old(self) })
                },
                Verdict::Retry(b) => {
                    &&& retry == Some(*b)
                    &&& final(self).percent == 0
                    &&& final(self).message@ == "CUDA OOM — retrying with batch size "@ + decimal(
                        *b as nat,
                    ) + "..."@
                    &&& final(self).finished == old(self).finished
                },
                Verdict::Failed(m) => {
                    &&& retry is None
                    &&& *final(self) == (ProgressInfo {
                        finished: Some(false),
                        message: *m,
                        ..*old(self)
                    })
                },
            },
    {
        match verdict {
            Verdict::Finished => {
                self.finished = Some(true);
                None
            },
            Verdict::Retry(b) => {
                self.percent = 0;
                self.message = retry_message(*b);
                Some(*b)
            },
            Verdict::Failed(m) => {
                self.finished = Some(false);
                self.message = m.clone();
                None
            },
        }
    }

    /// Ends the job as failed with the given message.
    pub fn fail_with(&mut self, message: String)
        ensures
            *final(self) == (ProgressInfo { finished: Some(false), message, ..*old(self) }),
    {
        self.finished = Some(false);
        self.message = message;
    }
}

/// Decides what follows the analyzer's exit.
pub fn judge_exit(success: bool, stderr_lines: &Vec<String>, batch_size: u32, status: &str) -> (v:
    Verdict)
    ensures
        success ==> v is Finished,
        !success && out_of_memory(texts(stderr_lines@)) && batch_size > 1 ==> v == Verdict::Retry(
            batch_size / 2,
        ),
        !success && !(out_of_memory(texts(stderr_lines@)) && batch_size > 1) ==> (
        v matches Verdict::Failed(m) && m@ == match last_nonblank(texts(stderr_lines@)) {
            Some(l) => l,
            None => "exit code: "@ + status@,
        }),
{
    if success {
        return Verdict::Finished;
    }
    let all = join_chars(stderr_lines);
    let a = chars_of("CUDA out of memory");
    let b = chars_of("OutOfMemoryError");
    let oom = match find(&all, &a) {
        Some(_) => true,
        None => match find(&all, &b) {
            Some(_) => true,
            None => false,
        },
    };
    proof {
        let j = joined(texts(stderr_lines@));
        if contains_text(j, "CUDA out of memory"@) {
            let w = choose|w: int| crate::text::matches_at(j, "CUDA out of memory"@, w);
            if first_match(j, a@) is None {
                crate::text::lemma_first_match_exists(j, a@, w);
            }
        }
        if contains_text(j, "OutOfMemoryError"@) {
            let w = choose|w: int| crate::text::matches_at(j, "OutOfMemoryError"@, w);
            if first_match(j, b@) is None {
                crate::text::lemma_first_match_exists(j, b@, w);
            }
        }
        if first_match(j, a@) is Some {
            crate::text::lemma_first_match_matches(j, a@);
        }
        if first_match(j, b@) is Some {
            crate::text::lemma_first_match_matches(j, b@);
        }
    }
    if oom && batch_size > 1 {
        return Verdict::Retry(batch_size / 2);
    }
    match find_last_nonblank(stderr_lines) {
        Some(i) => Verdict::Failed(stderr_lines[i].clone()),
        None => {
            let mut m = owned("exit code: ");
            push_str(&mut m, status);
            Verdict::Failed(m)
        },
    }
}

/// A retry always asks for a smaller batch, and never for an empty one, so
/// the analyzer is retried only finitely often.
pub proof fn law_retry_shrinks_batch(batch_size: u32)
    requires
        batch_size > 1,
    ensures
        1 <= batch_size / 2 < batch_size,
{
}

/// The progress message while retrying with a smaller batch.
pub fn retry_message(new_batch: u32) -> (m: String)
    ensures
        m@ == "CUDA OOM — retrying with batch size "@ + decimal(new_batch as nat) + "..."@,
{
    let mut m = owned("CUDA OOM — retrying with batch size ");
    push_decimal(&mut m, new_batch as u64);
    push_str(&mut m, "...");
    m
}

/// The message when the analyzer could not be started.
pub fn start_failure_message(reason: &str) -> (m: String)
    ensures
        m@ == "Failed to start: "@ + reason@,
{
    let mut m = owned("Failed to start: ");
    push_str(&mut m, reason);
    m
}

/// The message when waiting for the analyzer failed.
pub fn wait_failure_message(reason: &str) -> (m: String)
    ensures
        m@ == "Error: "@ + reason@,
{
    let mut m = owned("Error: ");
    push_str(&mut m, reason);
    m
}

// ---------------------------------------------------------------------------
// The analyzer's command line
// ---------------------------------------------------------------------------

/// What one analysis run is asked to do.
#[derive(Clone, Debug)]
pub struct AnalyzerJob {
    pub song_path: String,
    pub cache_path: String,
    pub file_hash: String,
    pub model: String,
    pub beam_size: u32,
    pub separator: String,
    /// Lyrics found online, handed to the analyzer to align.
    pub lyrics_path: Option<String>,
}

/// The analyzer's arguments: the script, the song, the cache, then the
/// options, with the lyrics last when there are some.
pub open spec fn analyzer_args_spec(script: Seq<char>, job: AnalyzerJob, batch_size: u32) -> Seq<
    Seq<char>,
> {
    seq![
        script,
        job.song_path@,
        job.cache_path@,
        "--hash"@,
        job.file_hash@,
        "--model"@,
        job.model@,
        "--beam-size"@,
        decimal(job.beam_size as nat),
        "--batch-size"@,
        decimal(batch_size as nat),
        "--separator"@,
        job.separator@,
    ] + match job.lyrics_path {
        Some(l) => seq!["--lyrics"@, l@],
        None => seq![],
    }
}

fn push_arg(out: &mut Vec<String>, a: &str)
    ensures
        texts(final(out)@) == texts(old(out)@).push(a@),
{
    out.push(owned(a));
    assert(texts(final(out)@) =~= texts(old(out)@).push(a@));
}

fn push_number(out: &mut Vec<String>, n: u32)
    ensures
        texts(final(out)@) == texts(old(out)@).push(decimal(n as nat)),
{
    let mut s = String::new();
    push_decimal(&mut s, n as u64);
    assert(s@ =~= decimal(n as nat));
    out.push(s);
    assert(texts(final(out)@) =~= texts(old(out)@).push(decimal(n as nat)));
}

/// The analyzer's arguments for a run with the given batch size.
pub fn analyzer_args(script: &str, job: &AnalyzerJob, batch_size: u32) -> (out: Vec<String>)
    ensures
        texts(out@) == analyzer_args_spec(script@, *job, batch_size),
{
    let mut out: Vec<String> = Vec::new();
    push_arg(&mut out, script);
    push_arg(&mut out, job.song_path.as_str());
    push_arg(&mut out, job.cache_path.as_str());
    push_arg(&mut out, "--hash");
    push_arg(&mut out, job.file_hash.as_str());
    push_arg(&mut out, "--model");
    push_arg(&mut out, job.model.as_str());
    push_arg(&mut out, "--beam-size");
    push_number(&mut out, job.beam_size);
    push_arg(&mut out, "--batch-size");
    push_number(&mut out, batch_size);
    push_arg(&mut out, "--separator");
    push_arg(&mut out, job.separator.as_str());
    match &job.lyrics_path {
        Some(l) => {
            push_arg(&mut out, "--lyrics");
            push_arg(&mut out, l.as_str());
        },
        None => {},
    }
    assert(texts(out@) =~= analyzer_args_spec(script@, *job, batch_size));
    out
}

/// The names and values of the analyzer's environment, but for the search
/// path: where the models are kept, where the media tool is, and switches
/// that quiet the Python libraries.
pub open spec fn analyzer_env_spec(models_dir: Seq<char>, ffmpeg: Seq<char>, windows: bool) -> Seq<
    (Seq<char>, Seq<char>),
> {
    seq![
        ("TORCH_HOME"@, path_join(models_dir, "torch"@, windows)),
        ("HF_HOME"@, path_join(models_dir, "huggingface"@, windows)),
        ("FFMPEG_PATH"@, ffmpeg),
        ("PYTHONWARNINGS"@, "ignore"@),
        ("PYTORCH_ENABLE_MPS_FALLBACK"@, "1"@),
        ("HF_HUB_DISABLE_SYMLINKS_WARNING"@, "1"@),
        ("HF_HUB_DISABLE_SYMLINKS"@, "1"@),
    ]
}

/// The texts of name and value pairs.
pub open spec fn pair_texts(v: Seq<(String, String)>) -> Seq<(Seq<char>, Seq<char>)> {
    v.map_values(|p: (String, String)| (p.0@, p.1@))
}

fn push_pair(out: &mut Vec<(String, String)>, name: &str, value: String)
    ensures
        pair_texts(final(out)@) == pair_texts(old(out)@).push((name@, value@)),
{
    let ghost v = value@;
    out.push((owned(name), value));
    assert(pair_texts(final(out)@) =~= pair_texts(old(out)@).push((name@, v)));
}

/// The analyzer's environment, but for the search path.
pub fn analyzer_env(models_dir: &str, ffmpeg: &str, windows: bool) -> (out: Vec<(String, String)>)
    ensures
        pair_texts(out@) == analyzer_env_spec(models_dir@, ffmpeg@, windows),
{
    let mut out: Vec<(String, String)> = Vec::new();
    push_pair(&mut out, "TORCH_HOME", join(models_dir, "torch", windows));
    push_pair(&mut out, "HF_HOME", join(models_dir, "huggingface", windows));
    push_pair(&mut out, "FFMPEG_PATH", owned(ffmpeg));
    push_pair(&mut out, "PYTHONWARNINGS", owned("ignore"));
    push_pair(&mut out, "PYTORCH_ENABLE_MPS_FALLBACK", owned("1"));
    push_pair(&mut out, "HF_HUB_DISABLE_SYMLINKS_WARNING", owned("1"));
    push_pair(&mut out, "HF_HUB_DISABLE_SYMLINKS", owned("1"));
    assert(pair_texts(out@) =~= analyzer_env_spec(models_dir@, ffmpeg@, windows));
    out
}

} // verus!
