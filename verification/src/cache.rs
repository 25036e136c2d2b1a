//! The analysis cache: per song, keyed by the hash of its file, the
//! transcript, the separated stems and the fetched lyrics.
use vstd::prelude::*;
use crate::layout::path_join;
use crate::text::{owned, push_str};

verus! {

/// The directory holding the cached analysis results.
#[derive(Clone, Debug)]
pub struct CacheDir {
    pub path: String,
    pub windows: bool,
}

/// The file name `<hash><suffix>`.
pub open spec fn cache_file_name(hash: Seq<char>, suffix: Seq<char>) -> Seq<char> {
    hash + suffix
}

impl CacheDir {
    /// The path of `<hash><suffix>` inside the cache directory.
    pub open spec fn file_spec(&self, hash: Seq<char>, suffix: Seq<char>) -> Seq<char> {
        path_join(self.path@, cache_file_name(hash, suffix), self.windows)
    }

    fn file(&self, hash: &str, suffix: &str) -> (out: String)
        ensures
            out@ == self.file_spec(hash@, suffix@),
    {
        let mut name = owned(hash);
        push_str(&mut name, suffix);
        crate::layout::join(self.path.as_str(), name.as_str(), self.windows)
    }

    /// The word-level transcript the analyzer writes.
    pub fn transcript_path(&self, hash: &str) -> (out: String)
        ensures
            out@ == self.file_spec(hash@, "_transcript.json"@),
    {
        self.file(hash, "_transcript.json")
    }

    /// The instrumental stem.
    pub fn instrumental_path(&self, hash: &str) -> (out: String)
        ensures
            out@ == self.file_spec(hash@, "_instrumental.wav"@),
    {
        self.file(hash, "_instrumental.wav")
    }

    /// The vocals stem.
    pub fn vocals_path(&self, hash: &str) -> (out: String)
        ensures
            out@ == self.file_spec(hash@, "_vocals.wav"@),
    {
        self.file(hash, "_vocals.wav")
    }

    /// The lyrics fetched from LRCLIB.
    pub fn lyrics_path(&self, hash: &str) -> (out: String)
        ensures
            out@ == self.file_spec(hash@, "_lyrics.json"@),
    {
        self.file(hash, "_lyrics.json")
    }

    /// A song's analysis is cached when its transcript and both stems are
    /// files, as `probe` found them at this directory's paths.
    pub fn transcript_exists(&self, probe: &CacheProbe) -> (r: bool)
        ensures
            r == (probe.transcript_is_file && probe.instrumental_is_file && probe.vocals_is_file),
    {
        probe.transcript_is_file && probe.instrumental_is_file && probe.vocals_is_file
    }
}

/// Which of a song's cached files exist.
#[derive(Clone, Copy, Debug)]
pub struct CacheProbe {
    pub transcript_is_file: bool,
    pub instrumental_is_file: bool,
    pub vocals_is_file: bool,
}

/// Songs whose hashes differ but have the same length (as file hashes all
/// do) never share a cached file, and one song's files are all different.
pub proof fn law_cache_files_distinct(
    dir: CacheDir,
    h1: Seq<char>,
    h2: Seq<char>,
    s1: Seq<char>,
    s2: Seq<char>,
)
    requires
        h1.len() == h2.len(),
        h1 != h2 || s1 != s2,
    ensures
        dir.file_spec(h1, s1) != dir.file_spec(h2, s2),
{
    let a = dir.file_spec(h1, s1);
    let b = dir.file_spec(h2, s2);
    let p = dir.path@;
    let base_len = if p.len() == 0 || crate::layout::is_sep(p.last(), dir.windows) {
        p.len() as int
    } else {
        p.len() as int + 1
    };
    if a == b {
        assert(a.subrange(base_len, a.len() as int) =~= h1 + s1);
        assert(b.subrange(base_len, b.len() as int) =~= h2 + s2);
        assert((h1 + s1).subrange(0, h1.len() as int) =~= h1);
        assert((h2 + s2).subrange(0, h2.len() as int) =~= h2);
        assert((h1 + s1).subrange(h1.len() as int, (h1 + s1).len() as int) =~= s1);
        assert((h2 + s2).subrange(h2.len() as int, (h2 + s2).len() as int) =~= s2);
    }
}

} // verus!
