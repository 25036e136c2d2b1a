//! Clearing cached video backgrounds. Each flavour directory keeps the MP4
//! whose file name sorts first; its other MP4s can be removed.
use vstd::prelude::*;
use crate::order::{lemma_lt_irreflexive, lemma_lt_total, lemma_lt_transitive, lt_chars, text_lt};
use crate::text::{chars_of, ends_with, has_suffix};

verus! {

/// A file found in a flavour directory.
#[derive(Clone, Debug)]
pub struct VideoFile {
    pub name: String,
    pub path: String,
    pub size: u64,
}

impl VideoFile {
    /// A copy of this entry.
    pub fn copy(&self) -> (c: VideoFile)
        ensures
            c == *self,
    {
        VideoFile { name: self.name.clone(), path: self.path.clone(), size: self.size }
    }
}

/// The file's extension is `mp4`: its name has a last `.` that is not its
/// first character, followed by `mp4`.
pub open spec fn is_mp4_name(name: Seq<char>) -> bool {
    ends_with(name, ".mp4"@) && name.len() > 4
}

/// Whether the file name has the extension `mp4`.
pub fn is_mp4(name: &str) -> (r: bool)
    ensures
        r == is_mp4_name(name@),
{
    proof {
        reveal_strlit(".mp4");
    }
    let v = chars_of(name);
    let sfx = chars_of(".mp4");
    has_suffix(&v, &sfx) && v.len() > 4
}

/// The position of the MP4 that is kept: the first of those whose name
/// sorts first.
pub open spec fn is_kept(files: Seq<VideoFile>, k: int) -> bool {
    &&& 0 <= k < files.len()
    &&& is_mp4_name(files[k].name@)
    &&& forall|j: int|
        0 <= j < files.len() && is_mp4_name(files[j].name@) ==> !text_lt(
            #[trigger] files[j].name@,
            files[k].name@,
        )
    &&& forall|j: int|
        0 <= j < k && is_mp4_name(files[j].name@) ==> text_lt(
            files[k].name@,
            #[trigger] files[j].name@,
        )
}

/// The position of the MP4 that is kept, if the directory holds any.
pub open spec fn kept_spec(files: Seq<VideoFile>) -> Option<int> {
    if exists|k: int| is_kept(files, k) {
        Some(choose|k: int| is_kept(files, k))
    } else {
        None
    }
}

/// Only one position satisfies `is_kept`.
proof fn lemma_kept_unique(files: Seq<VideoFile>, k: int)
    requires
        is_kept(files, k),
    ensures
        kept_spec(files) == Some(k),
{
    let c = choose|c: int| is_kept(files, c);
    assert(is_kept(files, c));
    if c < k {
        assert(text_lt(files[k].name@, files[c].name@));
    } else if k < c {
        assert(text_lt(files[c].name@, files[k].name@));
    }
}

proof fn lemma_no_kept(files: Seq<VideoFile>)
    requires
        no_mp4(files),
    ensures
        kept_spec(files) is None,
{
    if exists|k: int| is_kept(files, k) {
        let k = choose|k: int| is_kept(files, k);
        assert(is_mp4_name(files[k].name@));
    }
}

proof fn lemma_to_clear_empty(files: Seq<VideoFile>, kept: int)
    requires
        no_mp4(files),
    ensures
        to_clear_spec(files, kept).len() == 0,
    decreases files.len(),
{
    if files.len() > 0 {
        assert(no_mp4(files.drop_last())) by {
            assert forall|j: int| 0 <= j < files.drop_last().len() implies !is_mp4_name(
                #[trigger] files.drop_last()[j].name@,
            ) by {
                assert(files.drop_last()[j] == files[j]);
            }
        }
        lemma_to_clear_empty(files.drop_last(), kept);
        assert(!is_mp4_name(files[files.len() - 1].name@));
    }
}

/// The directory holds no MP4.
pub open spec fn no_mp4(files: Seq<VideoFile>) -> bool {
    forall|j: int| 0 <= j < files.len() ==> !is_mp4_name(#[trigger] files[j].name@)
}

/// Finds the MP4 to keep.
pub fn kept_video(files: &Vec<VideoFile>) -> (r: Option<usize>)
    ensures
        match r {
            Some(k) => is_kept(files@, k as int),
            None => no_mp4(files@),
        },
{
    let mut best: Option<usize> = None;
    let mut i: usize = 0;
    while i < files.len()
        invariant
            i <= files.len(),
            match best {
                Some(k) => {
                    &&& k < i
                    &&& is_mp4_name(files@[k as int].name@)
                    &&& forall|j: int|
                        0 <= j < i && is_mp4_name(files@[j].name@) ==> !text_lt(
                            #[trigger] files@[j].name@,
                            files@[k as int].name@,
                        )
                    &&& forall|j: int|
                        0 <= j < k && is_mp4_name(files@[j].name@) ==> text_lt(
                            files@[k as int].name@,
                            #[trigger] files@[j].name@,
                        )
                },
                None => forall|j: int| 0 <= j < i ==> !is_mp4_name(#[trigger] files@[j].name@),
            },
        decreases files.len() - i,
    {
        if is_mp4(files[i].name.as_str()) {
            match best {
                None => {
                    best = Some(i);
                    proof {
                        lemma_lt_irreflexive(files@[i as int].name@);
                    }
                },
                Some(k) => {
                    let a = chars_of(files[i].name.as_str());
                    let b = chars_of(files[k].name.as_str());
                    if lt_chars(&a, &b) {
                        proof {
                            let ni = files@[i as int].name@;
                            let nk = files@[k as int].name@;
                            lemma_lt_irreflexive(ni);
                            assert forall|j: int|
                                0 <= j < i + 1 && is_mp4_name(files@[j].name@) implies !text_lt(
                                #[trigger] files@[j].name@,
                                ni,
                            ) by {
                                let nj = files@[j].name@;
                                if j < i && text_lt(nj, ni) {
                                    lemma_lt_transitive(nj, ni, nk);
                                }
                            }
                            assert forall|j: int|
                                0 <= j < i && is_mp4_name(files@[j].name@) implies text_lt(
                                ni,
                                #[trigger] files@[j].name@,
                            ) by {
                                let nj = files@[j].name@;
                                lemma_lt_total(ni, nj);
                                if !text_lt(ni, nj) {
                                    if nj == ni {
                                    } else {
                                        assert(text_lt(nj, ni));
                                    }
                                }
                            }
                        }
                        best = Some(i);
                    } else {
                        proof {
                            let ni = files@[i as int].name@;
                            let nk = files@[k as int].name@;
                            assert(!text_lt(ni, nk));
                        }
                    }
                },
            }
        }
        i = i + 1;
    }
    best
}

/// The files to remove: every MP4 but the kept one, in directory order.
pub open spec fn to_clear_spec(files: Seq<VideoFile>, kept: int) -> Seq<VideoFile>
    decreases files.len(),
{
    if files.len() == 0 {
        seq![]
    } else {
        let rest = to_clear_spec(files.drop_last(), kept);
        let last = files.len() - 1;
        if is_mp4_name(files.last().name@) && last != kept {
            rest.push(files.last())
        } else {
            rest
        }
    }
}

/// The MP4s of a flavour directory that can be removed: all of them but the
/// one whose name sorts first.
pub fn videos_to_clear(files: &Vec<VideoFile>) -> (out: Vec<VideoFile>)
    ensures
        match kept_spec(files@) {
            Some(k) => out@ == to_clear_spec(files@, k),
            None => out@.len() == 0,
        },
{
    let kept = kept_video(files);
    let ghost k: int = match kept {
        Some(k) => k as int,
        None => -1,
    };
    let mut out: Vec<VideoFile> = Vec::new();
    let mut i: usize = 0;
    while i < files.len()
        invariant
            i <= files.len(),
            out@ == to_clear_spec(files@.subrange(0, i as int), k),
            kept is None ==> no_mp4(files@),
            kept matches Some(kk) ==> k == kk,
        decreases files.len() - i,
    {
        let take = is_mp4(files[i].name.as_str()) && match kept {
            Some(kk) => kk != i,
            None => true,
        };
        proof {
            let s = files@.subrange(0, i + 1);
            assert(s.drop_last() =~= files@.subrange(0, i as int));
            assert(s.last() == files@[i as int]);
        }
        if take {
            out.push(files[i].copy());
        }
        i = i + 1;
    }
    proof {
        assert(files@.subrange(0, files.len() as int) =~= files@);
        match kept {
            Some(kk) => lemma_kept_unique(files@, kk as int),
            None => {
                lemma_no_kept(files@);
                lemma_to_clear_empty(files@, k);
            },
        }
    }
    out
}

/// The files of a flavour directory that can be removed.
pub open spec fn clearable_in(files: Seq<VideoFile>) -> Seq<VideoFile> {
    match kept_spec(files) {
        Some(k) => to_clear_spec(files, k),
        None => seq![],
    }
}

/// The total size of the given files.
pub open spec fn bytes_of(files: Seq<VideoFile>) -> nat
    decreases files.len(),
{
    if files.len() == 0 {
        0
    } else {
        bytes_of(files.drop_last()) + files.last().size as nat
    }
}

/// The total size of what can be removed across flavour directories.
pub open spec fn clearable_total(dirs: Seq<Vec<VideoFile>>) -> nat
    decreases dirs.len(),
{
    if dirs.len() == 0 {
        0
    } else {
        clearable_total(dirs.drop_last()) + bytes_of(clearable_in(dirs.last()@))
    }
}

proof fn lemma_bytes_prefix(files: Seq<VideoFile>, i: int)
    requires
        0 <= i <= files.len(),
    ensures
        bytes_of(files.subrange(0, i)) <= bytes_of(files),
    decreases files.len() - i,
{
    if i < files.len() {
        lemma_bytes_prefix(files.drop_last(), i);
        assert(files.drop_last().subrange(0, i) =~= files.subrange(0, i));
    } else {
        assert(files.subrange(0, i) =~= files);
    }
}

proof fn lemma_total_prefix(dirs: Seq<Vec<VideoFile>>, i: int)
    requires
        0 <= i <= dirs.len(),
    ensures
        clearable_total(dirs.subrange(0, i)) <= clearable_total(dirs),
    decreases dirs.len() - i,
{
    if i < dirs.len() {
        lemma_total_prefix(dirs.drop_last(), i);
        assert(dirs.drop_last().subrange(0, i) =~= dirs.subrange(0, i));
    } else {
        assert(dirs.subrange(0, i) =~= dirs);
    }
}

/// The total size of the given files.
pub fn total_size(files: &Vec<VideoFile>) -> (n: u64)
    requires
        bytes_of(files@) <= u64::MAX,
    ensures
        n == bytes_of(files@),
{
    let mut n: u64 = 0;
    let mut i: usize = 0;
    while i < files.len()
        invariant
            i <= files.len(),
            bytes_of(files@) <= u64::MAX,
            n == bytes_of(files@.subrange(0, i as int)),
        decreases files.len() - i,
    {
        proof {
            let s = files@.subrange(0, i + 1);
            assert(s.drop_last() =~= files@.subrange(0, i as int));
            lemma_bytes_prefix(files@, i + 1);
        }
        n = n + files[i].size;
        i = i + 1;
    }
    assert(files@.subrange(0, files.len() as int) =~= files@);
    n
}

/// How many bytes clearing the video backgrounds frees, given the files of
/// each flavour directory.
pub fn clearable_video_bytes(flavor_dirs: &Vec<Vec<VideoFile>>) -> (n: u64)
    requires
        clearable_total(flavor_dirs@) <= u64::MAX,
    ensures
        n == clearable_total(flavor_dirs@),
{
    let mut n: u64 = 0;
    let mut i: usize = 0;
    while i < flavor_dirs.len()
        invariant
            i <= flavor_dirs.len(),
            clearable_total(flavor_dirs@) <= u64::MAX,
            n == clearable_total(flavor_dirs@.subrange(0, i as int)),
        decreases flavor_dirs.len() - i,
    {
        let gone = videos_to_clear(&flavor_dirs[i]);
        proof {
            let s = flavor_dirs@.subrange(0, i + 1);
            assert(s.drop_last() =~= flavor_dirs@.subrange(0, i as int));
            lemma_total_prefix(flavor_dirs@, i + 1);
            assert(gone@ == clearable_in(flavor_dirs@[i as int]@)) by {
                if kept_spec(flavor_dirs@[i as int]@) is None {
                    assert(gone@ =~= Seq::<VideoFile>::empty());
                }
            }
        }
        let b = total_size(&gone);
        n = n + b;
        i = i + 1;
    }
    assert(flavor_dirs@.subrange(0, flavor_dirs.len() as int) =~= flavor_dirs@);
    n
}

/// The number of MP4s among the files.
pub open spec fn mp4_count(files: Seq<VideoFile>) -> nat
    decreases files.len(),
{
    if files.len() == 0 {
        0
    } else {
        mp4_count(files.drop_last()) + if is_mp4_name(files.last().name@) {
            1nat
        } else {
            0nat
        }
    }
}

proof fn lemma_to_clear_count(files: Seq<VideoFile>, k: int)
    ensures
        forall|i: int|
            0 <= i < to_clear_spec(files, k).len() ==> is_mp4_name(
                #[trigger] to_clear_spec(files, k)[i].name@,
            ),
        0 <= k < files.len() && is_mp4_name(files[k].name@) ==> to_clear_spec(files, k).len() + 1
            == mp4_count(files),
        !(0 <= k < files.len()) ==> to_clear_spec(files, k).len() == mp4_count(files),
    decreases files.len(),
{
    if files.len() > 0 {
        let d = files.drop_last();
        lemma_to_clear_count(d, k);
        if 0 <= k < files.len() - 1 {
            assert(d[k] == files[k]);
        }
        let t = to_clear_spec(files, k);
        let r = to_clear_spec(d, k);
        assert forall|i: int| 0 <= i < t.len() implies is_mp4_name(#[trigger] t[i].name@) by {
            if i < r.len() {
                assert(t[i] == r[i]);
            }
        }
    }
}

/// Clearing keeps exactly one MP4 in a flavour directory that holds any:
/// what is removed are MP4s only, one fewer than the directory holds.
pub proof fn law_one_video_kept(files: Seq<VideoFile>)
    requires
        mp4_count(files) > 0,
    ensures
        clearable_in(files).len() + 1 == mp4_count(files),
        forall|i: int|
            0 <= i < clearable_in(files).len() ==> is_mp4_name(
                #[trigger] clearable_in(files)[i].name@,
            ),
{
    if kept_spec(files) is None {
        if no_mp4(files) {
            lemma_count_zero(files);
        }
        assert(!no_mp4(files));
        let j = choose|j: int| 0 <= j < files.len() && is_mp4_name(files[j].name@);
        lemma_some_kept(files);
    }
    let k = kept_spec(files)->0;
    let c = choose|c: int| is_kept(files, c);
    lemma_to_clear_count(files, k);
}

proof fn lemma_count_zero(files: Seq<VideoFile>)
    requires
        no_mp4(files),
    ensures
        mp4_count(files) == 0,
    decreases files.len(),
{
    if files.len() > 0 {
        let d = files.drop_last();
        assert forall|j: int| 0 <= j < d.len() implies !is_mp4_name(#[trigger] d[j].name@) by {
            assert(d[j] == files[j]);
        }
        lemma_count_zero(d);
        assert(!is_mp4_name(files[files.len() - 1].name@));
    }
}

/// Some MP4 is kept whenever the directory holds one.
proof fn lemma_some_kept(files: Seq<VideoFile>)
    requires
        !no_mp4(files),
    ensures
        kept_spec(files) is Some,
{
    let k = min_mp4(files, files.len() as int);
    assert(is_kept(files, k));
}

/// The position of the first MP4 with the least name among `files[..n]`.
proof fn min_mp4(files: Seq<VideoFile>, n: int) -> (k: int)
    requires
        0 <= n <= files.len(),
        exists|j: int| 0 <= j < n && is_mp4_name(files[j].name@),
    ensures
        0 <= k < n,
        is_mp4_name(files[k].name@),
        forall|j: int|
            0 <= j < n && is_mp4_name(files[j].name@) ==> !text_lt(
                #[trigger] files[j].name@,
                files[k].name@,
            ),
        forall|j: int|
            0 <= j < k && is_mp4_name(files[j].name@) ==> text_lt(
                files[k].name@,
                #[trigger] files[j].name@,
            ),
        n == files.len() ==> is_kept(files, k),
    decreases n,
{
    let last = n - 1;
    if exists|j: int| 0 <= j < last && is_mp4_name(files[j].name@) {
        let k0 = min_mp4(files, last);
        if is_mp4_name(files[last].name@) && text_lt(files[last].name@, files[k0].name@) {
            let nl = files[last].name@;
            assert forall|j: int|
                0 <= j < n && is_mp4_name(files[j].name@) implies !text_lt(
                #[trigger] files[j].name@,
                nl,
            ) by {
                let nj = files[j].name@;
                if j < last && text_lt(nj, nl) {
                    lemma_lt_transitive(nj, nl, files[k0].name@);
                }
                if j == last {
                    lemma_lt_irreflexive(nl);
                }
            }
            assert forall|j: int|
                0 <= j < last && is_mp4_name(files[j].name@) implies text_lt(
                nl,
                #[trigger] files[j].name@,
            ) by {
                let nj = files[j].name@;
                lemma_lt_total(nl, nj);
                if nj == nl {
                    lemma_lt_irreflexive(nl);
                }
            }
            last
        } else {
            k0
        }
    } else {
        lemma_lt_irreflexive(files[last].name@);
        last
    }
}

/// The files of a directory that stay when every MP4 but the one at `k`
/// is removed, in directory order.
pub open spec fn kept_files(files: Seq<VideoFile>, k: int) -> Seq<VideoFile>
    decreases files.len(),
{
    if files.len() == 0 {
        seq![]
    } else {
        let rest = kept_files(files.drop_last(), k);
        if !is_mp4_name(files.last().name@) || files.len() - 1 == k {
            rest.push(files.last())
        } else {
            rest
        }
    }
}

/// What is left of a flavour directory once its clearable videos are gone.
pub open spec fn left_after_clearing(files: Seq<VideoFile>) -> Seq<VideoFile> {
    match kept_spec(files) {
        Some(k) => kept_files(files, k),
        None => files,
    }
}

proof fn lemma_kept_files_count(files: Seq<VideoFile>, k: int)
    ensures
        mp4_count(kept_files(files, k)) == if 0 <= k < files.len() && is_mp4_name(
            files[k].name@,
        ) {
            1nat
        } else {
            0nat
        },
    decreases files.len(),
{
    if files.len() > 0 {
        let d = files.drop_last();
        lemma_kept_files_count(d, k);
        if 0 <= k < d.len() {
            assert(d[k] == files[k]);
        }
        let r = kept_files(d, k);
        let x = files.last();
        assert(r.push(x).drop_last() =~= r);
    }
}

proof fn lemma_none_kept_no_mp4(files: Seq<VideoFile>)
    requires
        kept_spec(files) is None,
    ensures
        no_mp4(files),
{
    if !no_mp4(files) {
        lemma_some_kept(files);
    }
}

/// Clearing splits a directory's files: each file is either removed or
/// left, and none is both.
pub proof fn law_clearing_splits_files(files: Seq<VideoFile>, k: int)
    ensures
        to_clear_spec(files, k).to_multiset().add(kept_files(files, k).to_multiset())
            =~= files.to_multiset(),
    decreases files.len(),
{
    broadcast use vstd::seq_lib::group_to_multiset_ensures, vstd::multiset::group_multiset_axioms;

    if files.len() == 0 {
        assert(to_clear_spec(files, k) =~= Seq::<VideoFile>::empty());
        assert(kept_files(files, k) =~= Seq::<VideoFile>::empty());
        assert(files =~= Seq::<VideoFile>::empty());
    } else {
        let d = files.drop_last();
        let x = files.last();
        law_clearing_splits_files(d, k);
        assert(d.push(x) =~= files);
        let c = to_clear_spec(d, k);
        let r = kept_files(d, k);
        if is_mp4_name(x.name@) && files.len() - 1 != k {
            assert(to_clear_spec(files, k) == c.push(x));
            assert(kept_files(files, k) == r);
            assert(c.push(x).to_multiset().add(r.to_multiset()) =~= c.to_multiset().add(
                r.to_multiset(),
            ).insert(x));
        } else {
            assert(to_clear_spec(files, k) == c);
            assert(kept_files(files, k) == r.push(x));
            assert(c.to_multiset().add(r.push(x).to_multiset()) =~= c.to_multiset().add(
                r.to_multiset(),
            ).insert(x));
        }
    }
}

/// Clearing a flavour directory leaves nothing more to clear: the kept video
/// is then the only MP4, and clearing again removes nothing.
pub proof fn law_clearing_leaves_nothing(files: Seq<VideoFile>)
    ensures
        mp4_count(left_after_clearing(files)) <= 1,
        clearable_in(left_after_clearing(files)).len() == 0,
        bytes_of(clearable_in(left_after_clearing(files))) == 0,
{
    let left = left_after_clearing(files);
    match kept_spec(files) {
        Some(k) => {
            let c = choose|c: int| is_kept(files, c);
            lemma_kept_files_count(files, k);
        },
        None => {
            lemma_none_kept_no_mp4(files);
            lemma_count_zero(files);
        },
    }
    if mp4_count(left) == 0 {
        if kept_spec(left) is Some {
            let k2 = kept_spec(left)->0;
            let c = choose|c: int| is_kept(left, c);
            lemma_some_mp4_counted(left, c);
        }
    } else {
        law_one_video_kept(left);
    }
    assert(clearable_in(left) =~= Seq::<VideoFile>::empty());
}

proof fn lemma_some_mp4_counted(files: Seq<VideoFile>, j: int)
    requires
        0 <= j < files.len(),
        is_mp4_name(files[j].name@),
    ensures
        mp4_count(files) > 0,
    decreases files.len(),
{
    if j < files.len() - 1 {
        let d = files.drop_last();
        assert(d[j] == files[j]);
        lemma_some_mp4_counted(d, j);
    }
}

/// After every flavour directory has been cleared, no bytes are left to
/// clear.
pub proof fn law_cleared_total_is_zero(before: Seq<Vec<VideoFile>>, after: Seq<Vec<VideoFile>>)
    requires
        after.len() == before.len(),
        forall|i: int| 0 <= i < after.len() ==> #[trigger] after[i]@ == left_after_clearing(
            before[i]@,
        ),
    ensures
        clearable_total(after) == 0,
    decreases after.len(),
{
    if after.len() > 0 {
        let n = after.len() - 1;
        law_cleared_total_is_zero(before.drop_last(), after.drop_last());
        assert(after[n]@ == left_after_clearing(before[n]@));
        law_clearing_leaves_nothing(before[n]@);
    }
}

/// A full clear of a flavour directory removes exactly what `clearable_in`
/// lists (what `videos_to_clear` returns), leaves the rest, and leaves
/// nothing more to clear.
pub proof fn law_full_clear(files: Seq<VideoFile>)
    ensures
        clearable_in(files).to_multiset().add(left_after_clearing(files).to_multiset())
            =~= files.to_multiset(),
        clearable_in(left_after_clearing(files)).len() == 0,
{
    law_clearing_leaves_nothing(files);
    match kept_spec(files) {
        Some(k) => {
            law_clearing_splits_files(files, k);
        },
        None => {
            broadcast use vstd::seq_lib::group_to_multiset_ensures, vstd::multiset::group_multiset_axioms;

            assert(clearable_in(files) =~= Seq::<VideoFile>::empty());
            assert(Seq::<VideoFile>::empty().to_multiset() =~= vstd::multiset::Multiset::empty());
        },
    }
}

} // verus!
