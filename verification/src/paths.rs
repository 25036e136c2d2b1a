//! The parts of a path that the library reads: its file name, the stem and
//! the extension of that name, as `std::path::Path` defines them.
use vstd::prelude::*;
use crate::layout::is_sep;
use crate::text::{chars_of, string_of};

verus! {

/// The position of the last separator in `p`, or -1 when there is none.
pub open spec fn last_sep(p: Seq<char>, windows: bool) -> int
    decreases p.len(),
{
    if p.len() == 0 {
        -1
    } else if is_sep(p.last(), windows) {
        p.len() - 1
    } else {
        last_sep(p.drop_last(), windows)
    }
}

pub proof fn lemma_last_sep(p: Seq<char>, windows: bool)
    ensures
        -1 <= last_sep(p, windows) < p.len(),
        last_sep(p, windows) >= 0 ==> is_sep(p[last_sep(p, windows)], windows),
        forall|j: int| last_sep(p, windows) < j < p.len() ==> !is_sep(#[trigger] p[j], windows),
    decreases p.len(),
{
    if p.len() > 0 && !is_sep(p.last(), windows) {
        lemma_last_sep(p.drop_last(), windows);
        assert forall|j: int| last_sep(p, windows) < j < p.len() implies !is_sep(
            #[trigger] p[j],
            windows,
        ) by {
            if j < p.len() - 1 {
                assert(p[j] == p.drop_last()[j]);
            }
        }
    }
}

/// The last normal component of `p`: trailing separators and `.`
/// components are passed over; a trailing `..`, or no component at all,
/// gives none.
pub open spec fn file_name_spec(p: Seq<char>, windows: bool) -> Option<Seq<char>>
    decreases p.len(),
{
    if p.len() == 0 {
        None
    } else if is_sep(p.last(), windows) {
        file_name_spec(p.drop_last(), windows)
    } else {
        let k = last_sep(p, windows);
        let seg = p.subrange(k + 1, p.len() as int);
        if seg == "."@ {
            if k < 0 {
                None
            } else {
                proof {
                    lemma_last_sep(p, windows);
                }
                file_name_spec(p.subrange(0, k), windows)
            }
        } else if seg == ".."@ {
            None
        } else {
            Some(seg)
        }
    }
}

/// The file name without its extension: the whole name when it has no `.`
/// or only a leading one, otherwise the text before its last `.`.
pub open spec fn stem_of(name: Seq<char>) -> Seq<char> {
    let d = last_dot(name);
    if d <= 0 {
        name
    } else {
        name.subrange(0, d)
    }
}

/// The extension of a file name: the text after its last `.`, when that
/// `.` is not the name's first character.
pub open spec fn extension_of(name: Seq<char>) -> Option<Seq<char>> {
    let d = last_dot(name);
    if d <= 0 {
        None
    } else {
        Some(name.subrange(d + 1, name.len() as int))
    }
}

/// The position of the last `.` in `s`, or -1 when there is none.
pub open spec fn last_dot(s: Seq<char>) -> int
    decreases s.len(),
{
    if s.len() == 0 {
        -1
    } else if s.last() == '.' {
        s.len() - 1
    } else {
        last_dot(s.drop_last())
    }
}

pub proof fn lemma_last_dot(s: Seq<char>)
    ensures
        -1 <= last_dot(s) < s.len(),
        last_dot(s) >= 0 ==> s[last_dot(s)] == '.',
        forall|j: int| last_dot(s) < j < s.len() ==> #[trigger] s[j] != '.',
    decreases s.len(),
{
    if s.len() > 0 && s.last() != '.' {
        lemma_last_dot(s.drop_last());
        assert forall|j: int| last_dot(s) < j < s.len() implies #[trigger] s[j] != '.' by {
            if j < s.len() - 1 {
                assert(s[j] == s.drop_last()[j]);
            }
        }
    }
}

/// The file stem of the path, as `Path::file_stem` gives it.
pub open spec fn file_stem_spec(p: Seq<char>, windows: bool) -> Option<Seq<char>> {
    match file_name_spec(p, windows) {
        Some(n) => Some(stem_of(n)),
        None => None,
    }
}

/// The extension of the path, as `Path::extension` gives it.
pub open spec fn extension_spec(p: Seq<char>, windows: bool) -> Option<Seq<char>> {
    match file_name_spec(p, windows) {
        Some(n) => extension_of(n),
        None => None,
    }
}

fn last_sep_in(v: &Vec<char>, end: usize, windows: bool) -> (r: Option<usize>)
    requires
        end <= v.len(),
    ensures
        match r {
            Some(k) => k < end && last_sep(v@.subrange(0, end as int), windows) == k,
            None => last_sep(v@.subrange(0, end as int), windows) == -1,
        },
{
    let mut j = end;
    while j > 0
        invariant
            j <= end <= v.len(),
            last_sep(v@.subrange(0, end as int), windows) == last_sep(
                v@.subrange(0, j as int),
                windows,
            ),
        decreases j,
    {
        let c = v[j - 1];
        proof {
            let s = v@.subrange(0, j as int);
            assert(s.last() == c);
            assert(s.drop_last() =~= v@.subrange(0, j - 1));
        }
        if c == '/' || (windows && c == '\\') {
            return Some(j - 1);
        }
        j = j - 1;
    }
    None
}

/// Where the file name of `v[..end]` lies in `v`, if it has one.
fn file_name_bounds(v: &Vec<char>, end: usize, windows: bool) -> (r: Option<(usize, usize)>)
    requires
        end <= v.len(),
    ensures
        match r {
            Some((lo, hi)) => lo <= hi <= end && file_name_spec(
                v@.subrange(0, end as int),
                windows,
            ) == Some(v@.subrange(lo as int, hi as int)),
            None => file_name_spec(v@.subrange(0, end as int), windows) is None,
        },
    decreases end,
{
    proof {
        reveal_strlit(".");
        reveal_strlit("..");
    }
    if end == 0 {
        return None;
    }
    let ghost p = v@.subrange(0, end as int);
    let c = v[end - 1];
    assert(p.last() == c);
    assert(p.drop_last() =~= v@.subrange(0, end - 1));
    if c == '/' || (windows && c == '\\') {
        return file_name_bounds(v, end - 1, windows);
    }
    let k = last_sep_in(v, end, windows);
    let start = match k {
        Some(k) => k + 1,
        None => 0,
    };
    proof {
        lemma_last_sep(p, windows);
    }
    let ghost seg = p.subrange(last_sep(p, windows) + 1, p.len() as int);
    assert(seg =~= v@.subrange(start as int, end as int));
    let len = end - start;
    let is_dot = len == 1 && v[start] == '.';
    let is_dotdot = len == 2 && v[start] == '.' && v[start + 1] == '.';
    proof {
        if is_dot {
            assert(seg =~= "."@);
        } else if seg == "."@ {
            assert(seg[0] == v@[start as int]);
        }
        if is_dotdot {
            assert(seg =~= ".."@);
        } else if seg == ".."@ {
            assert(seg[0] == v@[start as int]);
            assert(seg[1] == v@[start + 1]);
        }
    }
    if is_dot {
        match k {
            None => None,
            Some(k) => {
                assert(p.subrange(0, k as int) =~= v@.subrange(0, k as int));
                file_name_bounds(v, k, windows)
            },
        }
    } else if is_dotdot {
        None
    } else {
        Some((start, end))
    }
}

fn last_dot_in(v: &Vec<char>, lo: usize, hi: usize) -> (r: Option<usize>)
    requires
        lo <= hi <= v.len(),
    ensures
        match r {
            Some(d) => lo <= d < hi && last_dot(v@.subrange(lo as int, hi as int)) == d - lo,
            None => last_dot(v@.subrange(lo as int, hi as int)) == -1,
        },
{
    let mut j = hi;
    while j > lo
        invariant
            lo <= j <= hi <= v.len(),
            last_dot(v@.subrange(lo as int, hi as int)) == last_dot(
                v@.subrange(lo as int, j as int),
            ),
        decreases j,
    {
        proof {
            let s = v@.subrange(lo as int, j as int);
            assert(s.last() == v@[j - 1]);
            assert(s.drop_last() =~= v@.subrange(lo as int, j - 1));
        }
        if v[j - 1] == '.' {
            return Some(j - 1);
        }
        j = j - 1;
    }
    None
}

/// The file stem of `path`.
pub fn file_stem(path: &str, windows: bool) -> (r: Option<String>)
    ensures
        match r {
            Some(s) => file_stem_spec(path@, windows) == Some(s@),
            None => file_stem_spec(path@, windows) is None,
        },
{
    let v = chars_of(path);
    assert(v@.subrange(0, v.len() as int) =~= v@);
    match file_name_bounds(&v, v.len(), windows) {
        None => None,
        Some((lo, hi)) => {
            let ghost name = v@.subrange(lo as int, hi as int);
            match last_dot_in(&v, lo, hi) {
                Some(d) => if d > lo {
                    assert(name.subrange(0, d - lo) =~= v@.subrange(lo as int, d as int));
                    Some(string_of(&v, lo, d))
                } else {
                    Some(string_of(&v, lo, hi))
                },
                None => Some(string_of(&v, lo, hi)),
            }
        },
    }
}

/// The extension of `path`.
pub fn extension(path: &str, windows: bool) -> (r: Option<String>)
    ensures
        match r {
            Some(s) => extension_spec(path@, windows) == Some(s@),
            None => extension_spec(path@, windows) is None,
        },
{
    let v = chars_of(path);
    assert(v@.subrange(0, v.len() as int) =~= v@);
    match file_name_bounds(&v, v.len(), windows) {
        None => None,
        Some((lo, hi)) => {
            let ghost name = v@.subrange(lo as int, hi as int);
            match last_dot_in(&v, lo, hi) {
                Some(d) => if d > lo {
                    assert(name.subrange(d - lo + 1, name.len() as int) =~= v@.subrange(
                        d + 1,
                        hi as int,
                    ));
                    Some(string_of(&v, d + 1, hi))
                } else {
                    None
                },
                None => None,
            }
        },
    }
}

} // verus!
