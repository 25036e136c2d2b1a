//! The recent pitch history drawn under the lyrics: a window of the
//! latest samples that forgets the oldest once it is full; and the window of
//! the vocals track that a pitch is read from.
use vstd::prelude::*;

verus! {

/// The history after recording `item`: once it holds `capacity` items or
/// more, the oldest is forgotten first.
pub open spec fn recorded<T>(history: Seq<T>, item: T, capacity: nat) -> Seq<T> {
    if history.len() >= capacity && history.len() > 0 {
        history.drop_first().push(item)
    } else {
        history.push(item)
    }
}

/// Records `item` as the latest sample, forgetting the oldest when the
/// history is full.
pub fn push_recent<T>(history: &mut std::collections::VecDeque<T>, item: T, capacity: usize)
    ensures
        final(history)@ == recorded(old(history)@, item, capacity as nat),
{
    if history.len() >= capacity {
        let _ = history.pop_front();
    }
    history.push_back(item);
}

/// A history that starts within its capacity stays within it, and always
/// ends with the latest sample.
pub proof fn law_history_bounded<T>(history: Seq<T>, item: T, capacity: nat)
    requires
        history.len() <= capacity,
        capacity > 0,
    ensures
        recorded(history, item, capacity).len() <= capacity,
        recorded(history, item, capacity).last() == item,
        history.len() < capacity ==> recorded(history, item, capacity) == history.push(item),
{
}

/// A history after a push whose fullness was judged elsewhere: when `full`,
/// its oldest sample (if any) is forgotten first.
pub open spec fn pushed<T>(history: Seq<T>, item: T, full: bool) -> Seq<T> {
    if full && history.len() > 0 {
        history.drop_first().push(item)
    } else {
        history.push(item)
    }
}

/// Records one sample in each of the three pitch histories kept side by side
/// (reference pitch, sung pitch, similarity). All three forget their oldest
/// sample when the first of them is full.
pub fn push_sample<A, B, C>(
    refs: &mut std::collections::VecDeque<A>,
    users: &mut std::collections::VecDeque<B>,
    sims: &mut std::collections::VecDeque<C>,
    reference: A,
    sung: B,
    similarity: C,
    capacity: usize,
)
    ensures
        final(refs)@ == pushed(old(refs)@, reference, old(refs)@.len() >= capacity),
        final(users)@ == pushed(old(users)@, sung, old(refs)@.len() >= capacity),
        final(sims)@ == pushed(old(sims)@, similarity, old(refs)@.len() >= capacity),
{
    if refs.len() >= capacity {
        let _ = refs.pop_front();
        let _ = users.pop_front();
        let _ = sims.pop_front();
    }
    refs.push_back(reference);
    users.push_back(sung);
    sims.push_back(similarity);
}

/// Histories of equal length within the capacity stay of equal length
/// within it, and each ends with its latest sample.
pub proof fn law_histories_stay_aligned<A, B, C>(
    refs: Seq<A>,
    users: Seq<B>,
    sims: Seq<C>,
    a: A,
    b: B,
    c: C,
    capacity: nat,
)
    requires
        refs.len() == users.len() == sims.len() <= capacity,
        capacity > 0,
    ensures
        pushed(refs, a, refs.len() >= capacity).len() == pushed(users, b, refs.len() >= capacity).len(),
        pushed(users, b, refs.len() >= capacity).len() == pushed(sims, c, refs.len() >= capacity).len(),
        pushed(refs, a, refs.len() >= capacity).len() <= capacity,
        pushed(refs, a, refs.len() >= capacity).last() == a,
        pushed(users, b, refs.len() >= capacity).last() == b,
        pushed(sims, c, refs.len() >= capacity).last() == c,
{
}

/// The samples `start..start + size` of a track `len` samples long, when
/// they are all in it.
pub fn window_range(start: usize, size: usize, len: usize) -> (r: Option<(usize, usize)>)
    requires
        start + size <= usize::MAX,
    ensures
        start + size > len ==> r is None,
        start + size <= len ==> r == Some((start, (start + size) as usize)),
{
    if start + size > len {
        None
    } else {
        Some((start, start + size))
    }
}

} // verus!
