//! Positions of the marked entries of a list, in increasing order.

use vstd::prelude::*;

verus! {

/// The positions below `n` at which `flags` holds `true`, in increasing order.
pub open spec fn marked_upto(flags: Seq<bool>, n: nat) -> Seq<usize>
    decreases n,
{
    if n == 0 {
        Seq::empty()
    } else {
        let before = marked_upto(flags, (n - 1) as nat);
        if flags[n - 1] {
            before.push((n - 1) as usize)
        } else {
            before
        }
    }
}

/// The positions at which `flags` holds `true`, in increasing order.
pub open spec fn marked(flags: Seq<bool>) -> Seq<usize> {
    marked_upto(flags, flags.len())
}

/// The least position at or after `from` at which `flags` holds `true`.
pub open spec fn first_marked_from(flags: Seq<bool>, from: nat) -> Option<usize>
    decreases flags.len() - from,
{
    if from >= flags.len() {
        None
    } else if flags[from as int] {
        Some(from as usize)
    } else {
        first_marked_from(flags, from + 1)
    }
}

/// The least position at which `flags` holds `true`.
pub open spec fn first_marked(flags: Seq<bool>) -> Option<usize> {
    first_marked_from(flags, 0)
}

/// `marked_upto` lists exactly the marked positions below `n`, each once and in order.
pub proof fn lemma_marked_upto(flags: Seq<bool>, n: nat)
    requires
        n <= flags.len(),
        flags.len() <= usize::MAX,
    ensures
        marked_upto(flags, n).len() <= n,
        forall|k: int|
            0 <= k < marked_upto(flags, n).len() ==> (#[trigger] marked_upto(flags, n)[k]) < n
                && flags[marked_upto(flags, n)[k] as int],
        forall|j: int, k: int|
            0 <= j < k < marked_upto(flags, n).len() ==> (#[trigger] marked_upto(flags, n)[j])
                < (#[trigger] marked_upto(flags, n)[k]),
        forall|i: int|
            0 <= i < n && flags[i] ==> #[trigger] marked_upto(flags, n).contains(i as usize),
    decreases n,
{
    if n > 0 {
        let before = marked_upto(flags, (n - 1) as nat);
        lemma_marked_upto(flags, (n - 1) as nat);
        let now = marked_upto(flags, n);
        if flags[n - 1] {
            assert(now[now.len() - 1] == (n - 1) as usize);
            assert forall|i: int| 0 <= i < n && flags[i] implies #[trigger] now.contains(
                i as usize,
            ) by {
                if i < n - 1 {
                    assert(before.contains(i as usize));
                    let k = choose|k: int| 0 <= k < before.len() && before[k] == i as usize;
                    assert(now[k] == i as usize);
                } else {
                    assert(now[now.len() - 1] == i as usize);
                }
            }
        }
    }
}

/// Where every entry is marked, the marked positions are all positions.
pub proof fn lemma_marked_all(flags: Seq<bool>, n: nat)
    requires
        n <= flags.len(),
        flags.len() <= usize::MAX,
        forall|i: int| 0 <= i < n ==> flags[i],
    ensures
        marked_upto(flags, n) =~= Seq::new(n, |i: int| i as usize),
    decreases n,
{
    if n > 0 {
        lemma_marked_all(flags, (n - 1) as nat);
    }
}

/// Where no entry is marked, there is no marked position.
pub proof fn lemma_marked_none(flags: Seq<bool>, n: nat)
    requires
        n <= flags.len(),
        forall|i: int| 0 <= i < n ==> !flags[i],
    ensures
        marked_upto(flags, n) =~= Seq::<usize>::empty(),
    decreases n,
{
    if n > 0 {
        lemma_marked_none(flags, (n - 1) as nat);
    }
}

/// `first_marked_from` finds the least marked position at or after `from`, or
/// none where there is none.
pub proof fn lemma_first_marked_from(flags: Seq<bool>, from: nat)
    requires
        flags.len() <= usize::MAX,
    ensures
        match first_marked_from(flags, from) {
            Some(p) => from <= p < flags.len() && flags[p as int] && forall|i: int|
                from <= i < p ==> !flags[i],
            None => forall|i: int| from <= i < flags.len() ==> !flags[i],
        },
    decreases flags.len() - from,
{
    if from < flags.len() && !flags[from as int] {
        lemma_first_marked_from(flags, from + 1);
    }
}

} // verus!
