//! The bounded-stack discipline shared by both history engines.
//!
//! A history stack is a most-recent-first sequence: index 0 is the newest
//! entry, the last index the oldest. Insertion always happens at the front;
//! when the stack is at its limit, the oldest entries are evicted from the
//! back first. Lowering the limit trims from the back as well.

use std::collections::VecDeque;
use vstd::prelude::*;

verus! {

/// What survives of a most-recent-first sequence when at most `n` entries may
/// stay: the `n` newest, i.e. the first `n`.
pub open spec fn keep_newest<T>(s: Seq<T>, n: nat) -> Seq<T> {
    if s.len() <= n {
        s
    } else {
        s.take(n as int)
    }
}

/// Push `item` on the front of `s`, first evicting from the back until fewer
/// than `limit` entries remain.
pub open spec fn push_evict<T>(s: Seq<T>, item: T, limit: nat) -> Seq<T>
    recommends
        1 <= limit,
{
    seq![item] + keep_newest(s, (limit - 1) as nat)
}

/// Push each entry of `cmds` in order (index 0 first) onto `s`.
pub open spec fn batch_push<T>(s: Seq<T>, cmds: Seq<T>, limit: nat) -> Seq<T>
    decreases cmds.len(),
{
    if cmds.len() == 0 {
        s
    } else {
        batch_push(push_evict(s, cmds[0], limit), cmds.skip(1), limit)
    }
}

/// Pop from the back until at most `bound` entries remain: the stack keeps
/// exactly its `bound` newest entries, in order.
pub fn trim_back<T>(items: &mut VecDeque<T>, bound: usize)
    ensures
        final(items)@ == keep_newest(old(items)@, bound as nat),
{
    let ghost orig = items@;
    proof {
        assert(orig.take(orig.len() as int) =~= orig);
    }
    while items.len() > bound
        invariant
            items@.len() <= orig.len(),
            items@ == orig.take(items@.len() as int),
            orig.len() > bound ==> items@.len() >= bound,
            orig.len() <= bound ==> items@.len() == orig.len(),
        decreases items@.len(),
    {
        items.pop_back();
        proof {
            assert(items@ =~= orig.take(items@.len() as int));
        }
    }
    proof {
        assert(items@ =~= keep_newest(orig, bound as nat));
    }
}

/// Capacity law: a bounded push never exceeds the limit. The stack grows by
/// exactly one entry when below the limit and stays at the limit otherwise
/// (the oldest entry is evicted).
pub proof fn lemma_push_evict_len<T>(s: Seq<T>, item: T, limit: nat)
    requires
        1 <= limit,
    ensures
        push_evict(s, item, limit).len() <= limit,
        s.len() < limit ==> push_evict(s, item, limit).len() == s.len() + 1,
        s.len() >= limit ==> push_evict(s, item, limit).len() == limit,
{
}

/// Conservation law: with no capacity eviction in play (the redo stack is
/// below the limit), an `undo` move followed by a `redo` move restores both
/// stacks exactly, and each move preserves the total number of commands held
/// across the two stacks.
pub proof fn lemma_undo_redo_round_trip<T>(undo_s: Seq<T>, redo_s: Seq<T>, limit: nat)
    requires
        1 <= limit,
        0 < undo_s.len() <= limit,
        redo_s.len() < limit,
    ensures
        ({
            let undo_after = undo_s.skip(1);
            let redo_after = push_evict(redo_s, undo_s[0], limit);
            &&& redo_after.len() > 0
            &&& redo_after[0] == undo_s[0]
            &&& undo_after.len() + redo_after.len() == undo_s.len() + redo_s.len()
            &&& push_evict(undo_after, redo_after[0], limit) == undo_s
            &&& redo_after.skip(1) == redo_s
        }),
{
    let undo_after = undo_s.skip(1);
    let redo_after = push_evict(redo_s, undo_s[0], limit);
    assert(redo_after =~= seq![undo_s[0]] + redo_s);
    assert(redo_after.skip(1) =~= redo_s);
    assert(push_evict(undo_after, redo_after[0], limit) =~= undo_s);
}

/// Sequential pushes seen as one truncation: pushing `cmds` in order onto a
/// stack within its limit leaves the reversed batch in front of the old
/// stack, truncated to the `limit` newest entries.
pub proof fn lemma_batch_push_keep<T>(s: Seq<T>, cmds: Seq<T>, limit: nat)
    requires
        1 <= limit,
        s.len() <= limit,
    ensures
        batch_push(s, cmds, limit) == keep_newest(cmds.reverse() + s, limit),
    decreases cmds.len(),
{
    if cmds.len() == 0 {
        assert(cmds.reverse() + s =~= s);
    } else {
        let c0 = cmds[0];
        let rest = cmds.skip(1);
        let s1 = push_evict(s, c0, limit);
        lemma_batch_push_keep(s1, rest, limit);
        let x = rest.reverse() + s1;
        let y = cmds.reverse() + s;
        let kept = keep_newest(s, (limit - 1) as nat);
        assert forall|i: int| 0 <= i < keep_newest(x, limit).len() implies keep_newest(
            x,
            limit,
        )[i] == keep_newest(y, limit)[i] by {
            let n = cmds.len() as int;
            if i < n - 1 {
                assert(x[i] == rest[rest.len() - 1 - i]);
                assert(y[i] == cmds[n - 1 - i]);
            } else if i == n - 1 {
                assert(x[i] == s1[0]);
                assert(y[i] == cmds.reverse()[n - 1]);
            } else {
                assert(x[i] == s1[i - (n - 1)]);
                assert(s1[i - (n - 1)] == kept[i - n]);
                assert(y[i] == s[i - n]);
            }
        }
        assert(keep_newest(x, limit) =~= keep_newest(y, limit));
    }
}

/// Eviction-order law: with limit `N`, `N + 1` sequential pushes onto an
/// empty stack discard exactly the first-pushed command; the `N` kept are
/// the `N` most recent, most recent first.
pub proof fn lemma_eviction_order<T>(cmds: Seq<T>, limit: nat)
    requires
        1 <= limit,
        cmds.len() == limit + 1,
    ensures
        batch_push(Seq::empty(), cmds, limit) == cmds.skip(1).reverse(),
{
    lemma_batch_push_keep(Seq::empty(), cmds, limit);
    assert(cmds.reverse() + Seq::<T>::empty() =~= cmds.reverse());
    assert(keep_newest(cmds.reverse(), limit) =~= cmds.skip(1).reverse());
}

/// Push `item` on the front, evicting from the back while the stack is at or
/// over `limit`; the result never exceeds `limit` entries.
pub fn push_evict_front<T>(items: &mut VecDeque<T>, item: T, limit: usize)
    requires
        1 <= limit,
    ensures
        final(items)@ == push_evict(old(items)@, item, limit as nat),
        final(items)@.len() <= limit,
{
    trim_back(items, limit - 1);
    items.push_front(item);
}

} // verus!
