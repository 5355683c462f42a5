//! What one process-wide lock gives batches that keep the coordinator's
//! protocol: each takes the lock once, attempts deliveries only while it
//! holds it, and releases it once done. Over any history of such events,
//! the attempts of two batches never interleave.
//!
//! The coordinator's contracts give each batch's part of such a history
//! (the lock is taken once, from the start; attempts are made only in the
//! delivering phase; the lock is let go when the batch answers). That the
//! lock admits one holder at a time is the lock's own property, taken here
//! as the premise `well_locked`.
use vstd::prelude::*;

verus! {

/// One event of the lock's history, tagged with the batch it belongs to.
pub enum LockEvent {
    Acquire { batch: nat },
    Attempt { batch: nat },
    Release { batch: nat },
}

/// The batch that holds the lock after the first `n` events of `t`.
pub open spec fn holder_after(t: Seq<LockEvent>, n: nat) -> Option<nat>
    decreases n,
{
    if n == 0 || n > t.len() {
        None
    } else {
        match t[n - 1] {
            LockEvent::Acquire { batch } => Some(batch),
            LockEvent::Release { .. } => None,
            LockEvent::Attempt { .. } => holder_after(t, (n - 1) as nat),
        }
    }
}

/// A history that a lock allows and in which batches attempt deliveries
/// only while holding it: the lock is taken only when free, released only by
/// its holder, and every attempt is made by the holder.
#[verifier::opaque]
pub open spec fn well_locked(t: Seq<LockEvent>) -> bool {
    forall|i: int|
        0 <= i < t.len() ==> match #[trigger] t[i] {
            LockEvent::Acquire { .. } => holder_after(t, i as nat) is None,
            LockEvent::Release { batch } => holder_after(t, i as nat) == Some(batch),
            LockEvent::Attempt { batch } => holder_after(t, i as nat) == Some(batch),
        }
}

/// Batch `b` takes the lock at most once in `t`.
pub open spec fn acquires_once(t: Seq<LockEvent>, b: nat) -> bool {
    forall|i: int, j: int|
        0 <= i < t.len() && 0 <= j < t.len() && #[trigger] t[i] == (LockEvent::Acquire { batch: b })
            && #[trigger] t[j] == (LockEvent::Acquire { batch: b }) ==> i == j
}

/// Where the lock passes to `b` between not being `b`'s after `m` events and
/// being `b`'s after `k`, `b` took it at some event in between.
proof fn lemma_holder_came_from_acquire(t: Seq<LockEvent>, m: nat, k: nat, b: nat) -> (p: int)
    requires
        m < k,
        holder_after(t, m) != Some(b),
        holder_after(t, k) == Some(b),
    ensures
        m <= p < k,
        p < t.len(),
        t[p] == (LockEvent::Acquire { batch: b }),
    decreases k,
{
    let last = (k - 1) as nat;
    match t[last as int] {
        LockEvent::Acquire { batch } => last as int,
        LockEvent::Release { .. } => last as int,
        LockEvent::Attempt { .. } => {
            if last == m {
                last as int
            } else {
                lemma_holder_came_from_acquire(t, m, last, b)
            }
        },
    }
}

/// The attempts of two batches that each take the lock once are not
/// interleaved: no attempt of `b` falls between two attempts of `a`.
pub proof fn lemma_attempts_do_not_interleave(
    t: Seq<LockEvent>,
    a: nat,
    b: nat,
    i: int,
    j: int,
    k: int,
)
    requires
        well_locked(t),
        acquires_once(t, a),
        a != b,
        0 <= i < j < k < t.len(),
        t[i] == (LockEvent::Attempt { batch: a }),
        t[k] == (LockEvent::Attempt { batch: a }),
    ensures
        t[j] != (LockEvent::Attempt { batch: b }),
{
    if t[j] == (LockEvent::Attempt { batch: b }) {
        reveal(well_locked);
        assert(holder_after(t, i as nat) == Some(a));
        assert(holder_after(t, j as nat) == Some(b));
        assert(holder_after(t, k as nat) == Some(a));
        let p = lemma_holder_came_from_acquire(t, 0, i as nat, a);
        let q = lemma_holder_came_from_acquire(t, j as nat, k as nat, a);
        assert(p < q);
    }
}

/// Under one lock, the attempts of two batches that each take it once are
/// totally ordered as blocks: all of `a`'s come before all of `b`'s, or all
/// of `b`'s before all of `a`'s.
pub proof fn lemma_batches_are_serialized(t: Seq<LockEvent>, a: nat, b: nat)
    requires
        well_locked(t),
        acquires_once(t, a),
        acquires_once(t, b),
        a != b,
    ensures
        (forall|i: int, j: int|
            0 <= i < t.len() && 0 <= j < t.len() && #[trigger] t[i] == (LockEvent::Attempt { batch: a })
                && #[trigger] t[j] == (LockEvent::Attempt { batch: b }) ==> i < j)
        || (forall|i: int, j: int|
            0 <= i < t.len() && 0 <= j < t.len() && #[trigger] t[i] == (LockEvent::Attempt { batch: a })
                && #[trigger] t[j] == (LockEvent::Attempt { batch: b }) ==> j < i),
{
    let att_a = LockEvent::Attempt { batch: a };
    let att_b = LockEvent::Attempt { batch: b };
    if !(forall|i: int, j: int|
        0 <= i < t.len() && 0 <= j < t.len() && #[trigger] t[i] == att_a && #[trigger] t[j] == att_b
            ==> i < j) && !(forall|i: int, j: int|
        0 <= i < t.len() && 0 <= j < t.len() && #[trigger] t[i] == att_a && #[trigger] t[j] == att_b
            ==> j < i) {
        let (i1, j1) = choose|i: int, j: int|
            0 <= i < t.len() && 0 <= j < t.len() && #[trigger] t[i] == att_a && #[trigger] t[j] == att_b
                && !(i < j);
        let (i2, j2) = choose|i: int, j: int|
            0 <= i < t.len() && 0 <= j < t.len() && #[trigger] t[i] == att_a && #[trigger] t[j] == att_b
                && !(j < i);
        // b's attempt at j1 comes after a's at i1 (they differ); a's at i2
        // after b's at j2.
        assert(j1 < i1);
        assert(i2 < j2);
        if i1 < j2 {
            lemma_attempts_do_not_interleave(t, b, a, j1, i1, j2);
        } else {
            lemma_attempts_do_not_interleave(t, a, b, i2, j2, i1);
        }
    }
}

} // verus!
