//! The delivery coordinator: runs one notification's entries, in order, one
//! attempt at a time, under the process-wide lock. It decides; its driver
//! takes the lock, sends, waits and reports back.
use vstd::prelude::*;

use crate::delivery::{
    next_transition, transition_of, DeliveryOutcome, EntryResult, Transition, MAX_RETRIES,
};
use crate::models::lark::{build_lark_payload, payload_of, LarkMessage};
use crate::models::miniflux::{MinifluxEntry, MinifluxWebhook};

verus! {

/// The status answered when every entry was delivered.
pub const STATUS_ALL_DELIVERED: u16 = 200;

/// The status answered when at least one entry failed.
pub const STATUS_SOME_FAILED: u16 = 500;

/// How many entries of `rs` ended as `which`.
pub open spec fn count_results(rs: Seq<EntryResult>, which: EntryResult) -> nat
    decreases rs.len(),
{
    if rs.len() == 0 {
        0
    } else {
        count_results(rs.drop_last(), which) + if rs.last() == which {
            1nat
        } else {
            0nat
        }
    }
}

proof fn lemma_counts_add_up(rs: Seq<EntryResult>)
    ensures
        count_results(rs, EntryResult::Delivered) + count_results(rs, EntryResult::FailedFinal)
            == rs.len(),
    decreases rs.len(),
{
    if rs.len() > 0 {
        lemma_counts_add_up(rs.drop_last());
    }
}

proof fn lemma_count_push(rs: Seq<EntryResult>, r: EntryResult, which: EntryResult)
    ensures
        count_results(rs.push(r), which) == count_results(rs, which) + if r == which {
            1nat
        } else {
            0nat
        },
{
    assert(rs.push(r).drop_last() =~= rs);
}

/// The aggregate of a batch.
pub struct BatchSummary {
    pub success_count: usize,
    pub failed_count: usize,
}

impl BatchSummary {
    /// No entry counted yet.
    pub fn new() -> (r: BatchSummary)
        ensures
            r.success_count == 0,
            r.failed_count == 0,
    {
        BatchSummary { success_count: 0, failed_count: 0 }
    }

    /// True when no entry failed.
    pub fn all_delivered(&self) -> (r: bool)
        ensures
            r == (self.failed_count == 0),
    {
        self.failed_count == 0
    }

    /// The status answered to the notification's sender.
    pub fn status_code(&self) -> (r: u16)
        ensures
            r == if self.failed_count == 0 {
                STATUS_ALL_DELIVERED
            } else {
                STATUS_SOME_FAILED
            },
    {
        if self.failed_count == 0 {
            STATUS_ALL_DELIVERED
        } else {
            STATUS_SOME_FAILED
        }
    }
}

/// Where a batch stands.
#[derive(PartialEq, Eq, Structural, Clone, Copy, Debug)]
pub enum Phase {
    /// Entries wait; the lock is not yet held.
    AwaitingLock,
    /// The lock is held and the entry at the cursor is being attempted.
    Delivering,
    /// Every entry has ended; the lock is released (or was never taken).
    Done,
}

/// What the driver does next.
pub enum BatchAction {
    /// Take the process-wide lock, then report `lock_acquired`.
    AcquireLock,
    /// Post `message` and report how the attempt went.
    Send { message: LarkMessage },
    /// Wait `backoff_ms`, then post `message` and report how it went.
    BackoffThenSend { backoff_ms: u64, message: LarkMessage },
    /// Release the lock if it is held, and answer with `summary`.
    Respond { summary: BatchSummary },
}

/// The decisions of one batch, from its start to its answer.
pub struct BatchCoordinator {
    feed_title: String,
    entries: Vec<MinifluxEntry>,
    index: usize,
    retries: u32,
    summary: BatchSummary,
    phase: Phase,
    results: Ghost<Seq<EntryResult>>,
}

/// The message for `entry` of the feed `feed_title`, as text.
pub open spec fn message_for(entry: MinifluxEntry, feed_title: Seq<char>) -> crate::models::lark::MessageView {
    payload_of(entry.title@, entry.url@, feed_title)
}

impl BatchCoordinator {
    /// The feed's title.
    pub closed spec fn feed_title(&self) -> Seq<char> {
        self.feed_title@
    }

    /// The batch's entries, in order.
    pub closed spec fn entries(&self) -> Seq<MinifluxEntry> {
        self.entries@
    }

    /// The entry being attempted: the number of entries that have ended.
    pub closed spec fn cursor(&self) -> nat {
        self.index as nat
    }

    /// The retry counter of the entry being attempted.
    pub closed spec fn retries(&self) -> nat {
        self.retries as nat
    }

    /// The results of the entries that have ended, in order.
    pub closed spec fn results(&self) -> Seq<EntryResult> {
        self.results@
    }

    /// Where the batch stands.
    pub closed spec fn phase(&self) -> Phase {
        self.phase
    }

    /// The aggregate so far.
    pub closed spec fn summary(&self) -> BatchSummary {
        self.summary
    }

    /// The lock is held exactly while entries are being attempted.
    pub open spec fn holds_lock(&self) -> bool {
        self.phase() == Phase::Delivering
    }

    /// The cursor counts the ended entries; the aggregate counts their
    /// results; the phase agrees with the cursor.
    pub closed spec fn wf(&self) -> bool {
        &&& self.index as nat == self.results@.len()
        &&& self.index <= self.entries@.len()
        &&& self.summary.success_count == count_results(self.results@, EntryResult::Delivered)
        &&& self.summary.failed_count == count_results(self.results@, EntryResult::FailedFinal)
        &&& self.retries < MAX_RETRIES
        &&& self.phase == Phase::AwaitingLock ==> self.index == 0 && self.entries@.len() > 0
            && self.retries == 0
        &&& self.phase == Phase::Delivering ==> self.index < self.entries@.len()
        &&& self.phase == Phase::Done ==> self.index == self.entries@.len()
    }

    /// Where the cursor stands: on the first entry not yet ended, which is
    /// the one being attempted while delivering; at the start before the
    /// lock is taken; past the last entry once done.
    pub open spec fn progress(&self) -> bool {
        &&& self.cursor() == self.results().len()
        &&& self.cursor() <= self.entries().len()
        &&& self.retries() < MAX_RETRIES
        &&& self.phase() == Phase::AwaitingLock ==> self.cursor() == 0 && self.entries().len() > 0
        &&& self.phase() == Phase::Delivering ==> self.cursor() < self.entries().len()
        &&& self.phase() == Phase::Done ==> self.cursor() == self.entries().len()
    }

    /// The aggregate of the ended entries, as the batch reports it.
    pub open spec fn counts_match(&self, s: BatchSummary) -> bool {
        &&& s.success_count == count_results(self.results(), EntryResult::Delivered)
        &&& s.failed_count == count_results(self.results(), EntryResult::FailedFinal)
    }

    /// Starts a batch. An empty one is answered at once, without the lock.
    pub fn start(webhook: MinifluxWebhook) -> (r: (BatchCoordinator, BatchAction))
        ensures
            r.0.wf(),
            r.0.progress(),
            r.0.cursor() == 0,
            r.0.entries() == webhook.entries@,
            r.0.feed_title() == webhook.feed_title@,
            r.0.results() == Seq::<EntryResult>::empty(),
            r.0.retries() == 0,
            webhook.entries@.len() == 0 ==> {
                &&& r.0.phase() == Phase::Done
                &&& r.1 matches BatchAction::Respond { summary }
                &&& summary.success_count == 0
                &&& summary.failed_count == 0
            },
            webhook.entries@.len() > 0 ==> r.0.phase() == Phase::AwaitingLock && r.1 is AcquireLock,
    {
        let empty = webhook.entries.len() == 0;
        let c = BatchCoordinator {
            feed_title: webhook.feed_title,
            entries: webhook.entries,
            index: 0,
            retries: 0,
            summary: BatchSummary::new(),
            phase: if empty {
                Phase::Done
            } else {
                Phase::AwaitingLock
            },
            results: Ghost(Seq::empty()),
        };
        if empty {
            (c, BatchAction::Respond { summary: BatchSummary::new() })
        } else {
            (c, BatchAction::AcquireLock)
        }
    }

    /// The message for the entry at the cursor.
    fn current_message(&self) -> (m: LarkMessage)
        requires
            self.index < self.entries@.len(),
        ensures
            m@ == message_for(self.entries@[self.index as int], self.feed_title@),
    {
        build_lark_payload(&self.entries[self.index], self.feed_title.as_str())
    }

    /// The lock is held: the first entry is sent.
    pub fn lock_acquired(&mut self) -> (action: BatchAction)
        requires
            old(self).wf(),
            old(self).phase() == Phase::AwaitingLock,
        ensures
            final(self).wf(),
            final(self).progress(),
            final(self).cursor() == 0,
            final(self).phase() == Phase::Delivering,
            final(self).entries() == old(self).entries(),
            final(self).feed_title() == old(self).feed_title(),
            final(self).results() == old(self).results(),
            final(self).retries() == 0,
            action matches BatchAction::Send { message }
                && message@ == message_for(final(self).entries()[0], final(self).feed_title()),
    {
        self.phase = Phase::Delivering;
        self.current_message_action()
    }

    /// Sends the entry at the cursor.
    fn current_message_action(&self) -> (action: BatchAction)
        requires
            self.index < self.entries@.len(),
        ensures
            action matches BatchAction::Send { message }
                && message@ == message_for(self.entries@[self.index as int], self.feed_title@),
    {
        BatchAction::Send { message: self.current_message() }
    }

    /// The attempt of the entry at the cursor came to `outcome`. A rate
    /// limit under the bound sends the entry again after its backoff; any
    /// terminal outcome is counted and the next entry is sent, or, after
    /// the last, the lock is released and the batch answered.
    pub fn attempted(&mut self, outcome: DeliveryOutcome) -> (action: BatchAction)
        requires
            old(self).wf(),
            old(self).phase() == Phase::Delivering,
        ensures
            final(self).wf(),
            final(self).progress(),
            final(self).entries() == old(self).entries(),
            final(self).feed_title() == old(self).feed_title(),
            match transition_of(old(self).retries(), outcome) {
                Transition::Retry { retries, backoff_ms } => {
                    &&& final(self).phase() == Phase::Delivering
                    &&& final(self).results() == old(self).results()
                    &&& final(self).cursor() == old(self).cursor()
                    &&& final(self).retries() == retries
                    &&& action matches BatchAction::BackoffThenSend { backoff_ms: b, message }
                    &&& b == backoff_ms
                    &&& message@ == message_for(
                        old(self).entries()[old(self).cursor() as int],
                        old(self).feed_title(),
                    )
                },
                Transition::Finished { result } => {
                    &&& final(self).results() == old(self).results().push(result)
                    &&& final(self).cursor() == old(self).cursor() + 1
                    &&& final(self).retries() == 0
                    &&& if final(self).cursor() < final(self).entries().len() {
                        &&& final(self).phase() == Phase::Delivering
                        &&& action matches BatchAction::Send { message }
                        &&& message@ == message_for(
                            final(self).entries()[final(self).cursor() as int],
                            final(self).feed_title(),
                        )
                    } else {
                        &&& final(self).phase() == Phase::Done
                        &&& action matches BatchAction::Respond { summary }
                        &&& final(self).counts_match(summary)
                        &&& summary.success_count + summary.failed_count == final(self).entries().len()
                    }
                },
            },
    {
        match next_transition(self.retries, &outcome) {
            Transition::Retry { retries, backoff_ms } => {
                self.retries = retries;
                BatchAction::BackoffThenSend { backoff_ms, message: self.current_message() }
            },
            Transition::Finished { result } => {
                let n = self.entries.len();
                assert(self.index < n);
                proof {
                    lemma_counts_add_up(self.results@);
                    lemma_count_push(self.results@, result, EntryResult::Delivered);
                    lemma_count_push(self.results@, result, EntryResult::FailedFinal);
                }
                match result {
                    EntryResult::Delivered => {
                        self.summary.success_count = self.summary.success_count + 1;
                    },
                    EntryResult::FailedFinal => {
                        self.summary.failed_count = self.summary.failed_count + 1;
                    },
                }
                self.results = Ghost(self.results@.push(result));
                self.index = self.index + 1;
                self.retries = 0;
                if self.index < self.entries.len() {
                    self.current_message_action()
                } else {
                    self.phase = Phase::Done;
                    proof {
                        lemma_counts_add_up(self.results@);
                    }
                    BatchAction::Respond {
                        summary: BatchSummary {
                            success_count: self.summary.success_count,
                            failed_count: self.summary.failed_count,
                        },
                    }
                }
            },
        }
    }
}

} // verus!
