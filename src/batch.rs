use vstd::prelude::*;
use std::sync::mpsc::{Receiver, Sender};
use crate::text::{decimal, summary_message, summary_text, progress_message, progress_text};

verus! {

#[verifier::external_type_specification]
#[verifier::external_body]
#[verifier::reject_recursive_types(T)]
pub struct ExReceiver<T>(Receiver<T>);

#[verifier::external_type_specification]
#[verifier::external_body]
#[verifier::reject_recursive_types(T)]
pub struct ExSender<T>(Sender<T>);

/// Relies on std::sync::mpsc::channel: a fresh channel whose receiver gets
/// what its sender and the sender's clones send.
#[verifier::external_body]
fn open_channel() -> (r: (Sender<bool>, Receiver<bool>)) {
    std::sync::mpsc::channel()
}

/// Relies on std::sync::mpsc::Receiver::try_recv: takes one value that is
/// already waiting, without blocking; `None` when none is (or when every
/// sender is gone). Which it is depends on the workers' timing.
#[verifier::external_body]
fn try_receive(r: &Receiver<bool>) -> (v: Option<bool>) {
    r.try_recv().ok()
}

/// How long, in milliseconds, a closing message stays on show.
pub const SUMMARY_LIFETIME_MS: u64 = 3000;

/// The progress of a batch of jobs, and the message that closed the last one.
///
/// The batch is under way while fewer results than jobs have come in. Times
/// are milliseconds on a clock of the caller's that never runs backwards.
pub struct BatchState {
    pending: usize,
    processed: usize,
    successful: usize,
    failed: usize,
    summary: String,
    summary_since: Option<u64>,
    results: Option<Receiver<bool>>,
}

impl BatchState {
    /// The number of jobs in the current (or last) batch.
    pub closed spec fn pending_spec(&self) -> nat {
        self.pending as nat
    }

    /// The number of results that have come in.
    pub closed spec fn processed_spec(&self) -> nat {
        self.processed as nat
    }

    /// The number of results that report success.
    pub closed spec fn successful_spec(&self) -> nat {
        self.successful as nat
    }

    /// The number of results that report failure.
    pub closed spec fn failed_spec(&self) -> nat {
        self.failed as nat
    }

    /// The message on show.
    pub closed spec fn summary_spec(&self) -> Seq<char> {
        self.summary@
    }

    /// When the message on show was made, if one is.
    pub closed spec fn summary_since_spec(&self) -> Option<u64> {
        self.summary_since
    }

    /// Whether the state holds the receiving end of a batch's results.
    pub closed spec fn holds_receiver(&self) -> bool {
        self.results is Some
    }

    /// A batch is under way until every job has reported.
    pub open spec fn processing_spec(&self) -> bool {
        self.processed_spec() < self.pending_spec()
    }

    /// The counters agree with each other.
    pub open spec fn wf(&self) -> bool {
        &&& self.successful_spec() + self.failed_spec() == self.processed_spec()
        &&& self.processed_spec() <= self.pending_spec()
        &&& self.holds_receiver() == self.processing_spec()
    }

    /// Whether a message made at `since` has run out its time at `now`.
    pub open spec fn expired(since: u64, now: u64) -> bool {
        now >= since && now - since >= SUMMARY_LIFETIME_MS
    }

    /// The counters are those of `other`.
    pub open spec fn same_counts(&self, other: &BatchState) -> bool {
        &&& self.pending_spec() == other.pending_spec()
        &&& self.processed_spec() == other.processed_spec()
        &&& self.successful_spec() == other.successful_spec()
        &&& self.failed_spec() == other.failed_spec()
        &&& self.holds_receiver() == other.holds_receiver()
    }

    /// `after` is `before` with one more result counted, made at `now`. The
    /// result that completes the batch sets the closing message.
    pub open spec fn records(before: BatchState, after: BatchState, success: bool, now: u64) -> bool {
        &&& after.wf()
        &&& after.pending_spec() == before.pending_spec()
        &&& after.processed_spec() == before.processed_spec() + 1
        &&& after.successful_spec() == before.successful_spec() + (if success { 1nat } else { 0nat })
        &&& after.failed_spec() == before.failed_spec() + (if success { 0nat } else { 1nat })
        &&& after.holds_receiver() == after.processing_spec()
        &&& after.processing_spec() ==> {
            &&& after.summary_spec() == before.summary_spec()
            &&& after.summary_since_spec() == before.summary_since_spec()
        }
        &&& !after.processing_spec() ==> {
            &&& after.summary_spec() == summary_text(
                after.pending_spec(),
                after.successful_spec(),
                after.failed_spec(),
            )
            &&& after.summary_since_spec() == Some(now)
        }
    }

    /// An idle state with no batch behind it and no message.
    pub fn new() -> (r: BatchState)
        ensures
            r.wf(),
            !r.processing_spec(),
            r.pending_spec() == 0,
            r.processed_spec() == 0,
            r.successful_spec() == 0,
            r.failed_spec() == 0,
            r.summary_spec() == Seq::<char>::empty(),
            r.summary_since_spec() is None,
            !r.holds_receiver(),
    {
        BatchState {
            pending: 0,
            processed: 0,
            successful: 0,
            failed: 0,
            summary: String::new(),
            summary_since: None,
            results: None,
        }
    }

    /// Starts a batch of `count` jobs, when idle and `count` is not zero.
    ///
    /// Hands back the sender on which each job sends its one result (clone it
    /// for each worker). While a batch is under way, or for no jobs, the
    /// state stays as it was and `None` comes back. The message on show stays.
    pub fn submit(&mut self, count: usize) -> (r: Option<Sender<bool>>)
        requires
            old(self).wf(),
        ensures
            final(self).wf(),
            (old(self).processing_spec() || count == 0) ==> r is None && *final(self) == *old(self),
            (!old(self).processing_spec() && count > 0) ==> {
                &&& r is Some
                &&& final(self).pending_spec() == count
                &&& final(self).processed_spec() == 0
                &&& final(self).successful_spec() == 0
                &&& final(self).failed_spec() == 0
                &&& final(self).processing_spec()
                &&& final(self).holds_receiver()
                &&& final(self).summary_spec() == old(self).summary_spec()
                &&& final(self).summary_since_spec() == old(self).summary_since_spec()
            },
    {
        if self.processed < self.pending || count == 0 {
            return None;
        }
        let (sender, receiver) = open_channel();
        self.pending = count;
        self.processed = 0;
        self.successful = 0;
        self.failed = 0;
        self.results = Some(receiver);
        Some(sender)
    }

    /// Counts one job's result. The result that completes the batch ends it
    /// and sets the closing message, made at `now`.
    pub fn record_result(&mut self, success: bool, now: u64)
        requires
            old(self).wf(),
            old(self).processing_spec(),
        ensures
            Self::records(*old(self), *final(self), success, now),
    {
        if success {
            self.successful = self.successful + 1;
        } else {
            self.failed = self.failed + 1;
        }
        self.processed = self.processed + 1;
        if self.processed == self.pending {
            self.summary = summary_message(self.pending, self.successful, self.failed);
            self.summary_since = Some(now);
            self.results = None;
        }
    }

    /// Clears the message on show once its time has run out, unless a batch
    /// is under way.
    pub fn expire_summary(&mut self, now: u64)
        requires
            old(self).wf(),
        ensures
            final(self).wf(),
            final(self).same_counts(old(self)),
            match old(self).summary_since_spec() {
                Some(t) if !old(self).processing_spec() && Self::expired(t, now) => {
                    &&& final(self).summary_spec() == Seq::<char>::empty()
                    &&& final(self).summary_since_spec() is None
                },
                _ => {
                    &&& final(self).summary_spec() == old(self).summary_spec()
                    &&& final(self).summary_since_spec() == old(self).summary_since_spec()
                },
            },
    {
        if self.processed < self.pending {
            return;
        }
        match self.summary_since {
            Some(t) => {
                if now >= t && now - t >= SUMMARY_LIFETIME_MS {
                    self.summary = String::new();
                    self.summary_since = None;
                }
            },
            None => {},
        }
    }

    /// Takes in, without blocking, every result that has already arrived
    /// (until the batch is complete), then lets an old message expire.
    ///
    /// How many results are waiting depends on the workers, so this states
    /// what holds however many came in.
    pub fn poll(&mut self, now: u64)
        requires
            old(self).wf(),
        ensures
            final(self).wf(),
            final(self).pending_spec() == old(self).pending_spec(),
            old(self).processed_spec() <= final(self).processed_spec(),
            old(self).successful_spec() <= final(self).successful_spec(),
            old(self).failed_spec() <= final(self).failed_spec(),
            !old(self).processing_spec() ==> final(self).same_counts(old(self)),
            final(self).holds_receiver() == final(self).processing_spec(),
            final(self).processing_spec() ==> {
                &&& final(self).summary_spec() == old(self).summary_spec()
                &&& final(self).summary_since_spec() == old(self).summary_since_spec()
            },
            old(self).processing_spec() && !final(self).processing_spec() ==> {
                &&& final(self).summary_spec() == summary_text(
                    final(self).pending_spec(),
                    final(self).successful_spec(),
                    final(self).failed_spec(),
                )
                &&& final(self).summary_since_spec() == Some(now)
            },
            !old(self).processing_spec() ==> match old(self).summary_since_spec() {
                Some(t) if Self::expired(t, now) => {
                    &&& final(self).summary_spec() == Seq::<char>::empty()
                    &&& final(self).summary_since_spec() is None
                },
                _ => {
                    &&& final(self).summary_spec() == old(self).summary_spec()
                    &&& final(self).summary_since_spec() == old(self).summary_since_spec()
                },
            },
    {
        let ghost start = *self;
        while self.processed < self.pending
            invariant
                self.wf(),
                self.pending_spec() == start.pending_spec(),
                start.processed_spec() <= self.processed_spec(),
                start.successful_spec() <= self.successful_spec(),
                start.failed_spec() <= self.failed_spec(),
                !start.processing_spec() ==> self.same_counts(&start),
                self.processing_spec() ==> {
                    &&& self.summary_spec() == start.summary_spec()
                    &&& self.summary_since_spec() == start.summary_since_spec()
                },
                start.processing_spec() && !self.processing_spec() ==> {
                    &&& self.summary_spec() == summary_text(
                        self.pending_spec(),
                        self.successful_spec(),
                        self.failed_spec(),
                    )
                    &&& self.summary_since_spec() == Some(now)
                },
                !start.processing_spec() ==> *self == start,
            decreases self.pending - self.processed,
        {
            let next = match &self.results {
                Some(rx) => try_receive(rx),
                None => None,
            };
            match next {
                Some(success) => self.record_result(success, now),
                None => break,
            }
        }
        self.expire_summary(now);
    }
    /// The number of jobs in the current (or last) batch.
    pub fn pending_count(&self) -> (r: usize)
        ensures
            r == self.pending_spec(),
    {
        self.pending
    }

    /// The number of results that have come in.
    pub fn processed_count(&self) -> (r: usize)
        ensures
            r == self.processed_spec(),
    {
        self.processed
    }

    /// The number of results that report success.
    pub fn successful_count(&self) -> (r: usize)
        ensures
            r == self.successful_spec(),
    {
        self.successful
    }

    /// The number of results that report failure.
    pub fn failed_count(&self) -> (r: usize)
        ensures
            r == self.failed_spec(),
    {
        self.failed
    }

    /// Whether a batch is under way.
    pub fn is_processing(&self) -> (r: bool)
        ensures
            r == self.processing_spec(),
    {
        self.processed < self.pending
    }

    /// The message on show: empty, or the one that closed the last batch.
    pub fn summary(&self) -> (r: &str)
        ensures
            r@ == self.summary_spec(),
    {
        self.summary.as_str()
    }

    /// While a batch is under way, the line that reports its progress.
    pub fn progress(&self) -> (r: Option<String>)
        ensures
            match r {
                Some(t) => self.processing_spec() && t@ == progress_text(
                    self.processed_spec(),
                    self.pending_spec(),
                ),
                None => !self.processing_spec(),
            },
    {
        if self.processed < self.pending {
            Some(progress_message(self.processed, self.pending))
        } else {
            None
        }
    }
}

/// The number of failures among some results.
pub open spec fn failures(results: Seq<bool>) -> nat
    decreases results.len(),
{
    if results.len() == 0 {
        0
    } else {
        failures(results.drop_last()) + if results.last() { 0nat } else { 1nat }
    }
}

proof fn lemma_failures_bound(results: Seq<bool>)
    ensures
        failures(results) <= results.len(),
    decreases results.len(),
{
    if results.len() > 0 {
        lemma_failures_bound(results.drop_last());
    }
}

proof fn lemma_tally_prefix(states: Seq<BatchState>, results: Seq<bool>, times: Seq<u64>, i: int)
    requires
        states.len() == results.len() + 1,
        times.len() == results.len(),
        states[0].wf(),
        states[0].pending_spec() == results.len(),
        states[0].processed_spec() == 0,
        forall|j: int| 0 <= j < results.len() ==>
            BatchState::records(#[trigger] states[j], states[j + 1], results[j], times[j]),
        0 <= i <= results.len(),
    ensures
        states[i].wf(),
        states[i].pending_spec() == results.len(),
        states[i].processed_spec() == i,
        states[i].failed_spec() == failures(results.take(i)),
        states[i].successful_spec() == i - failures(results.take(i)),
    decreases i,
{
    if i > 0 {
        lemma_tally_prefix(states, results, times, i - 1);
        assert(results.take(i).drop_last() =~= results.take(i - 1));
        assert(BatchState::records(states[i - 1], states[i], results[i - 1], times[i - 1]));
    }
}

/// A batch of `k` jobs of which `f` fail ends, once all `k` results are
/// counted (in whatever order they came), with `k` processed, `f` failed and
/// `k - f` successful; when some but not all failed, its closing message
/// is "Processed {k} files: {k - f} successful, {f} failed".
///
/// `states` are the states that counting `results` one by one goes
/// through, from the state that `submit` left (`times` are the moments).
pub proof fn law_batch_tally(states: Seq<BatchState>, results: Seq<bool>, times: Seq<u64>)
    requires
        results.len() > 0,
        states.len() == results.len() + 1,
        times.len() == results.len(),
        states[0].wf(),
        states[0].pending_spec() == results.len(),
        states[0].processed_spec() == 0,
        forall|j: int| 0 <= j < results.len() ==>
            BatchState::records(#[trigger] states[j], states[j + 1], results[j], times[j]),
    ensures
        ({
            let k = results.len();
            let f = failures(results);
            let last = states[k as int];
            &&& !last.processing_spec()
            &&& last.pending_spec() == k
            &&& last.processed_spec() == k
            &&& last.failed_spec() == f
            &&& last.successful_spec() == k - f
            &&& last.summary_spec() == summary_text(k, (k - f) as nat, f)
            &&& (0 < f < k ==> last.summary_spec() == "Processed "@ + decimal(k) + " "@ + "files"@
                + ": "@ + decimal((k - f) as nat) + " successful, "@ + decimal(f) + " failed"@)
        }),
{
    let k = results.len() as int;
    lemma_tally_prefix(states, results, times, k);
    lemma_failures_bound(results);
    assert(results.take(k) =~= results);
    assert(BatchState::records(states[k - 1], states[k], results[k - 1], times[k - 1]));
}

} // verus!
