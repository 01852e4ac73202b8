//! The header-relay decisions: role and batch checks, the direct relay of the
//! "new block" headers, the diagnosis of a failed submission, and the bounded
//! catch-up loop that republishes missing headers page by page.
//!
//! The chain calls, the waits and the logging are made by the caller, which
//! hands each outcome back to these functions as a plain value.

use vstd::prelude::*;

verus! {

/// Most headers sent in one page of the catch-up loop.
pub const MAX_HEADERS_IN_BATCH: u64 = 32;

/// Failed submissions in a row after which the catch-up loop gives up.
pub const MAX_RETRY_NUMBER: u64 = 5;

/// Seconds to wait after a submission that failed for a missing last block id.
pub const RETRY_SLEEP_SECS: u64 = 12;

/// A height: revision number and height within the revision.
#[derive(Copy, Clone, Debug, PartialEq, Eq, Structural)]
pub struct Height {
    pub revision_number: u64,
    pub revision_height: u64,
}

/// The kind of an event of a batch, as far as the relay tells them apart.
#[derive(Copy, Clone, Debug, PartialEq, Eq, Structural)]
pub enum EventKind {
    NewBlock,
    Other,
}

/// One event of a batch, with the height it was observed at.
#[derive(Copy, Clone, Debug, PartialEq, Eq, Structural)]
pub struct BatchEvent {
    pub kind: EventKind,
    pub height: Height,
}

/// The events observed on the source chain, and the batch's own height.
#[derive(Clone, Debug)]
pub struct EventBatch {
    pub events: Vec<BatchEvent>,
    pub height: Height,
}

/// The family of a chain's configuration.
#[derive(Copy, Clone, Debug, PartialEq, Eq, Structural)]
pub enum ChainKind {
    Eth,
    Ckb,
    Other,
}

/// The shape of a failed submission, as far as the relay acts on it.
#[derive(Copy, Clone, Debug, PartialEq, Eq, Structural)]
pub enum SubmitFailure {
    /// Light-client verification failed for a missing last block id; the
    /// height is the destination's current tip.
    MissingLastBlockId { height: u64 },
    /// Any other failure.
    Other,
}

/// Why a relay ended without relaying every header.
#[derive(Copy, Clone, Debug, PartialEq, Eq, Structural)]
pub enum RelayError {
    /// The source is not an Ethereum chain or the destination not a CKB chain.
    ConfigMismatch,
    /// The batch holds no event; nothing to do.
    EmptyBatch,
    /// The direct submission failed in a way that is no gap.
    UnexpectedSubmissionFailure,
    /// The query of the source chain failed during the catch-up.
    SourceQueryFailure,
    /// Too many submissions in a row failed during the catch-up.
    RetryBudgetExhausted,
}

/// The direct relay to attempt: one header for each "new block" height.
#[derive(Clone, Debug)]
pub struct DirectRelay {
    pub heights: Vec<Height>,
    pub start_slot: u64,
    pub end_slot: u64,
}

/// What follows the direct submission.
#[derive(Copy, Clone, Debug, PartialEq, Eq, Structural)]
pub enum DirectOutcome {
    /// The submission succeeded: nothing is left to do.
    Finished,
    /// The destination lags behind: catch up from this state.
    Chase(ChaseState),
}

/// The progress of the catch-up loop.
#[derive(Copy, Clone, Debug, PartialEq, Eq, Structural)]
pub struct ChaseState {
    /// Next height to relay.
    pub start_height: u64,
    /// Height up to which to relay.
    pub target_height: u64,
    /// Failed submissions in a row.
    pub retry_count: u64,
}

/// A page of the source chain's client states to fetch.
#[derive(Copy, Clone, Debug, PartialEq, Eq, Structural)]
pub struct PageRequest {
    pub offset: u64,
    pub limit: u64,
}

/// The submission to make of a fetched page.
#[derive(Copy, Clone, Debug, PartialEq, Eq, Structural)]
pub struct PagePlan {
    /// Records to submit, all of those fetched, as one unit.
    pub count: u64,
    /// Fewer records came back than were asked for.
    pub short_page: bool,
}

/// What to do before the next round of the catch-up loop.
#[derive(Copy, Clone, Debug, PartialEq, Eq, Structural)]
pub enum NextStep {
    /// Go on at once.
    Continue,
    /// Wait `RETRY_SLEEP_SECS` seconds first.
    BackOff,
}

/// The heights of the "new block" events of `events`, in order.
pub open spec fn new_block_heights(events: Seq<BatchEvent>) -> Seq<Height>
    decreases events.len(),
{
    if events.len() == 0 {
        Seq::empty()
    } else {
        let rest = new_block_heights(events.drop_last());
        if events.last().kind == EventKind::NewBlock {
            rest.push(events.last().height)
        } else {
            rest
        }
    }
}

/// The height of the first "new block" event, or zero where there is none.
pub open spec fn first_slot(events: Seq<BatchEvent>) -> u64 {
    if new_block_heights(events).len() > 0 {
        new_block_heights(events)[0].revision_height
    } else {
        0
    }
}

/// What `plan_direct_relay` decides.
pub open spec fn direct_relay_spec(src: ChainKind, dst: ChainKind, events: Seq<BatchEvent>) -> Result<
    (),
    RelayError,
> {
    if !(src == ChainKind::Eth && dst == ChainKind::Ckb) {
        Err(RelayError::ConfigMismatch)
    } else if events.len() == 0 {
        Err(RelayError::EmptyBatch)
    } else {
        Ok(())
    }
}

/// What follows a direct submission that ended with `failure` (`None`: success).
pub open spec fn direct_outcome_spec(end_slot: u64, failure: Option<SubmitFailure>) -> Result<
    DirectOutcome,
    RelayError,
> {
    match failure {
        None => Ok(DirectOutcome::Finished),
        Some(SubmitFailure::MissingLastBlockId { height }) => Ok(
            DirectOutcome::Chase(
                ChaseState { start_height: height, target_height: end_slot, retry_count: 0 },
            ),
        ),
        Some(SubmitFailure::Other) => Err(RelayError::UnexpectedSubmissionFailure),
    }
}

/// Checks the chains' roles and the batch, and lists the heights whose
/// headers the direct relay sends.
pub fn plan_direct_relay(src: ChainKind, dst: ChainKind, batch: &EventBatch) -> (r: Result<
    DirectRelay,
    RelayError,
>)
    ensures
        r is Err <==> direct_relay_spec(src, dst, batch.events@) is Err,
        r matches Err(e) ==> direct_relay_spec(src, dst, batch.events@) == Err::<(), RelayError>(e),
        r matches Ok(p) ==> p.heights@ == new_block_heights(batch.events@) && p.start_slot
            == first_slot(batch.events@) && p.end_slot == batch.height.revision_height,
{
    if !(src == ChainKind::Eth && dst == ChainKind::Ckb) {
        return Err(RelayError::ConfigMismatch);
    }
    if batch.events.len() == 0 {
        return Err(RelayError::EmptyBatch);
    }
    let mut heights: Vec<Height> = Vec::new();
    let mut i: usize = 0;
    while i < batch.events.len()
        invariant
            i <= batch.events@.len(),
            heights@ == new_block_heights(batch.events@.subrange(0, i as int)),
        decreases batch.events@.len() - i,
    {
        let event = batch.events[i];
        proof {
            let next = batch.events@.subrange(0, i + 1);
            assert(next.drop_last() =~= batch.events@.subrange(0, i as int));
        }
        if event.kind == EventKind::NewBlock {
            heights.push(event.height);
        }
        i = i + 1;
    }
    assert(batch.events@.subrange(0, i as int) =~= batch.events@);
    let start_slot = if heights.len() > 0 {
        heights[0].revision_height
    } else {
        0
    };
    Ok(DirectRelay { heights, start_slot, end_slot: batch.height.revision_height })
}

/// Decides what follows the direct submission of the batch's headers:
/// success ends the relay, a missing last block id at the destination's tip
/// starts the catch-up from that tip, any other failure ends the relay.
pub fn after_direct_submission(end_slot: u64, failure: Option<SubmitFailure>) -> (r: Result<
    DirectOutcome,
    RelayError,
>)
    ensures
        r == direct_outcome_spec(end_slot, failure),
{
    match failure {
        None => Ok(DirectOutcome::Finished),
        Some(SubmitFailure::MissingLastBlockId { height }) => Ok(
            DirectOutcome::Chase(
                ChaseState { start_height: height, target_height: end_slot, retry_count: 0 },
            ),
        ),
        Some(SubmitFailure::Other) => Err(RelayError::UnexpectedSubmissionFailure),
    }
}

impl ChaseState {
    /// The loop goes on while headers below the target are left.
    pub open spec fn in_progress(self) -> bool {
        self.start_height < self.target_height
    }

    /// Well formed: the retry budget is not spent.
    pub open spec fn wf(self) -> bool {
        self.retry_count < MAX_RETRY_NUMBER
    }

    /// The page size of the current round: `min(32, target - start + 1)`.
    /// The page reaches up to the target inclusive, so a full last page
    /// leaves the start at `target_height + 1`, past the target.
    pub open spec fn page_limit(self) -> u64 {
        let left = self.target_height - self.start_height + 1;
        if left < MAX_HEADERS_IN_BATCH {
            left as u64
        } else {
            MAX_HEADERS_IN_BATCH
        }
    }

    /// The state after a submission of `fetched` records that ended with
    /// `failure` (`None`: success), and what to do next.
    pub open spec fn submit_step(self, fetched: u64, failure: Option<SubmitFailure>) -> (
        ChaseState,
        Result<NextStep, RelayError>,
    ) {
        match failure {
            None => (
                ChaseState { start_height: (self.start_height + fetched) as u64, retry_count: 0, ..self },
                Ok(NextStep::Continue),
            ),
            Some(f) => {
                let next = ChaseState { retry_count: (self.retry_count + 1) as u64, ..self };
                (
                    next,
                    if next.retry_count >= MAX_RETRY_NUMBER {
                        Err(RelayError::RetryBudgetExhausted)
                    } else if f is MissingLastBlockId {
                        Ok(NextStep::BackOff)
                    } else {
                        Ok(NextStep::Continue)
                    },
                )
            },
        }
    }

    /// The page to fetch next, or `None` once the target is reached. Its limit
    /// is `page_limit()`, which counts the target itself: a last page that
    /// comes back full moves the start to `target_height + 1`.
    pub fn next_page(&self) -> (r: Option<PageRequest>)
        ensures
            self.in_progress() ==> r == Some(
                PageRequest { offset: self.start_height, limit: self.page_limit() },
            ),
            !self.in_progress() ==> r is None,
    {
        if self.start_height < self.target_height {
            let gap = self.target_height - self.start_height;
            let limit = if gap < MAX_HEADERS_IN_BATCH {
                gap + 1
            } else {
                MAX_HEADERS_IN_BATCH
            };
            Some(PageRequest { offset: self.start_height, limit })
        } else {
            None
        }
    }

    /// Decides on a page query that fetched `fetched` records (`None`: the
    /// query failed, which ends the relay). Every record fetched is submitted
    /// as one unit, a short page too.
    pub fn after_query(&self, fetched: Option<u64>) -> (r: Result<PagePlan, RelayError>)
        requires
            self.in_progress(),
        ensures
            fetched is None ==> r == Err::<PagePlan, RelayError>(RelayError::SourceQueryFailure),
            fetched matches Some(n) ==> r == Ok::<PagePlan, RelayError>(
                PagePlan { count: n, short_page: n < self.page_limit() },
            ),
    {
        match fetched {
            None => Err(RelayError::SourceQueryFailure),
            Some(n) => {
                let gap = self.target_height - self.start_height;
                let limit = if gap < MAX_HEADERS_IN_BATCH {
                    gap + 1
                } else {
                    MAX_HEADERS_IN_BATCH
                };
                Ok(PagePlan { count: n, short_page: n < limit })
            },
        }
    }

    /// Records the end of a page's submission of `fetched` records (`failure`
    /// is `None` on success). Success moves the start past the records and
    /// clears the retry count; a failure keeps the start, counts a retry and
    /// backs off where it was a missing last block id; the fifth failure in a
    /// row ends the relay.
    pub fn after_submission(&mut self, fetched: u64, failure: Option<SubmitFailure>) -> (r: Result<
        NextStep,
        RelayError,
    >)
        requires
            old(self).wf(),
            failure is None ==> old(self).start_height + fetched <= u64::MAX,
        ensures
            (*final(self), r) == old(self).submit_step(fetched, failure),
            r is Ok ==> final(self).wf(),
    {
        match failure {
            None => {
                self.start_height = self.start_height + fetched;
                self.retry_count = 0;
                Ok(NextStep::Continue)
            },
            Some(f) => {
                self.retry_count = self.retry_count + 1;
                if self.retry_count >= MAX_RETRY_NUMBER {
                    Err(RelayError::RetryBudgetExhausted)
                } else if matches!(f, SubmitFailure::MissingLastBlockId { .. }) {
                    Ok(NextStep::BackOff)
                } else {
                    Ok(NextStep::Continue)
                }
            },
        }
    }
}

/// The sum of the page sizes in `fs`.
pub open spec fn total(fs: Seq<u64>) -> nat
    decreases fs.len(),
{
    if fs.len() == 0 {
        0
    } else {
        total(fs.drop_last()) + (fs.last() as nat)
    }
}

/// The state after successful submissions of pages of the sizes in `fs`, in order.
pub open spec fn run_successes(s: ChaseState, fs: Seq<u64>) -> ChaseState
    decreases fs.len(),
{
    if fs.len() == 0 {
        s
    } else {
        run_successes(s, fs.drop_last()).submit_step(fs.last(), None).0
    }
}

/// The state after `k` failed submissions of a page of `fetched` records,
/// each for a missing last block id at `tip`.
pub open spec fn run_gap_failures(s: ChaseState, fetched: u64, tip: u64, k: nat) -> ChaseState
    decreases k,
{
    if k == 0 {
        s
    } else {
        run_gap_failures(s, fetched, tip, (k - 1) as nat).submit_step(
            fetched,
            Some(SubmitFailure::MissingLastBlockId { height: tip }),
        ).0
    }
}

/// A direct submission that succeeds ends the relay: no catch-up state, so no
/// page is queried and nothing more is submitted.
pub proof fn lemma_direct_success_finishes(end_slot: u64)
    ensures
        direct_outcome_spec(end_slot, None) == Ok::<DirectOutcome, RelayError>(
            DirectOutcome::Finished,
        ),
{
}

/// A direct submission that fails for a missing last block id at a tip below
/// the batch height starts the catch-up at that tip: the first page is queried
/// at offset `tip`, and every page of the loop asks for between one and
/// `MAX_HEADERS_IN_BATCH` records, all of which go out in one submission.
pub proof fn lemma_gap_starts_paging_at_tip(tip: u64, end_slot: u64)
    requires
        tip < end_slot,
    ensures
        direct_outcome_spec(end_slot, Some(SubmitFailure::MissingLastBlockId { height: tip }))
            == Ok::<DirectOutcome, RelayError>(
            DirectOutcome::Chase(
                ChaseState { start_height: tip, target_height: end_slot, retry_count: 0 },
            ),
        ),
        (ChaseState { start_height: tip, target_height: end_slot, retry_count: 0 }).in_progress(),
        forall|c: ChaseState| #[trigger]
            c.in_progress() ==> 1 <= c.page_limit() <= MAX_HEADERS_IN_BATCH,
{
}

/// A successful submission of a non-empty page moves the start strictly
/// forward and clears the retry count.
pub proof fn lemma_success_advances(s: ChaseState, fetched: u64)
    requires
        fetched > 0,
        s.start_height + fetched <= u64::MAX,
    ensures
        s.submit_step(fetched, None).0.start_height > s.start_height,
        s.submit_step(fetched, None).0.target_height == s.target_height,
        s.submit_step(fetched, None).0.retry_count == 0,
        s.submit_step(fetched, None).1 == Ok::<NextStep, RelayError>(NextStep::Continue),
{
}

proof fn lemma_run_successes_start(s: ChaseState, fs: Seq<u64>)
    requires
        s.start_height + total(fs) <= u64::MAX,
    ensures
        run_successes(s, fs).start_height == s.start_height + total(fs),
        run_successes(s, fs).target_height == s.target_height,
        fs.len() > 0 ==> run_successes(s, fs).retry_count == 0,
    decreases fs.len(),
{
    if fs.len() > 0 {
        lemma_run_successes_start(s, fs.drop_last());
    }
}

proof fn lemma_total_prefix(fs: Seq<u64>, i: int)
    requires
        0 <= i <= fs.len(),
    ensures
        total(fs.take(i)) <= total(fs),
    decreases fs.len(),
{
    if i < fs.len() {
        assert(fs.take(i) =~= fs.drop_last().take(i));
        lemma_total_prefix(fs.drop_last(), i);
    } else {
        assert(fs.take(i) =~= fs);
    }
}

/// Where every submission of the catch-up succeeds with a non-empty page and
/// the pages together cover the gap exactly, the start moves strictly forward
/// at each round, the loop goes on until the last page, and it ends with the
/// start at the target and no retry spent.
pub proof fn lemma_successes_reach_target(s: ChaseState, fs: Seq<u64>)
    requires
        forall|i: int| 0 <= i < fs.len() ==> #[trigger] fs[i] > 0,
        s.start_height + total(fs) == s.target_height,
    ensures
        forall|i: int|
            0 <= i < fs.len() ==> #[trigger] run_successes(s, fs.take(i)).in_progress()
                && run_successes(s, fs.take(i + 1)).start_height > run_successes(
                s,
                fs.take(i),
            ).start_height,
        run_successes(s, fs).start_height == s.target_height,
        !run_successes(s, fs).in_progress(),
        fs.len() > 0 ==> run_successes(s, fs).retry_count == 0,
{
    lemma_run_successes_start(s, fs);
    assert forall|i: int| 0 <= i < fs.len() implies #[trigger] run_successes(
        s,
        fs.take(i),
    ).in_progress() && run_successes(s, fs.take(i + 1)).start_height > run_successes(
        s,
        fs.take(i),
    ).start_height by {
        assert(fs.take(i + 1).drop_last() =~= fs.take(i));
        assert(fs.take(i + 1).last() == fs[i]);
        lemma_total_prefix(fs, i + 1);
        lemma_run_successes_start(s, fs.take(i));
        lemma_run_successes_start(s, fs.take(i + 1));
    }
}

/// Five submissions in a row that fail for a missing last block id end the
/// catch-up: each of the first four asks for a back-off before the same page
/// is tried again, the fifth gives up, and the start never moves.
pub proof fn lemma_gap_failures_exhaust_budget(s: ChaseState, fetched: u64, tip: u64)
    requires
        s.retry_count == 0,
    ensures
        forall|k: nat|
            k < MAX_RETRY_NUMBER - 1 ==> (#[trigger] run_gap_failures(s, fetched, tip, k)).submit_step(
                fetched,
                Some(SubmitFailure::MissingLastBlockId { height: tip }),
            ).1 == Ok::<NextStep, RelayError>(NextStep::BackOff),
        run_gap_failures(s, fetched, tip, (MAX_RETRY_NUMBER - 1) as nat).submit_step(
            fetched,
            Some(SubmitFailure::MissingLastBlockId { height: tip }),
        ).1 == Err::<NextStep, RelayError>(RelayError::RetryBudgetExhausted),
        forall|k: nat| #[trigger]
            run_gap_failures(s, fetched, tip, k).start_height == s.start_height,
{
    assert forall|k: nat| #[trigger]
        run_gap_failures(s, fetched, tip, k).start_height == s.start_height
        && (k <= MAX_RETRY_NUMBER ==> run_gap_failures(s, fetched, tip, k).retry_count == k) by {
        lemma_gap_failures_count(s, fetched, tip, k);
    }
    lemma_gap_failures_count(s, fetched, tip, 4);
}

proof fn lemma_gap_failures_count(s: ChaseState, fetched: u64, tip: u64, k: nat)
    requires
        s.retry_count == 0,
    ensures
        run_gap_failures(s, fetched, tip, k).start_height == s.start_height,
        k <= MAX_RETRY_NUMBER ==> run_gap_failures(s, fetched, tip, k).retry_count == k,
    decreases k,
{
    if k > 0 {
        lemma_gap_failures_count(s, fetched, tip, (k - 1) as nat);
    }
}

/// The state after failed submissions of a page of `fetched` records, one for
/// each failure of `fs`, in order.
pub open spec fn run_failures(s: ChaseState, fetched: u64, fs: Seq<SubmitFailure>) -> ChaseState
    decreases fs.len(),
{
    if fs.len() == 0 {
        s
    } else {
        run_failures(s, fetched, fs.drop_last()).submit_step(fetched, Some(fs.last())).0
    }
}

proof fn lemma_run_failures_count(s: ChaseState, fetched: u64, fs: Seq<SubmitFailure>)
    requires
        s.retry_count == 0,
    ensures
        run_failures(s, fetched, fs).start_height == s.start_height,
        run_failures(s, fetched, fs).target_height == s.target_height,
        fs.len() <= MAX_RETRY_NUMBER ==> run_failures(s, fetched, fs).retry_count == fs.len(),
    decreases fs.len(),
{
    if fs.len() > 0 {
        lemma_run_failures_count(s, fetched, fs.drop_last());
    }
}

/// A failed submission keeps the start and counts a retry. It asks for a
/// back-off exactly when it failed for a missing last block id and the budget
/// is not spent; a successful one never backs off and clears the count.
pub proof fn lemma_backoff_rule(s: ChaseState, fetched: u64, failure: Option<SubmitFailure>)
    requires
        s.wf(),
    ensures
        failure is Some ==> s.submit_step(fetched, failure).0 == (ChaseState {
            retry_count: (s.retry_count + 1) as u64,
            ..s
        }),
        s.submit_step(fetched, failure).1 == Ok::<NextStep, RelayError>(NextStep::BackOff) <==> (
        failure matches Some(SubmitFailure::MissingLastBlockId { .. }) && s.retry_count + 1
            < MAX_RETRY_NUMBER),
        failure is None ==> s.submit_step(fetched, failure).1 == Ok::<NextStep, RelayError>(
            NextStep::Continue,
        ) && s.submit_step(fetched, failure).0.retry_count == 0,
{
}

/// Submissions that fail in a row, of any shape, from a fresh retry count:
/// the first four let the loop try the same page again, the fifth ends the
/// relay, and the start never moves.
pub proof fn lemma_failures_exhaust_budget(s: ChaseState, fetched: u64, fs: Seq<SubmitFailure>)
    requires
        s.retry_count == 0,
        fs.len() == MAX_RETRY_NUMBER,
    ensures
        forall|k: int|
            0 <= k < MAX_RETRY_NUMBER - 1 ==> (#[trigger] run_failures(
                s,
                fetched,
                fs.take(k),
            )).submit_step(fetched, Some(fs[k])).1 is Ok,
        run_failures(s, fetched, fs.take(MAX_RETRY_NUMBER - 1)).submit_step(
            fetched,
            Some(fs[MAX_RETRY_NUMBER - 1]),
        ).1 == Err::<NextStep, RelayError>(RelayError::RetryBudgetExhausted),
        forall|k: int|
            0 <= k <= MAX_RETRY_NUMBER ==> (#[trigger] run_failures(
                s,
                fetched,
                fs.take(k),
            )).start_height == s.start_height,
{
    assert forall|k: int| 0 <= k <= MAX_RETRY_NUMBER implies (#[trigger] run_failures(
        s,
        fetched,
        fs.take(k),
    )).start_height == s.start_height && run_failures(s, fetched, fs.take(k)).retry_count
        == k by {
        lemma_run_failures_count(s, fetched, fs.take(k));
    }
}

} // verus!
