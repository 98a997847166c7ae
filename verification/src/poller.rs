//! The per-chain polling state machine: bounded retries, strict height
//! order, bootstrap catch-up, and the mempool diff.
//!
//! The shell owns the clock and the node connection: each tick it asks
//! `check_retry_budget`, performs one fetch-and-process attempt, and
//! folds the outcome back through `poll_step`. The decisions here are
//! what the loop may never get wrong.

use vstd::prelude::*;

use crate::hash::H256;

verus! {

/// How many consecutive failed attempts a polling loop survives.
pub const RETRY_LIMIT: u64 = 10;

/// The cursor of a block-polling loop: the next height to ingest, and
/// how many attempts at it have failed in a row.
#[derive(Clone, Copy, PartialEq, Eq, Structural, Debug)]
pub struct PollState {
    pub block_number: u64,
    pub retry_count: u64,
}

/// What one fetch-and-process attempt at the current height came to.
#[derive(Clone, Copy, PartialEq, Eq, Structural, Debug)]
pub enum FetchOutcome {
    /// The block was fetched, handed to the processor, and acknowledged.
    Delivered,
    /// The node answered with no result: the height is not mined yet.
    Empty,
    /// A transport, decode or processing error that may pass.
    RpcError,
    /// An error no retry can mend.
    Fatal,
}

/// Why a polling loop stopped.
#[derive(Clone, Copy, PartialEq, Eq, Structural, Debug)]
pub enum PollerError {
    /// The bounded retry budget ran out at the carried count.
    RetryLimitExceeded(u64),
    /// A non-recoverable error ended the loop at once.
    NonRecoverable,
}

/// Checked at the top of every tick, before any fetch: a loop whose
/// retry count has reached the limit stops with `RetryLimitExceeded`.
pub fn check_retry_budget(state: &PollState) -> (r: Result<(), PollerError>)
    ensures
        r is Ok <==> state.retry_count != RETRY_LIMIT,
        r matches Err(e) ==> e == PollerError::RetryLimitExceeded(state.retry_count),
{
    if state.retry_count == RETRY_LIMIT {
        Err(PollerError::RetryLimitExceeded(state.retry_count))
    } else {
        Ok(())
    }
}

/// The cursor after one attempt: a delivered block advances the height
/// by one and clears the retries; an empty answer keeps the height and
/// clears the retries; a recoverable error keeps the height and spends
/// one retry; a fatal error stops the loop.
pub open spec fn spec_poll_step(state: PollState, outcome: FetchOutcome) -> Result<
    PollState,
    PollerError,
> {
    match outcome {
        FetchOutcome::Delivered => Ok(
            PollState { block_number: (state.block_number + 1) as u64, retry_count: 0 },
        ),
        FetchOutcome::Empty => Ok(PollState { block_number: state.block_number, retry_count: 0 }),
        FetchOutcome::RpcError => Ok(
            PollState {
                block_number: state.block_number,
                retry_count: (state.retry_count + 1) as u64,
            },
        ),
        FetchOutcome::Fatal => Err(PollerError::NonRecoverable),
    }
}

/// Folds one attempt's outcome into the cursor.
pub fn poll_step(state: &PollState, outcome: FetchOutcome) -> (r: Result<PollState, PollerError>)
    requires
        state.block_number < u64::MAX,
        state.retry_count < RETRY_LIMIT,
    ensures
        r == spec_poll_step(*state, outcome),
{
    match outcome {
        FetchOutcome::Delivered => Ok(
            PollState { block_number: state.block_number + 1, retry_count: 0 },
        ),
        FetchOutcome::Empty => Ok(
            PollState { block_number: state.block_number, retry_count: 0 },
        ),
        FetchOutcome::RpcError => Ok(
            PollState { block_number: state.block_number, retry_count: state.retry_count + 1 },
        ),
        FetchOutcome::Fatal => Err(PollerError::NonRecoverable),
    }
}

/// The poll cursor never moves backwards, and only a delivered block
/// moves it forward, by exactly one.
pub proof fn lemma_poll_step_monotone(state: PollState, outcome: FetchOutcome)
    requires
        state.block_number < u64::MAX,
    ensures
        spec_poll_step(state, outcome) matches Ok(next) ==> next.block_number
            >= state.block_number,
        spec_poll_step(state, outcome) matches Ok(next) ==> (next.block_number
            == state.block_number + 1 <==> outcome == FetchOutcome::Delivered),
{
}

/// What a cold start must do before steady-state polling: the heights to
/// replay in order, and the height at which steady state begins.
pub struct BootstrapPlan {
    pub replay: Vec<u64>,
    pub resume_from: u64,
}

/// Plans the catch-up for one chain. With no recorded watermark, or when
/// told to skip missed blocks, steady state begins right after the
/// node's tip. Otherwise every height from the watermark's successor to
/// the tip is replayed in ascending order first.
pub fn bootstrap_plan(watermark: Option<u64>, tip: u64, skip_missed_blocks: bool) -> (r:
    BootstrapPlan)
    requires
        tip < u64::MAX,
    ensures
        r.resume_from == tip + 1,
        (skip_missed_blocks || watermark is None) ==> r.replay@.len() == 0,
        (!skip_missed_blocks && watermark is Some && watermark->Some_0 >= tip) ==> r.replay@.len()
            == 0,
        (!skip_missed_blocks && watermark is Some && watermark->Some_0 < tip) ==> r.replay@.len()
            == tip - watermark->Some_0 && (forall|k: int|
            0 <= k < r.replay@.len() ==> r.replay@[k] == watermark->Some_0 + 1 + k),
{
    let mut replay: Vec<u64> = Vec::new();
    if !skip_missed_blocks {
        if let Some(w) = watermark {
            if w < tip {
                let mut h = w + 1;
                while h <= tip
                    invariant
                        w < h <= tip + 1,
                        tip < u64::MAX,
                        replay@.len() == h - (w + 1),
                        forall|k: int| 0 <= k < replay@.len() ==> replay@[k] == w + 1 + k,
                    decreases tip + 1 - h,
                {
                    replay.push(h);
                    h = h + 1;
                }
            }
        }
    }
    BootstrapPlan { replay, resume_from: tip + 1 }
}

/// The fetch plan for one Bitcoin block ingest: the bodies to request
/// are those of `tx_hashes[1..]`, in block order. The coinbase at index
/// 0 is never fetched.
pub fn block_fetch_plan(tx_hashes: &Vec<H256>) -> (r: Vec<H256>)
    ensures
        tx_hashes@.len() == 0 ==> r@.len() == 0,
        tx_hashes@.len() >= 1 ==> r@ == tx_hashes@.skip(1),
{
    let mut out: Vec<H256> = Vec::new();
    let n = tx_hashes.len();
    if n == 0 {
        return out;
    }
    for i in 1..n
        invariant
            n == tx_hashes@.len(),
            out@ == tx_hashes@.subrange(1, i as int),
    {
        out.push(tx_hashes[i]);
        proof {
            assert(tx_hashes@.subrange(1, i + 1) =~= tx_hashes@.subrange(1, i as int).push(
                tx_hashes@[i as int],
            ));
        }
    }
    proof {
        assert(tx_hashes@.subrange(1, n as int) =~= tx_hashes@.skip(1));
    }
    out
}

/// Whether a hash occurs in a list.
pub open spec fn spec_contains_hash(s: Seq<H256>, h: H256) -> bool {
    exists|i: int| 0 <= i < s.len() && s[i]@ == h@
}

/// The mempool entries at or after `from` that were not seen in the
/// previous poll, in current-poll order.
pub open spec fn spec_new_entries(current: Seq<H256>, previous: Seq<H256>, from: int) -> Seq<H256>
    decreases current.len() - from,
{
    if from < 0 || from >= current.len() {
        Seq::empty()
    } else if !spec_contains_hash(previous, current[from]) {
        seq![current[from]] + spec_new_entries(current, previous, from + 1)
    } else {
        spec_new_entries(current, previous, from + 1)
    }
}

/// Whether a hash occurs in a list.
pub fn contains_hash(s: &Vec<H256>, h: &H256) -> (r: bool)
    ensures
        r == spec_contains_hash(s@, *h),
{
    let n = s.len();
    for i in 0..n
        invariant
            n == s@.len(),
            forall|k: int| 0 <= k < i ==> (#[trigger] s@[k])@ != h@,
    {
        if s[i] == *h {
            return true;
        }
    }
    false
}

/// The mempool diff: the txids of the current poll that the previous
/// poll did not hold, in current-poll order. Only these transactions are
/// fetched and forwarded.
pub fn mempool_new_entries(current: &Vec<H256>, previous: &Vec<H256>) -> (r: Vec<H256>)
    ensures
        r@ == spec_new_entries(current@, previous@, 0),
{
    let mut out: Vec<H256> = Vec::new();
    let n = current.len();
    for j in 0..n
        invariant
            n == current@.len(),
            spec_new_entries(current@, previous@, 0) == out@ + spec_new_entries(
                current@,
                previous@,
                j as int,
            ),
    {
        if !contains_hash(previous, &current[j]) {
            out.push(current[j]);
            proof {
                assert(out@.drop_last().push(current@[j as int]) =~= out@);
                assert(out@.drop_last() + (seq![current@[j as int]] + spec_new_entries(
                    current@,
                    previous@,
                    j + 1,
                )) =~= out@ + spec_new_entries(current@, previous@, j + 1));
            }
        }
    }
    proof {
        assert(spec_new_entries(current@, previous@, n as int) =~= Seq::<H256>::empty());
        assert(out@ + Seq::<H256>::empty() =~= out@);
    }
    out
}

} // verus!
