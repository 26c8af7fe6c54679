//! Block, timestamp, session and era progression of the test runtime.
use vstd::prelude::*;

verus! {

/// Milliseconds the timestamp moves forward with each session.
pub const PER_SESSION: u64 = 60_000;

/// Length of a session in blocks (`Period`).
pub const PERIOD: u64 = 1;

/// Block at which the first session ends (`Offset`).
pub const OFFSET: u64 = 0;

/// What the runtime's clock reads: the current block number and the timestamp.
#[derive(Clone, Copy, PartialEq, Eq, Debug)]
pub struct ChainClock {
    pub block_number: u64,
    pub timestamp: u64,
}

/// The session index that the runtime must report once `block` has been reached.
pub open spec fn expected_session_index(block: u64) -> u32 {
    (block / PERIOD) as u32
}

/// A clock can advance by one session without any counter leaving its range.
pub open spec fn can_advance(clock: ChainClock) -> bool {
    &&& clock.block_number < u64::MAX
    &&& clock.timestamp + PER_SESSION <= u64::MAX
}

/// The clock one session later: one more block, `PER_SESSION` more milliseconds.
pub open spec fn next_clock(clock: ChainClock) -> ChainClock {
    ChainClock {
        block_number: (clock.block_number + 1) as u64,
        timestamp: (clock.timestamp + PER_SESSION) as u64,
    }
}

/// The clock after `n` sessions.
pub open spec fn clock_after(clock: ChainClock, n: nat) -> ChainClock
    decreases n,
{
    if n == 0 {
        clock
    } else {
        next_clock(clock_after(clock, (n - 1) as nat))
    }
}

/// Timestamps and block numbers move in lockstep from genesis.
pub open spec fn in_lockstep(clock: ChainClock) -> bool {
    clock.timestamp == clock.block_number * PER_SESSION
}

/// Whether `advance_session` may be applied to this clock.
pub fn can_advance_session(clock: &ChainClock) -> (ok: bool)
    ensures
        ok == can_advance(*clock),
{
    clock.block_number < u64::MAX && clock.timestamp <= u64::MAX - PER_SESSION
}

/// Moves the clock to the next block and session: the block number grows by one
/// and the timestamp by `PER_SESSION`. Returns the session index that the
/// session pallet must report after rotating.
pub fn advance_session(clock: &mut ChainClock) -> (session_index: u32)
    requires
        can_advance(*old(clock)),
    ensures
        *final(clock) == next_clock(*old(clock)),
        session_index == expected_session_index(final(clock).block_number),
        final(clock).block_number == old(clock).block_number + 1,
        final(clock).timestamp == old(clock).timestamp + PER_SESSION,
        session_index == ((old(clock).block_number + 1) / (PERIOD as int)) as u32,
        old(clock).block_number + 1 <= u32::MAX ==> session_index == old(clock).block_number + 1,
{
    let next = clock.block_number + 1;
    clock.block_number = next;
    clock.timestamp = clock.timestamp + PER_SESSION;
    (next / PERIOD) as u32
}

/// What the era loop does next.
#[derive(Clone, Copy, PartialEq, Eq, Debug)]
pub enum EraStep {
    /// Advance one session; the session pallet must then report this index.
    AdvanceSession(u32),
    /// The era has changed: stop.
    Finished,
}

/// One step of advancing to the next era. `start_era` is the era when the loop
/// began, `observed_era` the one the rewards pallet reports now. While they
/// agree, the clock advances by one session; once they differ, the loop ends
/// and the clock is left as it is. Repeating this step over the eras observed
/// one after the other gives `era_run` (see `lemma_era_run`).
pub fn advance_era(start_era: u32, observed_era: u32, clock: &mut ChainClock) -> (step: EraStep)
    requires
        observed_era == start_era ==> can_advance(*old(clock)),
    ensures
        observed_era != start_era ==> step == EraStep::Finished && *final(clock) == *old(clock),
        observed_era == start_era ==> {
            &&& *final(clock) == next_clock(*old(clock))
            &&& step == EraStep::AdvanceSession(expected_session_index(final(clock).block_number))
            &&& final(clock).block_number == old(clock).block_number + 1
            &&& final(clock).timestamp == old(clock).timestamp + PER_SESSION
        },
{
    if start_era == observed_era {
        let index = advance_session(clock);
        EraStep::AdvanceSession(index)
    } else {
        EraStep::Finished
    }
}

/// The clock when the era loop stops: starting from `clock`, each observed era
/// equal to `start_era` advances one session, and the first one that differs
/// ends the loop. `observed[i]` is the era the rewards pallet reports before
/// the loop's `i`-th step.
pub open spec fn era_run(start_era: u32, observed: Seq<u32>, clock: ChainClock) -> ChainClock
    decreases observed.len(),
{
    if observed.len() == 0 || observed[0] != start_era {
        clock
    } else {
        era_run(start_era, observed.drop_first(), next_clock(clock))
    }
}

/// The session indices the era loop expects the session pallet to report, one
/// per session it advances, in order.
pub open spec fn era_run_indices(start_era: u32, observed: Seq<u32>, clock: ChainClock) -> Seq<u32>
    decreases observed.len(),
{
    if observed.len() == 0 || observed[0] != start_era {
        Seq::empty()
    } else {
        seq![expected_session_index(next_clock(clock).block_number)] + era_run_indices(
            start_era,
            observed.drop_first(),
            next_clock(clock),
        )
    }
}

/// Advancing to the next era is `k` sessions, `k` being the first step at which
/// the observed era differs from the one the loop started in: the block number
/// grows by `k`, the timestamp by `k * PER_SESSION`, each of the `k` steps may
/// advance (so no counter overflows), and the `i`-th session advanced expects
/// index `(block + i + 1) / PERIOD`, which is `block + i + 1` while that fits a
/// `u32`.
pub proof fn lemma_era_run(start_era: u32, observed: Seq<u32>, clock: ChainClock, k: nat)
    requires
        k < observed.len(),
        forall|i: int| 0 <= i < k ==> observed[i] == start_era,
        observed[k as int] != start_era,
        clock.block_number + k <= u64::MAX,
        clock.timestamp + k * PER_SESSION <= u64::MAX,
    ensures
        era_run(start_era, observed, clock) == clock_after(clock, k),
        era_run(start_era, observed, clock).block_number == clock.block_number + k,
        era_run(start_era, observed, clock).timestamp == clock.timestamp + k * PER_SESSION,
        forall|i: nat| i < k ==> can_advance(#[trigger] clock_after(clock, i)),
        era_run_indices(start_era, observed, clock).len() == k,
        forall|i: int|
            0 <= i < k ==> #[trigger] era_run_indices(start_era, observed, clock)[i]
                == expected_session_index((clock.block_number + i + 1) as u64),
        clock.block_number + k <= u32::MAX ==> forall|i: int|
            0 <= i < k ==> #[trigger] era_run_indices(start_era, observed, clock)[i]
                == clock.block_number + i + 1,
    decreases k,
{
    lemma_clock_after(clock, k);
    assert forall|i: nat| i < k implies can_advance(#[trigger] clock_after(clock, i)) by {
        lemma_clock_after(clock, i);
        assert(i * PER_SESSION + PER_SESSION <= k * PER_SESSION) by (nonlinear_arith)
            requires
                i < k,
        ;
    }
    if k == 0 {
        assert(observed.len() > 0);
    } else {
        let rest = observed.drop_first();
        let next = next_clock(clock);
        assert(observed[0] == start_era);
        assert forall|i: int| 0 <= i < (k - 1) as nat implies rest[i] == start_era by {
            assert(rest[i] == observed[i + 1]);
        }
        assert(rest[(k - 1) as int] == observed[k as int]);
        assert(clock.timestamp + PER_SESSION + (k - 1) * PER_SESSION == clock.timestamp + k
            * PER_SESSION) by (nonlinear_arith);
        lemma_era_run(start_era, rest, next, (k - 1) as nat);
        lemma_clock_after(next, (k - 1) as nat);
        let tail = era_run_indices(start_era, rest, next);
        let all = era_run_indices(start_era, observed, clock);
        assert(all == seq![expected_session_index(next.block_number)] + tail);
        assert forall|i: int| 0 <= i < k implies #[trigger] all[i] == expected_session_index(
            (clock.block_number + i + 1) as u64,
        ) by {
            if i > 0 {
                assert(all[i] == tail[i - 1]);
            }
        }
        if clock.block_number + k <= u32::MAX {
            assert forall|i: int| 0 <= i < k implies #[trigger] all[i] == clock.block_number + i
                + 1 by {
                lemma_session_index_is_block((clock.block_number + i + 1) as u64);
            }
        }
    }
}

/// Each session adds one block and `PER_SESSION` milliseconds: after `n`
/// sessions the block number has grown by `n` and the timestamp by
/// `n * PER_SESSION`.
pub proof fn lemma_clock_after(clock: ChainClock, n: nat)
    requires
        clock.block_number + n <= u64::MAX,
        clock.timestamp + n * PER_SESSION <= u64::MAX,
    ensures
        clock_after(clock, n).block_number == clock.block_number + n,
        clock_after(clock, n).timestamp == clock.timestamp + n * PER_SESSION,
    decreases n,
{
    if n > 0 {
        lemma_clock_after(clock, (n - 1) as nat);
        assert((n - 1) * PER_SESSION + PER_SESSION == n * PER_SESSION) by (nonlinear_arith);
    }
}

/// Advancing a session keeps the timestamp equal to the block number times
/// `PER_SESSION`, so a chain started at block 0 and time 0 stays in lockstep.
pub proof fn lemma_advance_keeps_lockstep(clock: ChainClock)
    requires
        in_lockstep(clock),
        can_advance(clock),
    ensures
        in_lockstep(next_clock(clock)),
{
    assert((clock.block_number + 1) * PER_SESSION == clock.block_number * PER_SESSION + PER_SESSION)
        by (nonlinear_arith);
}

/// With one block per session, the session index reported after advancing is the
/// new block number (while it fits in a `u32`).
pub proof fn lemma_session_index_is_block(block: u64)
    requires
        block <= u32::MAX,
    ensures
        expected_session_index(block) == block,
{
}

} // verus!
