//! Histories: what holds of a channel along every sequence of operations,
//! accepted or refused, that is ever applied to it.

use vstd::prelude::*;
use crate::error::ErrorCode;
use crate::identity::Address;
use crate::model::{ChannelState, ChannelStatus, DISPUTE_WINDOW};

verus! {

/// One call of one of the four channel operations, with everything that the
/// call depends on besides the channel itself.
pub enum Operation {
    Open { caller: Address, participant_b: Address, deposit: u64, channel_id: Seq<char>, now: i64 },
    InitiateClose { caller: Address, balance_a: u64, balance_b: u64, version: u64, now: i64 },
    ChallengeClose { caller: Address, balance_a: u64, balance_b: u64, version: u64, now: i64 },
    /// `fee_rate_bps` is the registry's rate at the time of the call.
    FinalizeClose { fee_rate_bps: u16, now: i64 },
}

impl ChannelStatus {
    /// The place of a status in the order in which a channel passes through
    /// them.
    pub open spec fn rank(self) -> nat {
        match self {
            ChannelStatus::Open => 0,
            ChannelStatus::Closing => 1,
            ChannelStatus::Closed => 2,
        }
    }
}

impl ChannelState {
    /// The state that `op` produces, or why it is refused.
    pub open spec fn outcome(self, op: Operation) -> Result<ChannelState, ErrorCode> {
        match op {
            Operation::Open { caller, participant_b, deposit, channel_id, now } => self.open_channel(
                caller,
                participant_b,
                deposit,
                channel_id,
                now,
            ),
            Operation::InitiateClose { caller, balance_a, balance_b, version, now } => self.initiate_close(
                caller,
                balance_a,
                balance_b,
                version,
                now,
            ),
            Operation::ChallengeClose { caller, balance_a, balance_b, version, now } => self.challenge_close(
                caller,
                balance_a,
                balance_b,
                version,
                now,
            ),
            Operation::FinalizeClose { fee_rate_bps, now } => self.finalize_close(fee_rate_bps, now),
        }
    }

    /// The state after `op` was called: a refused call changes nothing.
    pub open spec fn step(self, op: Operation) -> ChannelState {
        match self.outcome(op) {
            Ok(next) => next,
            Err(_) => self,
        }
    }

    /// The state after all of `ops` were called in order.
    pub open spec fn run(self, ops: Seq<Operation>) -> ChannelState
        decreases ops.len(),
    {
        if ops.len() == 0 {
            self
        } else {
            self.run(ops.drop_last()).step(ops.last())
        }
    }

    /// How many of `ops`, called in order, were accepted settlements.
    pub open spec fn settlements(self, ops: Seq<Operation>) -> nat
        decreases ops.len(),
    {
        if ops.len() == 0 {
            0
        } else {
            let before = self.run(ops.drop_last());
            let settled: nat = if ops.last() is FinalizeClose && before.outcome(ops.last()) is Ok {
                1
            } else {
                0
            };
            self.settlements(ops.drop_last()) + settled
        }
    }
}

/// No operation, accepted or refused, leads from a well-formed channel to one
/// that is not. In particular the two balances never come to claim more than
/// was deposited.
pub proof fn lemma_step_keeps_wf(s: ChannelState, op: Operation)
    requires
        s.wf(),
    ensures
        s.step(op).wf(),
{
}

/// Every state reached from a well-formed one is well-formed.
pub proof fn lemma_run_keeps_wf(s: ChannelState, ops: Seq<Operation>)
    requires
        s.wf(),
    ensures
        s.run(ops).wf(),
    decreases ops.len(),
{
    if ops.len() > 0 {
        lemma_run_keeps_wf(s, ops.drop_last());
        lemma_step_keeps_wf(s.run(ops.drop_last()), ops.last());
    }
}

/// Conservation of funds: in every state that a channel reaches from a vacant
/// record, the two balances together are at most the deposit, and the vault
/// still holds whatever of the deposit has not been paid out.
pub proof fn lemma_reachable_conserves(vacant: ChannelState, ops: Seq<Operation>)
    requires
        !vacant.exists,
    ensures
        vacant.run(ops).exists ==> vacant.run(ops).conserves(),
        vacant.run(ops).exists ==> vacant.run(ops).escrow + vacant.run(ops).paid_out()
            >= vacant.run(ops).total_deposited,
{
    lemma_run_keeps_wf(vacant, ops);
}

/// The version of an existing channel never goes down, and every accepted
/// proposal, be it an initiation or a challenge, takes it strictly up.
pub proof fn lemma_step_version(s: ChannelState, op: Operation)
    requires
        s.exists,
    ensures
        s.step(op).version >= s.version,
        (op is InitiateClose || op is ChallengeClose) && s.outcome(op) is Ok ==> s.step(op).version
            > s.version,
{
}

/// What is fixed when a channel is opened stays fixed: that it exists, its
/// identifier, its participants and its deposit.
pub proof fn lemma_step_keeps_identity(s: ChannelState, op: Operation)
    requires
        s.exists,
    ensures
        s.step(op).exists,
        s.step(op).channel_id == s.channel_id,
        s.step(op).participant_a == s.participant_a,
        s.step(op).participant_b == s.participant_b,
        s.step(op).total_deposited == s.total_deposited,
        s.step(op).last_update == s.last_update,
{
}

/// Along every history of an existing channel the version only grows, the
/// status only advances, and what was fixed at opening stays as it was.
pub proof fn lemma_run_monotone(s: ChannelState, ops: Seq<Operation>)
    requires
        s.exists,
    ensures
        s.run(ops).exists,
        s.run(ops).version >= s.version,
        s.run(ops).status.rank() >= s.status.rank(),
        s.run(ops).channel_id == s.channel_id,
        s.run(ops).participant_a == s.participant_a,
        s.run(ops).participant_b == s.participant_b,
        s.run(ops).total_deposited == s.total_deposited,
    decreases ops.len(),
{
    if ops.len() > 0 {
        let before = s.run(ops.drop_last());
        lemma_run_monotone(s, ops.drop_last());
        lemma_step_version(before, ops.last());
        lemma_step_keeps_identity(before, ops.last());
    }
}

/// The version at any earlier point of a history is at most the version at
/// any later point.
pub proof fn lemma_version_never_decreases(s: ChannelState, ops: Seq<Operation>, i: int, j: int)
    requires
        s.exists,
        0 <= i <= j <= ops.len(),
    ensures
        s.run(ops.take(i)).version <= s.run(ops.take(j)).version,
{
    let earlier = ops.take(i);
    let rest = ops.subrange(i, j);
    lemma_run_monotone(s, earlier);
    lemma_run_append(s, earlier, rest);
    assert(earlier + rest =~= ops.take(j));
    lemma_run_monotone(s.run(earlier), rest);
}

/// Running two histories one after the other is running their concatenation.
pub proof fn lemma_run_append(s: ChannelState, first: Seq<Operation>, second: Seq<Operation>)
    ensures
        s.run(first + second) == s.run(first).run(second),
    decreases second.len(),
{
    if second.len() == 0 {
        assert(first + second =~= first);
    } else {
        lemma_run_append(s, first, second.drop_last());
        assert((first + second).drop_last() =~= first + second.drop_last());
        assert((first + second).last() == second.last());
    }
}

/// A closed channel is final: every operation on it is refused and changes
/// nothing, and a settlement is refused because the channel is not closing.
pub proof fn lemma_closed_is_final(s: ChannelState, op: Operation)
    requires
        s.exists,
        s.status is Closed,
    ensures
        s.outcome(op) is Err,
        s.step(op) == s,
        op is FinalizeClose ==> s.outcome(op) == Err::<ChannelState, ErrorCode>(
            ErrorCode::ChannelNotClosing,
        ),
{
}

/// An accepted settlement closes the channel, so that a second settlement,
/// at whatever rate and time, is refused because the channel is not closing.
pub proof fn lemma_second_settlement_refused(
    s: ChannelState,
    fee_rate_bps: u16,
    now: i64,
    later_rate: u16,
    later: i64,
)
    requires
        s.finalize_close(fee_rate_bps, now) is Ok,
    ensures
        s.finalize_close(fee_rate_bps, now)->Ok_0.status is Closed,
        s.finalize_close(fee_rate_bps, now)->Ok_0.finalize_close(later_rate, later) == Err::<
            ChannelState,
            ErrorCode,
        >(ErrorCode::ChannelNotClosing),
{
}

/// In every history of a record, from whatever state, at most one settlement
/// is accepted; and once one was, the channel is closed.
pub proof fn lemma_settles_at_most_once(s: ChannelState, ops: Seq<Operation>)
    ensures
        s.settlements(ops) <= 1,
        s.settlements(ops) == 1 ==> s.run(ops).exists && s.run(ops).status is Closed,
    decreases ops.len(),
{
    if ops.len() > 0 {
        let before = s.run(ops.drop_last());
        lemma_settles_at_most_once(s, ops.drop_last());
        if s.settlements(ops.drop_last()) == 1 {
            lemma_closed_is_final(before, ops.last());
        }
    }
}

/// A proposal whose version does not exceed the channel's is never accepted,
/// neither as an initiation nor as a challenge, whatever the time of the call
/// and whoever makes it.
pub proof fn lemma_stale_version_refused(
    s: ChannelState,
    caller: Address,
    balance_a: u64,
    balance_b: u64,
    version: u64,
    now: i64,
)
    requires
        version <= s.version,
    ensures
        s.initiate_close(caller, balance_a, balance_b, version, now) is Err,
        s.challenge_close(caller, balance_a, balance_b, version, now) is Err,
{
}

/// An accepted initiation sets the deadline a full window after the call,
/// also when the channel was closing already; an accepted challenge leaves
/// the deadline where it was.
pub proof fn lemma_deadline(
    s: ChannelState,
    caller: Address,
    balance_a: u64,
    balance_b: u64,
    version: u64,
    now: i64,
)
    ensures
        s.initiate_close(caller, balance_a, balance_b, version, now) matches Ok(next)
            ==> next.status is Closing && next.dispute_deadline == now + DISPUTE_WINDOW,
        s.challenge_close(caller, balance_a, balance_b, version, now) matches Ok(next)
            ==> next.status is Closing && next.dispute_deadline == s.dispute_deadline && now
            < next.dispute_deadline,
{
}

/// A channel cannot be settled during the window that an initiation has just
/// opened: until the deadline every settlement is refused.
pub proof fn lemma_no_settlement_within_window(
    s: ChannelState,
    caller: Address,
    balance_a: u64,
    balance_b: u64,
    version: u64,
    now: i64,
    fee_rate_bps: u16,
    at: i64,
)
    requires
        s.initiate_close(caller, balance_a, balance_b, version, now) is Ok,
        at < now + DISPUTE_WINDOW,
    ensures
        s.initiate_close(caller, balance_a, balance_b, version, now)->Ok_0.finalize_close(
            fee_rate_bps,
            at,
        ) == Err::<ChannelState, ErrorCode>(ErrorCode::DisputeWindowNotElapsed),
{
}

/// A split that claims the whole deposit leaves nothing for a fee: where the
/// fee is positive the settlement is refused, and where the sums fit their
/// type the reason given is that the escrow does not cover the settlement.
pub proof fn lemma_full_split_leaves_no_fee(s: ChannelState, fee_rate_bps: u16, now: i64)
    requires
        s.balance_a + s.balance_b == s.total_deposited,
        s.fee(fee_rate_bps) > 0,
    ensures
        s.finalize_close(fee_rate_bps, now) is Err,
        s.exists && s.status is Closing && now >= s.dispute_deadline && s.total_deposited
            * fee_rate_bps <= u64::MAX && s.total_deposited + s.fee(fee_rate_bps) <= u64::MAX
            ==> s.finalize_close(fee_rate_bps, now) == Err::<ChannelState, ErrorCode>(
            ErrorCode::InsufficientEscrowForSettlement,
        ),
{
}

/// The vault of a well-formed channel always covers a settlement: it is never
/// the vault that makes one fail.
pub proof fn lemma_vault_covers_settlement(s: ChannelState, fee_rate_bps: u16, now: i64)
    requires
        s.wf(),
    ensures
        s.finalize_close(fee_rate_bps, now) != Err::<ChannelState, ErrorCode>(
            ErrorCode::ArithmeticUnderflow,
        ),
{
}

/// Exact custody: opening a channel over an empty vault makes the vault hold
/// exactly the deposit, and from then on the vault holds exactly the deposit
/// less what settlement has paid out.
pub proof fn lemma_step_keeps_exact_backing(s: ChannelState, op: Operation)
    ensures
        !s.exists && s.escrow == 0 && s.outcome(op) is Ok ==> s.step(op).exactly_backed(),
        s.exists && s.exactly_backed() ==> s.step(op).exactly_backed(),
{
}

} // verus!
