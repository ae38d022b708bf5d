//! The channel as a mathematical object: its state, and what each operation
//! makes of a state. The executable operations are specified against this
//! model, and the laws of the protocol are proved on it.

use vstd::prelude::*;
use crate::error::ErrorCode;
use crate::identity::Address;
use crate::settlement::fee_of;
use crate::vault::Payout;

verus! {

/// The length of the dispute window, in seconds: twenty-four hours.
pub const DISPUTE_WINDOW: i64 = 86_400;

/// Where a channel stands in its life. There is no way back to `Open`, and
/// none out of `Closed`.
#[derive(Clone, Copy, Debug, PartialEq, Eq, Structural)]
pub enum ChannelStatus {
    /// Funds are escrowed and no close has been proposed.
    Open,
    /// A final split has been proposed and may still be superseded.
    Closing,
    /// The channel has been settled.
    Closed,
}

/// The state of one channel record together with its vault.
pub struct ChannelState {
    /// Whether a channel has been opened in this record.
    pub exists: bool,
    pub channel_id: Seq<char>,
    pub participant_a: Address,
    pub participant_b: Address,
    pub balance_a: nat,
    pub balance_b: nat,
    /// The deposit that opened the channel.
    pub total_deposited: nat,
    pub version: nat,
    pub status: ChannelStatus,
    /// The time from which the channel can be settled; read only while closing.
    pub dispute_deadline: int,
    /// The time at which the channel was opened.
    pub last_update: int,
    /// What the channel's vault holds.
    pub escrow: nat,
}

impl ChannelState {
    /// The two balances never claim more than was deposited.
    pub open spec fn conserves(self) -> bool {
        self.balance_a + self.balance_b <= self.total_deposited
    }

    /// What has left the vault through settlement.
    pub open spec fn paid_out(self) -> nat {
        if self.status is Closed {
            self.balance_a + self.balance_b
        } else {
            0
        }
    }

    /// What holds of every channel that the operations can produce.
    pub open spec fn wf(self) -> bool {
        self.exists ==> {
            &&& self.conserves()
            &&& self.participant_a != self.participant_b
            &&& self.channel_id.len() > 0
            &&& self.total_deposited > 0
            &&& (self.status is Open ==> self.version == 0 && self.balance_a
                == self.total_deposited && self.balance_b == 0)
            &&& (!(self.status is Open) ==> self.version > 0)
            &&& self.escrow + self.paid_out() >= self.total_deposited
        }
    }

    /// The vault holds exactly the deposit less what settlement paid out.
    pub open spec fn exactly_backed(self) -> bool {
        self.escrow + self.paid_out() == self.total_deposited
    }

    pub open spec fn is_participant(self, who: Address) -> bool {
        who == self.participant_a || who == self.participant_b
    }

    /// Why a proposed split at a proposed version is refused, if it is.
    pub open spec fn proposal_refusal(self, caller: Address, a: u64, b: u64, version: u64) -> Option<
        ErrorCode,
    > {
        if !self.is_participant(caller) {
            Some(ErrorCode::NotAParticipant)
        } else if version <= self.version {
            Some(ErrorCode::VersionNotIncreasing)
        } else if a + b > u64::MAX {
            Some(ErrorCode::ArithmeticOverflow)
        } else if a + b > self.total_deposited {
            Some(ErrorCode::BalanceSplitExceedsDeposit)
        } else {
            None
        }
    }

    /// Opening a channel in this record: `caller` deposits `deposit` and names
    /// `participant_b` as the other side.
    pub open spec fn open_channel(
        self,
        caller: Address,
        participant_b: Address,
        deposit: u64,
        channel_id: Seq<char>,
        now: i64,
    ) -> Result<ChannelState, ErrorCode> {
        if deposit == 0 {
            Err(ErrorCode::DepositInvalid)
        } else if channel_id.len() == 0 {
            Err(ErrorCode::ChannelIdRequired)
        } else if self.exists {
            Err(ErrorCode::ChannelIdInUse)
        } else if participant_b == caller {
            Err(ErrorCode::SelfChannelNotAllowed)
        } else if self.escrow + deposit > u64::MAX {
            Err(ErrorCode::ArithmeticOverflow)
        } else {
            Ok(
                ChannelState {
                    exists: true,
                    channel_id,
                    participant_a: caller,
                    participant_b,
                    balance_a: deposit as nat,
                    balance_b: 0,
                    total_deposited: deposit as nat,
                    version: 0,
                    status: ChannelStatus::Open,
                    dispute_deadline: 0,
                    last_update: now as int,
                    escrow: (self.escrow + deposit) as nat,
                },
            )
        }
    }

    /// Proposing a final split: the channel starts closing, or starts closing
    /// anew, with a full dispute window from `now`.
    pub open spec fn initiate_close(self, caller: Address, a: u64, b: u64, version: u64, now: i64)
        -> Result<ChannelState, ErrorCode> {
        if !self.exists {
            Err(ErrorCode::ChannelNotFound)
        } else if self.status is Closed {
            Err(ErrorCode::ChannelClosed)
        } else if self.proposal_refusal(caller, a, b, version) is Some {
            Err(self.proposal_refusal(caller, a, b, version)->Some_0)
        } else if now + DISPUTE_WINDOW > i64::MAX {
            Err(ErrorCode::ArithmeticOverflow)
        } else {
            Ok(
                ChannelState {
                    balance_a: a as nat,
                    balance_b: b as nat,
                    version: version as nat,
                    status: ChannelStatus::Closing,
                    dispute_deadline: now + DISPUTE_WINDOW,
                    ..self
                },
            )
        }
    }

    /// Superseding the pending split while the dispute window is open. The
    /// deadline stays where the last `initiate_close` put it.
    pub open spec fn challenge_close(self, caller: Address, a: u64, b: u64, version: u64, now: i64)
        -> Result<ChannelState, ErrorCode> {
        if !self.exists {
            Err(ErrorCode::ChannelNotFound)
        } else if self.status is Closed {
            Err(ErrorCode::ChannelClosed)
        } else if self.status is Open {
            Err(ErrorCode::NoActiveDisputeWindow)
        } else if now >= self.dispute_deadline {
            Err(ErrorCode::ChallengeWindowExpired)
        } else if self.proposal_refusal(caller, a, b, version) is Some {
            Err(self.proposal_refusal(caller, a, b, version)->Some_0)
        } else {
            Ok(ChannelState { balance_a: a as nat, balance_b: b as nat, version: version as nat, ..self })
        }
    }

    /// The fee that settling this channel takes at `fee_rate_bps`.
    pub open spec fn fee(self, fee_rate_bps: u16) -> nat {
        fee_of(self.total_deposited, fee_rate_bps as nat)
    }

    /// Settling the channel once the dispute window has elapsed: both balances
    /// leave the vault and the channel is closed for good.
    pub open spec fn finalize_close(self, fee_rate_bps: u16, now: i64) -> Result<
        ChannelState,
        ErrorCode,
    > {
        if !self.exists {
            Err(ErrorCode::ChannelNotFound)
        } else if !(self.status is Closing) {
            Err(ErrorCode::ChannelNotClosing)
        } else if now < self.dispute_deadline {
            Err(ErrorCode::DisputeWindowNotElapsed)
        } else if self.total_deposited * fee_rate_bps > u64::MAX {
            Err(ErrorCode::ArithmeticOverflow)
        } else if self.balance_a + self.balance_b + self.fee(fee_rate_bps) > u64::MAX {
            Err(ErrorCode::ArithmeticOverflow)
        } else if self.balance_a + self.balance_b + self.fee(fee_rate_bps) > self.total_deposited {
            Err(ErrorCode::InsufficientEscrowForSettlement)
        } else if self.balance_a + self.balance_b > self.escrow {
            Err(ErrorCode::ArithmeticUnderflow)
        } else {
            Ok(
                ChannelState {
                    status: ChannelStatus::Closed,
                    escrow: (self.escrow - self.balance_a - self.balance_b) as nat,
                    ..self
                },
            )
        }
    }

    /// The transfers that settlement makes: first to the first participant,
    /// then to the second, leaving out a balance of zero.
    pub open spec fn payouts(self) -> Seq<Payout> {
        let to_a = if self.balance_a > 0 {
            seq![Payout { recipient: self.participant_a, amount: self.balance_a as u64 }]
        } else {
            Seq::<Payout>::empty()
        };
        let to_b = if self.balance_b > 0 {
            seq![Payout { recipient: self.participant_b, amount: self.balance_b as u64 }]
        } else {
            Seq::<Payout>::empty()
        };
        to_a + to_b
    }
}

} // verus!
