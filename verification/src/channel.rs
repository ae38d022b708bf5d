//! The channel record and the four operations that move it through its life.

use vstd::prelude::*;
use crate::error::ErrorCode;
use crate::events::{ChannelChallengedEvent, PaymentChannelClosedEvent, PaymentChannelOpenedEvent};
use crate::identity::Address;
use crate::model::{ChannelState, ChannelStatus, DISPUTE_WINDOW};
use crate::registry::PaymentChannelProgram;
use crate::settlement::settlement_fee;
use crate::vault::{Payout, Vault};

verus! {

/// One channel record, addressed by its `channel_id`, with the vault that
/// backs it. A record in which no channel has been opened yet is vacant.
#[derive(Clone, Debug, PartialEq, Eq)]
pub struct PaymentChannel {
    /// The participant who opened the channel and made the deposit.
    pub participant_a: Address,
    /// The other participant.
    pub participant_b: Address,
    /// What the current split gives the first participant.
    pub balance_a: u64,
    /// What the current split gives the second participant.
    pub balance_b: u64,
    /// The deposit that opened the channel; it never changes.
    pub total_deposited: u64,
    /// The version of the current split; it only ever grows.
    pub version: u64,
    pub status: ChannelStatus,
    /// When the channel was opened.
    pub last_update: i64,
    /// From when the channel can be settled; read only while closing.
    pub dispute_deadline: i64,
    pub channel_id: String,
    /// Whether a channel has been opened in this record.
    pub is_initialized: bool,
    /// The escrowed funds.
    pub vault: Vault,
}

impl View for PaymentChannel {
    type V = ChannelState;

    open spec fn view(&self) -> ChannelState {
        ChannelState {
            exists: self.is_initialized,
            channel_id: self.channel_id@,
            participant_a: self.participant_a,
            participant_b: self.participant_b,
            balance_a: self.balance_a as nat,
            balance_b: self.balance_b as nat,
            total_deposited: self.total_deposited as nat,
            version: self.version as nat,
            status: self.status,
            dispute_deadline: self.dispute_deadline as int,
            last_update: self.last_update as int,
            escrow: self.vault@,
        }
    }
}

/// What settling a channel pays and withholds.
#[derive(Clone, Debug, PartialEq, Eq)]
pub struct Settlement {
    /// The settlement fee. It is withheld from the participants and stays in
    /// the vault.
    pub fee: u64,
    /// The transfers to make from the vault, in order.
    pub payouts: Vec<Payout>,
}

impl PaymentChannel {
    /// A record in which no channel has been opened, with an empty vault.
    pub fn vacant() -> (r: PaymentChannel)
        ensures
            !r@.exists,
            r@.escrow == 0,
            r@.channel_id.len() == 0,
            r@.balance_a == 0 && r@.balance_b == 0 && r@.total_deposited == 0 && r@.version == 0,
            r@.status is Open,
            r@.dispute_deadline == 0 && r@.last_update == 0,
            r@.participant_a == r@.participant_b,
            forall|i: int| 0 <= i < 32 ==> r@.participant_a.bytes[i] == 0,
    {
        let nobody = Address::new([0u8;32]);
        PaymentChannel {
            participant_a: nobody,
            participant_b: nobody,
            balance_a: 0,
            balance_b: 0,
            total_deposited: 0,
            version: 0,
            status: ChannelStatus::Open,
            last_update: 0,
            dispute_deadline: 0,
            channel_id: String::new(),
            is_initialized: false,
            vault: Vault::new(),
        }
    }

    /// Whether `who` is one of the two participants.
    pub fn is_participant(&self, who: &Address) -> (r: bool)
        ensures
            r == self@.is_participant(*who),
    {
        *who == self.participant_a || *who == self.participant_b
    }

    /// Tests a proposed split and version against the channel.
    fn check_proposal(&self, caller: &Address, a: u64, b: u64, version: u64) -> (r: Result<
        (),
        ErrorCode,
    >)
        ensures
            match self@.proposal_refusal(*caller, a, b, version) {
                Some(e) => r == Err::<(), ErrorCode>(e),
                None => r == Ok::<(), ErrorCode>(()),
            },
    {
        if !self.is_participant(caller) {
            return Err(ErrorCode::NotAParticipant);
        }
        if version <= self.version {
            return Err(ErrorCode::VersionNotIncreasing);
        }
        match a.checked_add(b) {
            None => Err(ErrorCode::ArithmeticOverflow),
            Some(total) => {
                if total > self.total_deposited {
                    Err(ErrorCode::BalanceSplitExceedsDeposit)
                } else {
                    Ok(())
                }
            },
        }
    }
}

/// Opens a channel in a vacant record: `caller` becomes the first participant
/// and `deposit` moves into the vault.
///
/// Refused, in this order of precedence, when the deposit is zero, the
/// identifier is empty, the record already holds a channel, the two
/// participants are the same, or the vault cannot take the deposit.
pub fn open_payment_channel(
    channel: &mut PaymentChannel,
    caller: Address,
    participant_b: Address,
    deposit: u64,
    channel_id: String,
    now: i64,
) -> (r: Result<PaymentChannelOpenedEvent, ErrorCode>)
    ensures
        match old(channel)@.open_channel(caller, participant_b, deposit, channel_id@, now) {
            Ok(next) => final(channel)@ == next && r == Ok::<PaymentChannelOpenedEvent, ErrorCode>(
                (PaymentChannelOpenedEvent {
                    channel_id,
                    participant_a: caller,
                    participant_b,
                    total_deposit: deposit,
                }),
            ),
            Err(e) => r == Err::<PaymentChannelOpenedEvent, ErrorCode>(e) && *final(channel)
                == *old(channel),
        },
        old(channel)@.wf() ==> final(channel)@.wf(),
        r is Ok ==> final(channel)@.status is Open && final(channel)@.version == 0,
{
    if deposit == 0 {
        return Err(ErrorCode::DepositInvalid);
    }
    if channel_id.as_str().is_empty() {
        return Err(ErrorCode::ChannelIdRequired);
    }
    if channel.is_initialized {
        return Err(ErrorCode::ChannelIdInUse);
    }
    if participant_b == caller {
        return Err(ErrorCode::SelfChannelNotAllowed);
    }
    match channel.vault.deposit(deposit) {
        Err(e) => {
            return Err(e);
        },
        Ok(()) => {},
    }
    let event_id = channel_id.clone();
    channel.participant_a = caller;
    channel.participant_b = participant_b;
    channel.balance_a = deposit;
    channel.balance_b = 0;
    channel.total_deposited = deposit;
    channel.version = 0;
    channel.status = ChannelStatus::Open;
    channel.last_update = now;
    channel.dispute_deadline = 0;
    channel.channel_id = channel_id;
    channel.is_initialized = true;
    Ok(
        PaymentChannelOpenedEvent {
            channel_id: event_id,
            participant_a: caller,
            participant_b,
            total_deposit: deposit,
        },
    )
}

/// Proposes a final split at a higher version and starts a full dispute
/// window from `now`. May be called again while the channel is closing: the
/// new proposal replaces the old one and the window starts afresh.
pub fn initiate_channel_close(
    channel: &mut PaymentChannel,
    caller: Address,
    final_balance_a: u64,
    final_balance_b: u64,
    version: u64,
    now: i64,
) -> (r: Result<PaymentChannelClosedEvent, ErrorCode>)
    ensures
        match old(channel)@.initiate_close(caller, final_balance_a, final_balance_b, version, now) {
            Ok(next) => final(channel)@ == next && r == Ok::<PaymentChannelClosedEvent, ErrorCode>(
                (PaymentChannelClosedEvent {
                    channel_id: old(channel).channel_id,
                    final_balance_a,
                    final_balance_b,
                }),
            ),
            Err(e) => r == Err::<PaymentChannelClosedEvent, ErrorCode>(e) && *final(channel)
                == *old(channel),
        },
        old(channel)@.wf() ==> final(channel)@.wf(),
        r is Ok ==> final(channel)@.conserves(),
        r is Ok ==> final(channel)@.version > old(channel)@.version,
        r is Ok ==> final(channel)@.status is Closing,
{
    if !channel.is_initialized {
        return Err(ErrorCode::ChannelNotFound);
    }
    if channel.status == ChannelStatus::Closed {
        return Err(ErrorCode::ChannelClosed);
    }
    match channel.check_proposal(&caller, final_balance_a, final_balance_b, version) {
        Err(e) => {
            return Err(e);
        },
        Ok(()) => {},
    }
    let deadline = match now.checked_add(DISPUTE_WINDOW) {
        Some(t) => t,
        None => {
            return Err(ErrorCode::ArithmeticOverflow);
        },
    };
    channel.balance_a = final_balance_a;
    channel.balance_b = final_balance_b;
    channel.version = version;
    channel.status = ChannelStatus::Closing;
    channel.dispute_deadline = deadline;
    Ok(
        PaymentChannelClosedEvent {
            channel_id: channel.channel_id.clone(),
            final_balance_a,
            final_balance_b,
        },
    )
}

/// Replaces the pending split by one of a higher version while the dispute
/// window is open. The deadline is left as it is.
pub fn challenge_channel_close(
    channel: &mut PaymentChannel,
    caller: Address,
    new_balance_a: u64,
    new_balance_b: u64,
    new_version: u64,
    now: i64,
) -> (r: Result<ChannelChallengedEvent, ErrorCode>)
    ensures
        match old(channel)@.challenge_close(caller, new_balance_a, new_balance_b, new_version, now) {
            Ok(next) => final(channel)@ == next && r == Ok::<ChannelChallengedEvent, ErrorCode>(
                (ChannelChallengedEvent {
                    channel_id: old(channel).channel_id,
                    new_version,
                    new_balance_a,
                    new_balance_b,
                }),
            ),
            Err(e) => r == Err::<ChannelChallengedEvent, ErrorCode>(e) && *final(channel) == *old(
                channel,
            ),
        },
        old(channel)@.wf() ==> final(channel)@.wf(),
        r is Ok ==> final(channel)@.conserves(),
        r is Ok ==> final(channel)@.version > old(channel)@.version,
        r is Ok ==> final(channel)@.dispute_deadline == old(channel)@.dispute_deadline,
        new_version <= old(channel)@.version ==> r is Err,
{
    if !channel.is_initialized {
        return Err(ErrorCode::ChannelNotFound);
    }
    if channel.status == ChannelStatus::Closed {
        return Err(ErrorCode::ChannelClosed);
    }
    if channel.status == ChannelStatus::Open {
        return Err(ErrorCode::NoActiveDisputeWindow);
    }
    if now >= channel.dispute_deadline {
        return Err(ErrorCode::ChallengeWindowExpired);
    }
    match channel.check_proposal(&caller, new_balance_a, new_balance_b, new_version) {
        Err(e) => {
            return Err(e);
        },
        Ok(()) => {},
    }
    channel.balance_a = new_balance_a;
    channel.balance_b = new_balance_b;
    channel.version = new_version;
    Ok(
        ChannelChallengedEvent {
            channel_id: channel.channel_id.clone(),
            new_version,
            new_balance_a,
            new_balance_b,
        },
    )
}

/// Settles a closing channel once its dispute window has elapsed: computes
/// the fee at the registry's current rate, takes both balances out of the
/// vault and closes the channel. The fee stays in the vault.
pub fn finalize_channel_close(
    channel: &mut PaymentChannel,
    registry: &PaymentChannelProgram,
    now: i64,
) -> (r: Result<Settlement, ErrorCode>)
    ensures
        match old(channel)@.finalize_close(registry.fee_rate_bps, now) {
            Ok(next) => final(channel)@ == next && r is Ok && r->Ok_0.fee == old(channel)@.fee(
                registry.fee_rate_bps,
            ) && r->Ok_0.payouts@ == old(channel)@.payouts(),
            Err(e) => r == Err::<Settlement, ErrorCode>(e) && *final(channel) == *old(channel),
        },
        old(channel)@.wf() ==> final(channel)@.wf(),
        final(channel)@.version == old(channel)@.version,
        r is Ok ==> final(channel)@.status is Closed,
        old(channel)@.exists && old(channel)@.status is Closed ==> r == Err::<Settlement, ErrorCode>(
            ErrorCode::ChannelNotClosing,
        ),
{
    if !channel.is_initialized {
        return Err(ErrorCode::ChannelNotFound);
    }
    if channel.status != ChannelStatus::Closing {
        return Err(ErrorCode::ChannelNotClosing);
    }
    if now < channel.dispute_deadline {
        return Err(ErrorCode::DisputeWindowNotElapsed);
    }
    let fee = match settlement_fee(channel.total_deposited, registry.fee_rate_bps) {
        Ok(fee) => fee,
        Err(e) => {
            return Err(e);
        },
    };
    let to_distribute = match channel.balance_a.checked_add(channel.balance_b) {
        Some(sum) => sum,
        None => {
            return Err(ErrorCode::ArithmeticOverflow);
        },
    };
    let needed = match to_distribute.checked_add(fee) {
        Some(sum) => sum,
        None => {
            return Err(ErrorCode::ArithmeticOverflow);
        },
    };
    if needed > channel.total_deposited {
        return Err(ErrorCode::InsufficientEscrowForSettlement);
    }
    if to_distribute > channel.vault.balance() {
        return Err(ErrorCode::ArithmeticUnderflow);
    }
    let mut payouts: Vec<Payout> = Vec::new();
    if channel.balance_a > 0 {
        match channel.vault.payout(channel.participant_a, channel.balance_a) {
            Ok(p) => {
                payouts.push(p);
            },
            Err(e) => {
                return Err(e);
            },
        }
    }
    if channel.balance_b > 0 {
        match channel.vault.payout(channel.participant_b, channel.balance_b) {
            Ok(p) => {
                payouts.push(p);
            },
            Err(e) => {
                return Err(e);
            },
        }
    }
    channel.status = ChannelStatus::Closed;
    proof {
        assert(payouts@ =~= old(channel)@.payouts());
    }
    Ok(Settlement { fee, payouts })
}

} // verus!
