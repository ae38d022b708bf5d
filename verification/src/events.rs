//! Notices that report accepted operations to whoever watches the ledger.

use vstd::prelude::*;
use crate::identity::Address;

verus! {

/// A channel was opened.
#[derive(Clone, Debug, PartialEq, Eq)]
pub struct PaymentChannelOpenedEvent {
    pub channel_id: String,
    pub participant_a: Address,
    pub participant_b: Address,
    pub total_deposit: u64,
}

/// A close was initiated with the given final balances.
#[derive(Clone, Debug, PartialEq, Eq)]
pub struct PaymentChannelClosedEvent {
    pub channel_id: String,
    pub final_balance_a: u64,
    pub final_balance_b: u64,
}

/// A pending close was superseded by a later version.
#[derive(Clone, Debug, PartialEq, Eq)]
pub struct ChannelChallengedEvent {
    pub channel_id: String,
    pub new_version: u64,
    pub new_balance_a: u64,
    pub new_balance_b: u64,
}

/// The settlement fee rate was changed.
#[derive(Clone, Copy, Debug, PartialEq, Eq, Structural)]
pub struct ChannelFeeRateUpdatedEvent {
    pub new_rate: u16,
}

} // verus!
