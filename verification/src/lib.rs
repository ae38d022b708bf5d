//! A bilateral payment channel: two participants escrow funds once, agree on
//! balance splits off the ledger, and settle after a dispute window.
//!
//! The channel is a small state machine, `Open -> Closing -> Closed`. Its
//! operations are total: each either makes the whole transition or reports
//! why it is refused and leaves every record as it was. Time and the caller's
//! identity are arguments; moving tokens is left to the caller, who is told
//! what to move.

pub mod channel;
pub mod error;
pub mod events;
pub mod history;
pub mod identity;
pub mod model;
pub mod registry;
pub mod settlement;
pub mod vault;

pub use channel::{
    challenge_channel_close, finalize_channel_close, initiate_channel_close, open_payment_channel,
    PaymentChannel, Settlement,
};
pub use error::ErrorCode;
pub use events::{
    ChannelChallengedEvent, ChannelFeeRateUpdatedEvent, PaymentChannelClosedEvent,
    PaymentChannelOpenedEvent,
};
pub use identity::Address;
pub use model::{ChannelStatus, DISPUTE_WINDOW};
pub use registry::{initialize, set_channel_fee_rate, PaymentChannelProgram};
pub use settlement::{settlement_fee, BPS_DENOMINATOR, MAX_FEE_RATE_BPS};
pub use vault::{Payout, Vault};
