//! The reasons for which an operation is refused.

use vstd::prelude::*;

verus! {

/// Why an operation was refused. Every refusal is final and leaves all state
/// as it was.
#[derive(Clone, Copy, Debug, PartialEq, Eq, Structural)]
pub enum ErrorCode {
    /// The deposit that opens a channel is zero.
    DepositInvalid,
    /// The channel identifier is empty.
    ChannelIdRequired,
    /// A channel already exists under this identifier.
    ChannelIdInUse,
    /// The two participants of a channel would be the same identity.
    SelfChannelNotAllowed,
    /// No channel exists under this identifier.
    ChannelNotFound,
    /// The channel has been settled and accepts no further change.
    ChannelClosed,
    /// The caller is neither of the channel's two participants.
    NotAParticipant,
    /// The proposed version does not exceed the channel's current version.
    VersionNotIncreasing,
    /// The proposed balances add up to more than the channel holds.
    BalanceSplitExceedsDeposit,
    /// A challenge was made on a channel whose close has not been initiated.
    NoActiveDisputeWindow,
    /// A challenge was made at or after the dispute deadline.
    ChallengeWindowExpired,
    /// Settlement was asked of a channel that is not closing.
    ChannelNotClosing,
    /// Settlement was asked before the dispute deadline.
    DisputeWindowNotElapsed,
    /// Balances and settlement fee together exceed what was deposited.
    InsufficientEscrowForSettlement,
    /// The caller is not the registry's authority.
    Unauthorized,
    /// The fee rate exceeds the cap.
    RateTooHigh,
    /// A sum or product does not fit its integer type.
    ArithmeticOverflow,
    /// A difference would fall below zero.
    ArithmeticUnderflow,
}

} // verus!
