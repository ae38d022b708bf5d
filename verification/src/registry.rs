//! The per-asset configuration record: who administers it and which fee rate
//! applies at settlement.

use vstd::prelude::*;
use crate::error::ErrorCode;
use crate::events::ChannelFeeRateUpdatedEvent;
use crate::identity::Address;
use crate::settlement::MAX_FEE_RATE_BPS;

verus! {

/// The configuration of all channels of one asset.
#[derive(Clone, Copy, Debug, PartialEq, Eq)]
pub struct PaymentChannelProgram {
    /// The only identity that may change the fee rate.
    pub authority: Address,
    /// The asset whose channels this record governs.
    pub token_mint: Address,
    /// The settlement fee rate in basis points.
    pub fee_rate_bps: u16,
}

impl PaymentChannelProgram {
    /// The fee rate is within the cap.
    pub open spec fn wf(&self) -> bool {
        self.fee_rate_bps <= MAX_FEE_RATE_BPS
    }
}

/// Creates the registry of `token_mint`, administered by `authority`, unless
/// the fee rate exceeds the cap.
pub fn initialize(authority: Address, token_mint: Address, channel_fee_rate: u16) -> (r: Result<
    PaymentChannelProgram,
    ErrorCode,
>)
    ensures
        channel_fee_rate <= MAX_FEE_RATE_BPS ==> r == Ok::<PaymentChannelProgram, ErrorCode>(
            (PaymentChannelProgram { authority, token_mint, fee_rate_bps: channel_fee_rate }),
        ),
        channel_fee_rate > MAX_FEE_RATE_BPS ==> r == Err::<PaymentChannelProgram, ErrorCode>(
            ErrorCode::RateTooHigh,
        ),
        r is Ok ==> r->Ok_0.wf(),
{
    if channel_fee_rate > MAX_FEE_RATE_BPS {
        return Err(ErrorCode::RateTooHigh);
    }
    Ok(PaymentChannelProgram { authority, token_mint, fee_rate_bps: channel_fee_rate })
}

/// Sets the fee rate that later settlements use. Only the authority may do so,
/// and only up to the cap; a refused call changes nothing.
pub fn set_channel_fee_rate(registry: &mut PaymentChannelProgram, caller: Address, rate: u16) -> (r:
    Result<ChannelFeeRateUpdatedEvent, ErrorCode>)
    ensures
        caller != old(registry).authority ==> r == Err::<ChannelFeeRateUpdatedEvent, ErrorCode>(
            ErrorCode::Unauthorized,
        ),
        caller == old(registry).authority && rate > MAX_FEE_RATE_BPS ==> r == Err::<
            ChannelFeeRateUpdatedEvent,
            ErrorCode,
        >(ErrorCode::RateTooHigh),
        caller == old(registry).authority && rate <= MAX_FEE_RATE_BPS ==> r == Ok::<
            ChannelFeeRateUpdatedEvent,
            ErrorCode,
        >((ChannelFeeRateUpdatedEvent { new_rate: rate })),
        r is Err ==> *final(registry) == *old(registry),
        r is Ok ==> *final(registry) == (PaymentChannelProgram {
            fee_rate_bps: rate,
            ..*old(registry)
        }),
        old(registry).wf() ==> final(registry).wf(),
{
    if !(caller == registry.authority) {
        return Err(ErrorCode::Unauthorized);
    }
    if rate > MAX_FEE_RATE_BPS {
        return Err(ErrorCode::RateTooHigh);
    }
    registry.fee_rate_bps = rate;
    Ok(ChannelFeeRateUpdatedEvent { new_rate: rate })
}

} // verus!
