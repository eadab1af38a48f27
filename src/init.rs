use vstd::prelude::*;
use crate::state::Pubkey;

verus! {

/// Longest auction that the configuration allows, in seconds (three days).
pub const MAX_AUCTION_DURATION: u64 = 259200;

/// The global configuration: the single administrative authority and the
/// economic parameters.
#[derive(Clone, Copy, Debug)]
pub struct GlobalCofig {
    /// The authority that resolves disputes, bans principals and scores them.
    pub admin: Pubkey,
    /// Where the fee leg of every purchase goes.
    pub treasury: Pubkey,
    /// The fee, in basis points (hundredths of a percent) of the price.
    pub fee_basis_points: u16,
    pub max_auction_duration: u64,
    pub system_activated: bool,
}

/// The principals that bootstrap the system.
#[derive(Clone, Copy, Debug)]
pub struct Initialize {
    /// The address of the configuration record, which also holds the fees.
    pub config: Pubkey,
    /// The principal that becomes the authority.
    pub payer: Pubkey,
}

/// The configuration that `initialize` builds.
pub open spec fn initialize_spec(ctx: Initialize, fee_basis_points: u16) -> GlobalCofig {
    GlobalCofig {
        admin: ctx.payer,
        treasury: ctx.config,
        fee_basis_points,
        max_auction_duration: MAX_AUCTION_DURATION,
        system_activated: true,
    }
}

/// Builds the configuration: the payer becomes the authority and the
/// configuration's own address the treasury.
pub fn initialize(ctx: &Initialize, fee_basis_points: u16) -> (r: GlobalCofig)
    ensures
        r == initialize_spec(*ctx, fee_basis_points),
        r.admin@ == ctx.payer@,
        r.treasury@ == ctx.config@,
        r.fee_basis_points == fee_basis_points,
        r.max_auction_duration == MAX_AUCTION_DURATION,
        r.system_activated,
{
    GlobalCofig {
        admin: ctx.payer,
        treasury: ctx.config,
        fee_basis_points,
        max_auction_duration: MAX_AUCTION_DURATION,
        system_activated: true,
    }
}

} // verus!
