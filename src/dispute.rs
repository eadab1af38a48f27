use vstd::prelude::*;
use crate::error::CustomError;
use crate::init::GlobalCofig;
use crate::state::{zero_key, Dataset, DatasetKey, Dispute, DisputeKey, DisputeStatus, Pubkey, User};
use crate::validation::{text_within, validate_reason, MAX_REASON_LEN};

verus! {

/// A dispute against the listing at `dataset`, filed by `challenger`.
#[derive(Clone, Debug)]
pub struct FileDispute {
    pub dataset: DatasetKey,
    pub challenger: Pubkey,
}

/// The resolution of the dispute at `dispute` by `resolver`.
#[derive(Clone, Debug)]
pub struct ResolveDispute {
    pub dispute: DisputeKey,
    pub resolver: Pubkey,
}

/// Whether filing a dispute against listing `d` by identity `u` is
/// accepted, and if not, why. A record other than the listing `ctx` names is
/// `NotFound`.
pub open spec fn filing_check(d: Dataset, u: User, ctx: FileDispute, reason: Seq<char>) -> Result<
    (),
    CustomError,
> {
    if !ctx.dataset.addresses(d) {
        Err(CustomError::NotFound)
    } else if d.is_active {
        Err(CustomError::ListingStillActive)
    } else if u.authority@ != ctx.challenger@ || u.is_banned {
        Err(CustomError::Unauthorized)
    } else if !text_within(reason, MAX_REASON_LEN) {
        Err(CustomError::InvalidInput)
    } else {
        Ok(())
    }
}

/// Whether `x` is the dispute that `ctx` files at time `now`: pending, with
/// no verdict, no resolver (the zero key) and no resolution time.
pub open spec fn fresh_dispute(x: Dispute, ctx: FileDispute, reason: String, now: i64) -> bool {
    &&& x.dataset == ctx.dataset
    &&& x.challenger == ctx.challenger
    &&& x.reason == reason
    &&& x.created_at == now
    &&& x.status == DisputeStatus::Pending
    &&& !x.result
    &&& x.resolver@ == zero_key()
    &&& x.resolved_at == 0
}

/// Files a pending dispute stamped `now` against a sold listing. The
/// challenger, whose identity is `challenger`, must not be banned.
pub fn file_dispute_handler(
    ctx: FileDispute,
    dataset: &Dataset,
    challenger: &User,
    reason: String,
    now: i64,
) -> (r: Result<Dispute, CustomError>)
    ensures
        r is Ok <==> filing_check(*dataset, *challenger, ctx, reason@) is Ok,
        r is Err ==> r == Err::<Dispute, CustomError>(
            filing_check(*dataset, *challenger, ctx, reason@)->Err_0,
        ),
        r matches Ok(x) ==> fresh_dispute(x, ctx, reason, now),
{
    if !ctx.dataset.matches(dataset) {
        return Err(CustomError::NotFound);
    }
    if dataset.is_active {
        return Err(CustomError::ListingStillActive);
    }
    if !challenger.authority.same_as(&ctx.challenger) || challenger.is_banned {
        return Err(CustomError::Unauthorized);
    }
    match validate_reason(reason.as_str()) {
        Err(e) => Err(e),
        Ok(()) => Ok(
            Dispute {
                dataset: ctx.dataset,
                challenger: ctx.challenger,
                reason,
                created_at: now,
                status: DisputeStatus::Pending,
                result: false,
                resolver: Pubkey::zero(),
                resolved_at: 0,
            },
        ),
    }
}

/// What resolving dispute `d` comes to: `Ok` or why it is refused.
pub open spec fn resolution_outcome(d: Dispute, ctx: ResolveDispute, config: GlobalCofig) -> Result<
    (),
    CustomError,
> {
    if ctx.resolver@ != config.admin@ {
        Err(CustomError::Unauthorized)
    } else if d.status == DisputeStatus::Resolved {
        Err(CustomError::DisputeAlreadyResolved)
    } else {
        Ok(())
    }
}

/// Dispute `d` after its resolution.
pub open spec fn resolved(d: Dispute, ctx: ResolveDispute, verdict: bool, now: i64) -> Dispute {
    Dispute {
        status: DisputeStatus::Resolved,
        result: verdict,
        resolver: ctx.resolver,
        resolved_at: now,
        ..d
    }
}

/// Resolves a pending dispute, when the caller is the configured authority
/// and `dataset` is the listing the dispute names (else `NotFound`).
/// An upheld dispute (`verdict`) retires the disputed listing, whatever
/// state it is in.
pub fn resolve_dispute_handler(
    dispute: &mut Dispute,
    dataset: &mut Dataset,
    ctx: &ResolveDispute,
    config: &GlobalCofig,
    verdict: bool,
    now: i64,
) -> (r: Result<(), CustomError>)
    ensures
        r == (if ctx.resolver@ != config.admin@ {
            Err(CustomError::Unauthorized)
        } else if !old(dispute).dataset.addresses(*old(dataset)) {
            Err(CustomError::NotFound)
        } else {
            resolution_outcome(*old(dispute), *ctx, *config)
        }),
        *final(dispute) == (if r is Ok {
            resolved(*old(dispute), *ctx, verdict, now)
        } else {
            *old(dispute)
        }),
        *final(dataset) == (if r is Ok && verdict {
            Dataset { is_active: false, ..*old(dataset) }
        } else {
            *old(dataset)
        }),
{
    if !ctx.resolver.same_as(&config.admin) {
        return Err(CustomError::Unauthorized);
    }
    if !dispute.dataset.matches(dataset) {
        return Err(CustomError::NotFound);
    }
    if dispute.status == DisputeStatus::Resolved {
        return Err(CustomError::DisputeAlreadyResolved);
    }
    dispute.status = DisputeStatus::Resolved;
    dispute.result = verdict;
    dispute.resolver = ctx.resolver;
    dispute.resolved_at = now;
    if verdict {
        dataset.is_active = false;
    }
    Ok(())
}

} // verus!
