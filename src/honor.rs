use vstd::prelude::*;
use crate::error::CustomError;
use crate::init::GlobalCofig;
use crate::state::{Pubkey, User};

verus! {

/// `x` clamped to the range of `i32`.
pub open spec fn saturate_i32(x: int) -> i32 {
    if x > i32::MAX {
        i32::MAX
    } else if x < i32::MIN {
        i32::MIN
    } else {
        x as i32
    }
}

/// Adds two scores, clamping at the bounds of `i32` instead of wrapping.
pub fn add_saturating(a: i32, b: i32) -> (r: i32)
    ensures
        r == saturate_i32(a + b),
{
    let sum: i64 = a as i64 + b as i64;
    if sum > i32::MAX as i64 {
        i32::MAX
    } else if sum < i32::MIN as i64 {
        i32::MIN
    } else {
        sum as i32
    }
}

/// Adjusting a score never wraps around: a non-negative delta never lowers
/// it, a non-positive one never raises it, and a sum beyond the range of
/// `i32` stops at the bound it crossed.
pub proof fn lemma_reputation_saturates(score: i32, delta: i32)
    ensures
        delta >= 0 ==> saturate_i32(score + delta) >= score,
        delta <= 0 ==> saturate_i32(score + delta) <= score,
        score + delta > i32::MAX ==> saturate_i32(score + delta) == i32::MAX,
        score + delta < i32::MIN ==> saturate_i32(score + delta) == i32::MIN,
        i32::MIN <= score + delta <= i32::MAX ==> saturate_i32(score + delta) == score + delta,
{
}

/// A change of the reputation of `user`, asked for by `authority`.
#[derive(Clone, Copy, Debug)]
pub struct AdjustReputation {
    pub user: Pubkey,
    pub authority: Pubkey,
}

/// Adds `delta` to the reputation of `user`, saturating, when the caller is
/// the configured authority; returns the new score.
pub fn adjust_reputation_handler(
    user: &mut User,
    ctx: &AdjustReputation,
    config: &GlobalCofig,
    delta: i32,
) -> (r: Result<i32, CustomError>)
    ensures
        r == (if ctx.authority@ == config.admin@ {
            Ok::<i32, CustomError>(saturate_i32(old(user).reputation + delta))
        } else {
            Err(CustomError::Unauthorized)
        }),
        *final(user) == (if r is Ok {
            User { reputation: saturate_i32(old(user).reputation + delta), ..*old(user) }
        } else {
            *old(user)
        }),
{
    if !ctx.authority.same_as(&config.admin) {
        return Err(CustomError::Unauthorized);
    }
    let score = add_saturating(user.reputation, delta);
    user.reputation = score;
    Ok(score)
}

} // verus!
