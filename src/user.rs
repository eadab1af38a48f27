use vstd::prelude::*;
use crate::error::CustomError;
use crate::init::GlobalCofig;
use crate::state::{Pubkey, User};
use crate::validation::{text_within, validate_text, MAX_USERNAME_LEN};

verus! {

/// Registration of an identity by its own controller.
#[derive(Clone, Copy, Debug)]
pub struct CreateUser {
    pub authority: Pubkey,
}

/// A ban of the identity `user`, asked for by `authority`.
#[derive(Clone, Copy, Debug)]
pub struct BanUser {
    pub user: Pubkey,
    pub authority: Pubkey,
}

/// The lifting of a ban on the identity `user`, asked for by `authority`.
#[derive(Clone, Copy, Debug)]
pub struct UnbanUser {
    pub user: Pubkey,
    pub authority: Pubkey,
}

/// Builds a fresh identity for the signer: score 0, not banned.
pub fn create_user_handler(ctx: &CreateUser, username: String) -> (r: Result<User, CustomError>)
    ensures
        r == (if text_within(username@, MAX_USERNAME_LEN) {
            Ok::<User, CustomError>(
                User { authority: ctx.authority, username, reputation: 0, is_banned: false },
            )
        } else {
            Err(CustomError::InvalidInput)
        }),
{
    match validate_text(username.as_str(), MAX_USERNAME_LEN) {
        Err(e) => Err(e),
        Ok(()) => Ok(User { authority: ctx.authority, username, reputation: 0, is_banned: false }),
    }
}

/// Bans `user`, when the caller is the configured authority.
pub fn ban_user_handler(user: &mut User, ctx: &BanUser, config: &GlobalCofig) -> (r: Result<
    (),
    CustomError,
>)
    ensures
        r == (if ctx.authority@ == config.admin@ {
            Ok::<(), CustomError>(())
        } else {
            Err(CustomError::Unauthorized)
        }),
        *final(user) == (if r is Ok {
            User { is_banned: true, ..*old(user) }
        } else {
            *old(user)
        }),
{
    if !ctx.authority.same_as(&config.admin) {
        return Err(CustomError::Unauthorized);
    }
    user.is_banned = true;
    Ok(())
}

/// Lifts the ban on `user`, when the caller is the configured authority.
pub fn unban_user_handler(user: &mut User, ctx: &UnbanUser, config: &GlobalCofig) -> (r: Result<
    (),
    CustomError,
>)
    ensures
        r == (if ctx.authority@ == config.admin@ {
            Ok::<(), CustomError>(())
        } else {
            Err(CustomError::Unauthorized)
        }),
        *final(user) == (if r is Ok {
            User { is_banned: false, ..*old(user) }
        } else {
            *old(user)
        }),
{
    if !ctx.authority.same_as(&config.admin) {
        return Err(CustomError::Unauthorized);
    }
    user.is_banned = false;
    Ok(())
}

} // verus!
