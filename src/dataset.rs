use vstd::prelude::*;
use crate::error::CustomError;
use crate::state::{Dataset, Pubkey, User};
use crate::validation::{text_within, validate_text, MAX_IPFS_HASH_LEN};

verus! {

/// Creation of a listing by the signer `authority`.
#[derive(Clone, Copy, Debug)]
pub struct CreateDataset {
    pub authority: Pubkey,
}

/// Builds an active listing owned by the signer, whose identity is `user`.
/// The signer must control `user` and not be banned.
pub fn create_dataset_handler(
    ctx: &CreateDataset,
    user: &User,
    ipfs_hash: String,
    price: u64,
) -> (r: Result<Dataset, CustomError>)
    ensures
        r == (if user.authority@ != ctx.authority@ || user.is_banned {
            Err::<Dataset, CustomError>(CustomError::Unauthorized)
        } else if !text_within(ipfs_hash@, MAX_IPFS_HASH_LEN) {
            Err(CustomError::InvalidInput)
        } else {
            Ok(Dataset { owner: ctx.authority, price, ipfs_hash, is_active: true })
        }),
{
    if !user.authority.same_as(&ctx.authority) || user.is_banned {
        return Err(CustomError::Unauthorized);
    }
    match validate_text(ipfs_hash.as_str(), MAX_IPFS_HASH_LEN) {
        Err(e) => Err(e),
        Ok(()) => Ok(Dataset { owner: ctx.authority, price, ipfs_hash, is_active: true }),
    }
}

} // verus!
