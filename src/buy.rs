use vstd::prelude::*;
use crate::error::CustomError;
use crate::init::GlobalCofig;
use crate::state::{Dataset, DatasetKey, Pubkey};

verus! {

/// Basis points in a whole: a fee of 10000 basis points is the full price.
pub const BASIS_POINTS: u64 = 10000;

/// The platform fee on `price`: `floor(price * fee_basis_points / 10000)`.
pub open spec fn fee_of(price: u64, fee_basis_points: u16) -> int {
    (price * fee_basis_points) / (BASIS_POINTS as int)
}

/// How a price splits into `(seller_amount, fee)`, or why it cannot be split
/// in 64-bit arithmetic.
pub open spec fn price_split(price: u64, fee_basis_points: u16) -> Result<(u64, u64), CustomError> {
    if price * fee_basis_points > u64::MAX {
        Err(CustomError::ArithmeticOverflow)
    } else if fee_of(price, fee_basis_points) > price {
        Err(CustomError::ArithmeticUnderflow)
    } else {
        Ok(((price - fee_of(price, fee_basis_points)) as u64, fee_of(price, fee_basis_points) as u64))
    }
}

/// Splits `price` into the seller's part and the fee, with checked
/// arithmetic. What the two parts add up to is the price, exactly.
pub fn split_price(price: u64, fee_basis_points: u16) -> (r: Result<(u64, u64), CustomError>)
    ensures
        r == price_split(price, fee_basis_points),
        r matches Ok((seller_amount, fee)) ==> seller_amount + fee == price,
{
    let scaled = match price.checked_mul(fee_basis_points as u64) {
        Some(v) => v,
        None => {
            return Err(CustomError::ArithmeticOverflow);
        },
    };
    let fee = scaled / BASIS_POINTS;
    match price.checked_sub(fee) {
        Some(seller_amount) => Ok((seller_amount, fee)),
        None => Err(CustomError::ArithmeticUnderflow),
    }
}

/// One movement of value that a purchase asks the ledger to make.
#[derive(Clone, Copy, Debug, PartialEq, Eq)]
pub struct Transfer {
    pub from: Pubkey,
    pub to: Pubkey,
    pub amount: u64,
}

/// The two legs of a purchase. The ledger makes both within the purchase's
/// transaction, or neither: if one fails, the whole transaction is undone.
#[derive(Clone, Copy, Debug, PartialEq, Eq)]
pub struct Receipt {
    /// Buyer to seller: the price less the fee.
    pub seller_leg: Transfer,
    /// Buyer to treasury: the fee.
    pub fee_leg: Transfer,
}

/// A purchase of the listing at `dataset` by `buyer` from `seller`.
#[derive(Clone, Debug)]
pub struct BuyDataset {
    pub dataset: DatasetKey,
    pub buyer: Pubkey,
    pub seller: Pubkey,
}

/// What a purchase of listing `d` comes to: its receipt, or why it is
/// refused. A record other than the one the purchase names is `NotFound`.
pub open spec fn purchase_outcome(d: Dataset, ctx: BuyDataset, config: GlobalCofig) -> Result<
    Receipt,
    CustomError,
> {
    if !ctx.dataset.addresses(d) {
        Err(CustomError::NotFound)
    } else if !d.is_active {
        Err(CustomError::ListingInactive)
    } else if ctx.seller@ != d.owner@ {
        Err(CustomError::AuthorizationMismatch)
    } else {
        match price_split(d.price, config.fee_basis_points) {
            Err(e) => Err(e),
            Ok((seller_amount, fee)) => Ok(
                Receipt {
                    seller_leg: Transfer { from: ctx.buyer, to: ctx.seller, amount: seller_amount },
                    fee_leg: Transfer { from: ctx.buyer, to: config.treasury, amount: fee },
                },
            ),
        }
    }
}

/// Sells the listing: checks that it is the one `ctx` names, that it is for
/// sale and that the seller owns it, splits the price, and retires the listing. The receipt names the two
/// transfers the ledger must make.
pub fn buy_dataset_handler(dataset: &mut Dataset, ctx: &BuyDataset, config: &GlobalCofig) -> (r:
    Result<Receipt, CustomError>)
    ensures
        r == purchase_outcome(*old(dataset), *ctx, *config),
        r matches Ok(receipt) ==> receipt.seller_leg.amount + receipt.fee_leg.amount == old(
            dataset,
        ).price,
        *final(dataset) == (if r is Ok {
            Dataset { is_active: false, ..*old(dataset) }
        } else {
            *old(dataset)
        }),
{
    if !ctx.dataset.matches(dataset) {
        return Err(CustomError::NotFound);
    }
    if !dataset.is_active {
        return Err(CustomError::ListingInactive);
    }
    if !ctx.seller.same_as(&dataset.owner) {
        return Err(CustomError::AuthorizationMismatch);
    }
    let (seller_amount, fee) = match split_price(dataset.price, config.fee_basis_points) {
        Ok(parts) => parts,
        Err(e) => {
            return Err(e);
        },
    };
    let receipt = Receipt {
        seller_leg: Transfer { from: ctx.buyer, to: ctx.seller, amount: seller_amount },
        fee_leg: Transfer { from: ctx.buyer, to: config.treasury, amount: fee },
    };
    dataset.is_active = false;
    Ok(receipt)
}

} // verus!
