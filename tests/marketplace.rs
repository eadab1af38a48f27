use datasold::buy::{buy_dataset_handler, split_price, BuyDataset, Transfer};
use datasold::dataset::CreateDataset;
use datasold::dispute::{file_dispute_handler, resolve_dispute_handler, FileDispute, ResolveDispute};
use datasold::error::CustomError;
use datasold::honor::{add_saturating, AdjustReputation};
use datasold::init::{initialize as build_config, Initialize};
use datasold::state::{Dataset, DatasetKey, DisputeKey, DisputeStatus, Pubkey, User};
use datasold::user::{BanUser, CreateUser, UnbanUser};
use datasold::validation::{validate_reason, MAX_IPFS_HASH_LEN, MAX_REASON_LEN, MAX_USERNAME_LEN};
use datasold::{
    ban_user, buy_dataset, create_dataset, initialize, open_dispute, register_user,
    resolve_dispute, unban_user, update_honor, Marketplace,
};

const CID: &str = "bafybeigdyrzt5sfp7udm7hu76uh7y26nf3efuylqabf3oclgtqy55fbzdi";

fn pk(n: u8) -> Pubkey {
    Pubkey::new([n; 32])
}

fn admin() -> Pubkey {
    pk(1)
}

fn seller() -> Pubkey {
    pk(2)
}

fn buyer() -> Pubkey {
    pk(3)
}

fn treasury() -> Pubkey {
    pk(9)
}

fn listing_key() -> DatasetKey {
    DatasetKey { owner: seller(), ipfs_hash: CID.to_string() }
}

fn dispute_key() -> DisputeKey {
    DisputeKey { dataset: listing_key(), challenger: buyer() }
}

/// A marketplace with a 2.5% fee, two registered principals and one listing.
fn market_with_listing(price: u64) -> Marketplace {
    let mut m = initialize(&Initialize { config: treasury(), payer: admin() }, 250);
    register_user(&mut m, &CreateUser { authority: seller() }, "seller".to_string()).unwrap();
    register_user(&mut m, &CreateUser { authority: buyer() }, "buyer".to_string()).unwrap();
    create_dataset(&mut m, &CreateDataset { authority: seller() }, CID.to_string(), price).unwrap();
    m
}

fn purchase() -> BuyDataset {
    BuyDataset { dataset: listing_key(), buyer: buyer(), seller: seller() }
}

fn market_with_sold_listing() -> Marketplace {
    let mut m = market_with_listing(1_000_000);
    buy_dataset(&mut m, &purchase()).unwrap();
    m
}

#[test]
fn sale_dispute_and_upheld_resolution() {
    let mut m = market_with_listing(1_000_000);
    let receipt = buy_dataset(&mut m, &purchase()).unwrap();
    assert_eq!(receipt.fee_leg, Transfer { from: buyer(), to: treasury(), amount: 25_000 });
    assert_eq!(receipt.seller_leg, Transfer { from: buyer(), to: seller(), amount: 975_000 });
    assert!(!m.dataset(&listing_key()).unwrap().is_active);

    let filed = FileDispute { dataset: listing_key(), challenger: buyer() };
    assert_eq!(open_dispute(&mut m, filed, "not as described".to_string(), 1_000), Ok(()));
    let d = m.dispute(&dispute_key()).unwrap();
    assert_eq!(d.status, DisputeStatus::Pending);
    assert_eq!(d.created_at, 1_000);
    assert_eq!(d.resolved_at, 0);
    assert_eq!(d.resolver, Pubkey::zero());

    let resolution = ResolveDispute { dispute: dispute_key(), resolver: admin() };
    assert_eq!(resolve_dispute(&mut m, &resolution, true, 2_000), Ok(()));
    let d = m.dispute(&dispute_key()).unwrap();
    assert_eq!(d.status, DisputeStatus::Resolved);
    assert!(d.result);
    assert_eq!(d.resolver, admin());
    assert_eq!(d.resolved_at, 2_000);
    assert!(!m.dataset(&listing_key()).unwrap().is_active);
}

#[test]
fn content_reference_bounds() {
    let mut m = market_with_listing(5);
    let ctx = CreateDataset { authority: seller() };
    assert_eq!(create_dataset(&mut m, &ctx, String::new(), 5), Err(CustomError::InvalidInput));
    let too_long = "a".repeat(MAX_IPFS_HASH_LEN + 1);
    assert_eq!(create_dataset(&mut m, &ctx, too_long, 5), Err(CustomError::InvalidInput));
    let longest = "a".repeat(MAX_IPFS_HASH_LEN);
    assert_eq!(create_dataset(&mut m, &ctx, longest.clone(), 5), Ok(()));
    let key = DatasetKey { owner: seller(), ipfs_hash: longest };
    let d = m.dataset(&key).unwrap();
    assert!(d.is_active);
    assert_eq!(d.price, 5);
}

#[test]
fn second_purchase_is_refused() {
    let mut m = market_with_sold_listing();
    assert_eq!(buy_dataset(&mut m, &purchase()), Err(CustomError::ListingInactive));
    assert!(!m.dataset(&listing_key()).unwrap().is_active);
}

#[test]
fn fee_split_adds_up() {
    assert_eq!(split_price(1_000_000, 250), Ok((975_000, 25_000)));
    assert_eq!(split_price(7, 3333), Ok((5, 2)));
    assert_eq!(split_price(123_456_789, 0), Ok((123_456_789, 0)));
    assert_eq!(split_price(0, 250), Ok((0, 0)));
    assert_eq!(split_price(9_999, 10_000), Ok((0, 9_999)));
    for (price, bps) in [(1u64, 1u16), (999, 9_999), (u64::MAX / 10_000, 10_000), (31_337, 42)] {
        let (seller_amount, fee) = split_price(price, bps).unwrap();
        assert_eq!(seller_amount + fee, price);
        assert_eq!(fee, price * bps as u64 / 10_000);
    }
}

#[test]
fn fee_split_overflow_and_underflow() {
    assert_eq!(split_price(u64::MAX, 2), Err(CustomError::ArithmeticOverflow));
    assert_eq!(split_price(10_000, 10_001), Err(CustomError::ArithmeticUnderflow));
}

#[test]
fn purchase_overflow_leaves_listing_for_sale() {
    let mut m = market_with_listing(u64::MAX);
    assert_eq!(buy_dataset(&mut m, &purchase()), Err(CustomError::ArithmeticOverflow));
    assert!(m.dataset(&listing_key()).unwrap().is_active);
}

#[test]
fn purchase_from_wrong_seller_is_refused() {
    let mut m = market_with_listing(100);
    let ctx = BuyDataset { dataset: listing_key(), buyer: buyer(), seller: pk(7) };
    assert_eq!(buy_dataset(&mut m, &ctx), Err(CustomError::AuthorizationMismatch));
    assert!(m.dataset(&listing_key()).unwrap().is_active);
}

#[test]
fn purchase_of_missing_listing_is_refused() {
    let mut m = market_with_listing(100);
    let ctx = BuyDataset {
        dataset: DatasetKey { owner: seller(), ipfs_hash: "other".to_string() },
        buyer: buyer(),
        seller: seller(),
    };
    assert_eq!(buy_dataset(&mut m, &ctx), Err(CustomError::NotFound));
}

#[test]
fn dispute_resolves_once() {
    let mut m = market_with_sold_listing();
    let filed = FileDispute { dataset: listing_key(), challenger: buyer() };
    open_dispute(&mut m, filed, "corrupt file".to_string(), 10).unwrap();
    let resolution = ResolveDispute { dispute: dispute_key(), resolver: admin() };
    assert_eq!(resolve_dispute(&mut m, &resolution, false, 20), Ok(()));
    assert_eq!(
        resolve_dispute(&mut m, &resolution, true, 30),
        Err(CustomError::DisputeAlreadyResolved)
    );
    let d = m.dispute(&dispute_key()).unwrap();
    assert!(!d.result);
    assert_eq!(d.resolved_at, 20);
}

#[test]
fn only_the_authority_resolves() {
    let mut m = market_with_sold_listing();
    let filed = FileDispute { dataset: listing_key(), challenger: buyer() };
    open_dispute(&mut m, filed, "corrupt file".to_string(), 10).unwrap();
    for caller in [seller(), buyer(), treasury(), pk(0)] {
        let resolution = ResolveDispute { dispute: dispute_key(), resolver: caller };
        assert_eq!(resolve_dispute(&mut m, &resolution, true, 20), Err(CustomError::Unauthorized));
    }
    assert_eq!(m.dispute(&dispute_key()).unwrap().status, DisputeStatus::Pending);
}

#[test]
fn only_the_authority_bans() {
    let mut m = market_with_listing(1);
    for caller in [seller(), buyer(), treasury()] {
        let ban = BanUser { user: buyer(), authority: caller };
        assert_eq!(ban_user(&mut m, &ban), Err(CustomError::Unauthorized));
        let unban = UnbanUser { user: buyer(), authority: caller };
        assert_eq!(unban_user(&mut m, &unban), Err(CustomError::Unauthorized));
    }
    assert!(!m.user(&buyer()).unwrap().is_banned);
    assert_eq!(ban_user(&mut m, &BanUser { user: buyer(), authority: admin() }), Ok(()));
    assert!(m.user(&buyer()).unwrap().is_banned);
    assert_eq!(unban_user(&mut m, &UnbanUser { user: buyer(), authority: admin() }), Ok(()));
    assert!(!m.user(&buyer()).unwrap().is_banned);
    assert_eq!(
        ban_user(&mut m, &BanUser { user: pk(8), authority: admin() }),
        Err(CustomError::NotFound)
    );
}

#[test]
fn banned_principal_cannot_list_or_dispute() {
    let mut m = market_with_sold_listing();
    ban_user(&mut m, &BanUser { user: buyer(), authority: admin() }).unwrap();
    let ctx = CreateDataset { authority: buyer() };
    assert_eq!(create_dataset(&mut m, &ctx, "cid".to_string(), 1), Err(CustomError::Unauthorized));
    let filed = FileDispute { dataset: listing_key(), challenger: buyer() };
    assert_eq!(open_dispute(&mut m, filed, "why".to_string(), 1), Err(CustomError::Unauthorized));
    assert!(m.dispute(&dispute_key()).is_none());
}

#[test]
fn unregistered_principal_cannot_list() {
    let mut m = market_with_listing(1);
    let ctx = CreateDataset { authority: pk(5) };
    assert_eq!(create_dataset(&mut m, &ctx, "cid".to_string(), 1), Err(CustomError::NotFound));
}

#[test]
fn duplicate_records_are_refused() {
    let mut m = market_with_sold_listing();
    let again = CreateUser { authority: buyer() };
    assert_eq!(register_user(&mut m, &again, "twin".to_string()), Err(CustomError::AlreadyExists));
    assert_eq!(m.user(&buyer()).unwrap().username, "buyer");
    let ctx = CreateDataset { authority: seller() };
    assert_eq!(create_dataset(&mut m, &ctx, CID.to_string(), 9), Err(CustomError::AlreadyExists));
    let filed = FileDispute { dataset: listing_key(), challenger: buyer() };
    open_dispute(&mut m, filed.clone(), "first".to_string(), 1).unwrap();
    assert_eq!(open_dispute(&mut m, filed, "second".to_string(), 2), Err(CustomError::AlreadyExists));
    assert_eq!(m.dispute(&dispute_key()).unwrap().reason, "first");
}

#[test]
fn dispute_on_listing_for_sale_is_refused() {
    let mut m = market_with_listing(100);
    let filed = FileDispute { dataset: listing_key(), challenger: buyer() };
    assert_eq!(open_dispute(&mut m, filed, "early".to_string(), 1), Err(CustomError::ListingStillActive));
}

#[test]
fn dispute_reason_bounds() {
    assert_eq!(validate_reason(""), Err(CustomError::InvalidInput));
    assert_eq!(validate_reason(&"r".repeat(MAX_REASON_LEN)), Ok(()));
    assert_eq!(validate_reason(&"r".repeat(MAX_REASON_LEN + 1)), Err(CustomError::InvalidInput));
    let mut m = market_with_sold_listing();
    let filed = FileDispute { dataset: listing_key(), challenger: buyer() };
    assert_eq!(open_dispute(&mut m, filed, String::new(), 1), Err(CustomError::InvalidInput));
}

#[test]
fn username_bounds() {
    let mut m = initialize(&Initialize { config: treasury(), payer: admin() }, 0);
    let ctx = CreateUser { authority: pk(4) };
    assert_eq!(register_user(&mut m, &ctx, String::new()), Err(CustomError::InvalidInput));
    let too_long = "u".repeat(MAX_USERNAME_LEN + 1);
    assert_eq!(register_user(&mut m, &ctx, too_long), Err(CustomError::InvalidInput));
    assert_eq!(register_user(&mut m, &ctx, "u".repeat(MAX_USERNAME_LEN)), Ok(()));
    let u = m.user(&pk(4)).unwrap();
    assert_eq!(u.reputation, 0);
    assert!(!u.is_banned);
}

#[test]
fn reputation_saturates() {
    assert_eq!(add_saturating(i32::MAX, 1), i32::MAX);
    assert_eq!(add_saturating(i32::MIN, -1), i32::MIN);
    assert_eq!(add_saturating(-5, 12), 7);
    let mut m = market_with_listing(1);
    let ctx = AdjustReputation { user: seller(), authority: admin() };
    assert_eq!(update_honor(&mut m, &ctx, 10), Ok(10));
    assert_eq!(update_honor(&mut m, &ctx, i32::MAX), Ok(i32::MAX));
    assert_eq!(update_honor(&mut m, &ctx, i32::MAX), Ok(i32::MAX));
    assert_eq!(update_honor(&mut m, &ctx, i32::MIN), Ok(-1));
    assert_eq!(update_honor(&mut m, &ctx, i32::MIN), Ok(i32::MIN));
    assert_eq!(update_honor(&mut m, &ctx, -1), Ok(i32::MIN));
    assert_eq!(m.user(&seller()).unwrap().reputation, i32::MIN);
}

#[test]
fn reputation_needs_the_authority() {
    let mut m = market_with_listing(1);
    let ctx = AdjustReputation { user: seller(), authority: seller() };
    assert_eq!(update_honor(&mut m, &ctx, 100), Err(CustomError::Unauthorized));
    assert_eq!(m.user(&seller()).unwrap().reputation, 0);
    let missing = AdjustReputation { user: pk(6), authority: admin() };
    assert_eq!(update_honor(&mut m, &missing, 1), Err(CustomError::NotFound));
}

#[test]
fn configuration_names_authority_and_treasury() {
    let m = initialize(&Initialize { config: treasury(), payer: admin() }, 250);
    let c = m.config();
    assert_eq!(c.admin, admin());
    assert_eq!(c.treasury, treasury());
    assert_eq!(c.fee_basis_points, 250);
    assert!(c.system_activated);
}

#[test]
fn keys_compare_by_bytes() {
    assert!(pk(4).same_as(&pk(4)));
    assert!(!pk(4).same_as(&pk(5)));
    let mut bytes = [4u8; 32];
    bytes[31] = 0;
    assert!(!pk(4).same_as(&Pubkey::new(bytes)));
    assert_eq!(Pubkey::zero().to_bytes(), [0u8; 32]);
}

#[test]
fn purchase_handler_retires_the_record() {
    let config = build_config(&Initialize { config: treasury(), payer: admin() }, 1_000);
    let mut d = Dataset { owner: seller(), price: 50, ipfs_hash: CID.to_string(), is_active: true };
    let receipt = buy_dataset_handler(&mut d, &purchase(), &config).unwrap();
    assert_eq!(receipt.seller_leg.amount, 45);
    assert_eq!(receipt.fee_leg.amount, 5);
    assert!(!d.is_active);
    assert_eq!(buy_dataset_handler(&mut d, &purchase(), &config), Err(CustomError::ListingInactive));
}

#[test]
fn resolve_handler_retires_listing_on_upheld_claim() {
    let config = build_config(&Initialize { config: treasury(), payer: admin() }, 0);
    let mut d = Dataset { owner: seller(), price: 1, ipfs_hash: CID.to_string(), is_active: false };
    let challenger = User { authority: buyer(), username: "b".to_string(), reputation: 0, is_banned: false };
    let filed = FileDispute { dataset: listing_key(), challenger: buyer() };
    let mut dispute = file_dispute_handler(filed, &d, &challenger, "bad".to_string(), 5).unwrap();
    let stranger = ResolveDispute { dispute: dispute_key(), resolver: seller() };
    assert_eq!(
        resolve_dispute_handler(&mut dispute, &mut d, &stranger, &config, true, 6),
        Err(CustomError::Unauthorized)
    );
    let resolution = ResolveDispute { dispute: dispute_key(), resolver: admin() };
    assert_eq!(resolve_dispute_handler(&mut dispute, &mut d, &resolution, &config, true, 7), Ok(()));
    assert_eq!(dispute.status, DisputeStatus::Resolved);
    assert_eq!(dispute.resolved_at, 7);
    assert!(!d.is_active);
}

#[test]
fn handlers_refuse_a_listing_other_than_the_named_one() {
    let config = build_config(&Initialize { config: treasury(), payer: admin() }, 250);
    let mut other = Dataset { owner: seller(), price: 80, ipfs_hash: "other".to_string(), is_active: true };
    assert_eq!(buy_dataset_handler(&mut other, &purchase(), &config), Err(CustomError::NotFound));
    assert!(other.is_active);

    let sold_other = Dataset { owner: pk(7), price: 1, ipfs_hash: CID.to_string(), is_active: false };
    let challenger = User { authority: buyer(), username: "b".to_string(), reputation: 0, is_banned: false };
    let filed = FileDispute { dataset: listing_key(), challenger: buyer() };
    assert_eq!(
        file_dispute_handler(filed.clone(), &sold_other, &challenger, "bad".to_string(), 5).map(|_| ()),
        Err(CustomError::NotFound)
    );

    let sold = Dataset { owner: seller(), price: 1, ipfs_hash: CID.to_string(), is_active: false };
    let mut dispute = file_dispute_handler(filed, &sold, &challenger, "bad".to_string(), 5).unwrap();
    let resolution = ResolveDispute { dispute: dispute_key(), resolver: admin() };
    assert_eq!(
        resolve_dispute_handler(&mut dispute, &mut other, &resolution, &config, true, 6),
        Err(CustomError::NotFound)
    );
    assert!(other.is_active);
    assert_eq!(dispute.status, DisputeStatus::Pending);
    assert_eq!(dispute.resolved_at, 0);
}
