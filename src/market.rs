use vstd::prelude::*;
use crate::buy::{buy_dataset_handler, purchase_outcome, BuyDataset, Receipt};
use crate::dataset::{create_dataset_handler, CreateDataset};
use crate::dispute::{
    fresh_dispute, resolution_outcome, resolve_dispute_handler, resolved,
    file_dispute_handler, FileDispute, ResolveDispute,
};
use crate::error::CustomError;
use crate::honor::{adjust_reputation_handler, saturate_i32, AdjustReputation};
use crate::init::{GlobalCofig, Initialize};
use crate::state::{Dataset, DatasetKey, Dispute, DisputeKey, Pubkey, User};
use crate::user::{ban_user_handler, create_user_handler, unban_user_handler, BanUser, CreateUser, UnbanUser};
use crate::validation::{text_within, MAX_IPFS_HASH_LEN, MAX_REASON_LEN, MAX_USERNAME_LEN};

verus! {

/// `users[i]` is the identity of principal `key`.
pub open spec fn user_at(users: Seq<User>, key: Seq<u8>, i: int) -> bool {
    0 <= i < users.len() && users[i].authority@ == key
}

/// Principal `key` has an identity.
pub open spec fn has_user(users: Seq<User>, key: Seq<u8>) -> bool {
    exists|i: int| user_at(users, key, i)
}

/// Principal `key` has an identity, and it is banned.
pub open spec fn is_banned_user(users: Seq<User>, key: Seq<u8>) -> bool {
    exists|i: int| user_at(users, key, i) && users[i].is_banned
}

/// `datasets[i]` is the listing at address `(owner, hash)`.
pub open spec fn dataset_at(datasets: Seq<Dataset>, owner: Seq<u8>, hash: Seq<char>, i: int) -> bool {
    0 <= i < datasets.len() && datasets[i].owner@ == owner && datasets[i].ipfs_hash@ == hash
}

/// A listing lives at address `(owner, hash)`.
pub open spec fn has_dataset(datasets: Seq<Dataset>, owner: Seq<u8>, hash: Seq<char>) -> bool {
    exists|i: int| dataset_at(datasets, owner, hash, i)
}

/// `disputes[i]` is the dispute at the address `key`.
pub open spec fn dispute_at(disputes: Seq<Dispute>, key: DisputeKey, i: int) -> bool {
    0 <= i < disputes.len() && key.addresses(disputes[i])
}

/// A dispute lives at the address `key`.
pub open spec fn has_dispute(disputes: Seq<Dispute>, key: DisputeKey) -> bool {
    exists|i: int| dispute_at(disputes, key, i)
}

/// No two identities share a principal.
pub open spec fn users_unique(users: Seq<User>) -> bool {
    forall|i: int, j: int|
        #![trigger users[i], users[j]]
        0 <= i < users.len() && 0 <= j < users.len() && users[i].authority@ == users[j].authority@
            ==> i == j
}

/// No two listings share an address.
pub open spec fn datasets_unique(datasets: Seq<Dataset>) -> bool {
    forall|i: int, j: int|
        #![trigger datasets[i], datasets[j]]
        0 <= i < datasets.len() && 0 <= j < datasets.len() && datasets[i].owner@
            == datasets[j].owner@ && datasets[i].ipfs_hash@ == datasets[j].ipfs_hash@ ==> i == j
}

/// No two disputes share an address.
pub open spec fn disputes_unique(disputes: Seq<Dispute>) -> bool {
    forall|i: int, j: int|
        #![trigger disputes[i], disputes[j]]
        0 <= i < disputes.len() && 0 <= j < disputes.len() && disputes[i].dataset.same(
            disputes[j].dataset,
        ) && disputes[i].challenger@ == disputes[j].challenger@ ==> i == j
}

/// Every dispute names a listing that exists and is no longer for sale.
pub open spec fn disputes_on_sold(datasets: Seq<Dataset>, disputes: Seq<Dispute>) -> bool {
    &&& forall|k: int|
        #![trigger disputes[k]]
        0 <= k < disputes.len() ==> has_dataset(
            datasets,
            disputes[k].dataset.owner@,
            disputes[k].dataset.ipfs_hash@,
        )
    &&& forall|k: int, j: int|
        #![trigger disputes[k], datasets[j]]
        0 <= k < disputes.len() && 0 <= j < datasets.len() && disputes[k].dataset.addresses(
            datasets[j],
        ) ==> !datasets[j].is_active
}

/// The record store: the configuration and every identity, listing and
/// dispute, each at a distinct derived address.
#[derive(Clone)]
pub struct Marketplace {
    config: GlobalCofig,
    users: Vec<User>,
    datasets: Vec<Dataset>,
    disputes: Vec<Dispute>,
}

impl Marketplace {
    pub closed spec fn spec_config(&self) -> GlobalCofig {
        self.config
    }

    pub closed spec fn spec_users(&self) -> Seq<User> {
        self.users@
    }

    pub closed spec fn spec_datasets(&self) -> Seq<Dataset> {
        self.datasets@
    }

    pub closed spec fn spec_disputes(&self) -> Seq<Dispute> {
        self.disputes@
    }

    /// The store's invariant: addresses are unique, and disputes only name
    /// existing listings that were sold or retired.
    pub open spec fn wf(&self) -> bool {
        &&& users_unique(self.spec_users())
        &&& datasets_unique(self.spec_datasets())
        &&& disputes_unique(self.spec_disputes())
        &&& disputes_on_sold(self.spec_datasets(), self.spec_disputes())
    }

    pub fn config(&self) -> (r: &GlobalCofig)
        ensures
            *r == self.spec_config(),
    {
        &self.config
    }

    fn find_user(&self, key: &Pubkey) -> (r: Option<usize>)
        ensures
            match r {
                Some(i) => user_at(self.spec_users(), key@, i as int),
                None => !has_user(self.spec_users(), key@),
            },
    {
        let mut i: usize = 0;
        while i < self.users.len()
            invariant
                i <= self.users@.len(),
                forall|j: int| 0 <= j < i ==> !user_at(self.users@, key@, j),
            decreases self.users@.len() - i,
        {
            if self.users[i].authority.same_as(key) {
                return Some(i);
            }
            i = i + 1;
        }
        None
    }

    fn find_dataset(&self, owner: &Pubkey, hash: &String) -> (r: Option<usize>)
        ensures
            match r {
                Some(i) => dataset_at(self.spec_datasets(), owner@, hash@, i as int),
                None => !has_dataset(self.spec_datasets(), owner@, hash@),
            },
    {
        let mut i: usize = 0;
        while i < self.datasets.len()
            invariant
                i <= self.datasets@.len(),
                forall|j: int| 0 <= j < i ==> !dataset_at(self.datasets@, owner@, hash@, j),
            decreases self.datasets@.len() - i,
        {
            if self.datasets[i].owner.same_as(owner) && self.datasets[i].ipfs_hash == *hash {
                return Some(i);
            }
            i = i + 1;
        }
        None
    }

    fn find_dispute(&self, dataset: &DatasetKey, challenger: &Pubkey) -> (r: Option<usize>)
        ensures
            match r {
                Some(i) => dispute_at(
                    self.spec_disputes(),
                    DisputeKey { dataset: *dataset, challenger: *challenger },
                    i as int,
                ),
                None => !has_dispute(
                    self.spec_disputes(),
                    DisputeKey { dataset: *dataset, challenger: *challenger },
                ),
            },
    {
        let ghost key = DisputeKey { dataset: *dataset, challenger: *challenger };
        let mut i: usize = 0;
        while i < self.disputes.len()
            invariant
                i <= self.disputes@.len(),
                key == (DisputeKey { dataset: *dataset, challenger: *challenger }),
                forall|j: int| 0 <= j < i ==> !dispute_at(self.disputes@, key, j),
            decreases self.disputes@.len() - i,
        {
            let same_listing = dataset.equals(&self.disputes[i].dataset);
            let same_challenger = challenger.same_as(&self.disputes[i].challenger);
            if same_listing && same_challenger {
                return Some(i);
            }
            i = i + 1;
        }
        None
    }

    /// The identity of principal `key`, if it has one.
    pub fn user(&self, key: &Pubkey) -> (r: Option<&User>)
        ensures
            match r {
                Some(u) => exists|i: int| user_at(self.spec_users(), key@, i) && *u == self.spec_users()[i],
                None => !has_user(self.spec_users(), key@),
            },
    {
        match self.find_user(key) {
            Some(i) => Some(&self.users[i]),
            None => None,
        }
    }

    /// The listing at address `key`, if there is one.
    pub fn dataset(&self, key: &DatasetKey) -> (r: Option<&Dataset>)
        ensures
            match r {
                Some(d) => exists|i: int|
                    dataset_at(self.spec_datasets(), key.owner@, key.ipfs_hash@, i) && *d
                        == self.spec_datasets()[i],
                None => !has_dataset(self.spec_datasets(), key.owner@, key.ipfs_hash@),
            },
    {
        match self.find_dataset(&key.owner, &key.ipfs_hash) {
            Some(i) => Some(&self.datasets[i]),
            None => None,
        }
    }

    /// The dispute at address `key`, if there is one.
    pub fn dispute(&self, key: &DisputeKey) -> (r: Option<&Dispute>)
        ensures
            match r {
                Some(d) => exists|i: int|
                    dispute_at(self.spec_disputes(), *key, i) && *d == self.spec_disputes()[i],
                None => !has_dispute(self.spec_disputes(), *key),
            },
    {
        match self.find_dispute(&key.dataset, &key.challenger) {
            Some(i) => Some(&self.disputes[i]),
            None => None,
        }
    }
}

/// The listing at address `(owner, hash)` exists and is for sale.
pub open spec fn is_active_dataset(datasets: Seq<Dataset>, owner: Seq<u8>, hash: Seq<char>) -> bool {
    exists|i: int| dataset_at(datasets, owner, hash, i) && datasets[i].is_active
}

/// Whether `new` holds the same records as `old`.
pub open spec fn unchanged(old: Marketplace, new: Marketplace) -> bool {
    &&& new.spec_config() == old.spec_config()
    &&& new.spec_users() == old.spec_users()
    &&& new.spec_datasets() == old.spec_datasets()
    &&& new.spec_disputes() == old.spec_disputes()
}

/// Whether `new` differs from `old` in its listings alone.
pub open spec fn only_datasets_changed(old: Marketplace, new: Marketplace) -> bool {
    &&& new.spec_config() == old.spec_config()
    &&& new.spec_users() == old.spec_users()
    &&& new.spec_disputes() == old.spec_disputes()
}

/// Whether `new` differs from `old` in its disputes alone.
pub open spec fn only_disputes_changed(old: Marketplace, new: Marketplace) -> bool {
    &&& new.spec_config() == old.spec_config()
    &&& new.spec_users() == old.spec_users()
    &&& new.spec_datasets() == old.spec_datasets()
}

/// What `buy_dataset` does: from store `old`, the purchase `ctx` gives `r`
/// and leaves store `new`.
pub open spec fn buy_post(
    old: Marketplace,
    new: Marketplace,
    ctx: BuyDataset,
    r: Result<Receipt, CustomError>,
) -> bool {
    if !has_dataset(old.spec_datasets(), ctx.dataset.owner@, ctx.dataset.ipfs_hash@) {
        r == Err::<Receipt, CustomError>(CustomError::NotFound) && unchanged(old, new)
    } else {
        forall|i: int|
            dataset_at(old.spec_datasets(), ctx.dataset.owner@, ctx.dataset.ipfs_hash@, i) ==> {
                &&& r == purchase_outcome(old.spec_datasets()[i], ctx, old.spec_config())
                &&& r is Ok ==> only_datasets_changed(old, new) && new.spec_datasets()
                    == old.spec_datasets().update(
                    i,
                    Dataset { is_active: false, ..old.spec_datasets()[i] },
                )
                &&& r is Err ==> unchanged(old, new)
            }
    }
}

/// What `resolve_dispute` does: from store `old`, the resolution `ctx` with
/// `verdict` at time `now` gives `r` and leaves store `new`.
pub open spec fn resolve_post(
    old: Marketplace,
    new: Marketplace,
    ctx: ResolveDispute,
    verdict: bool,
    now: i64,
    r: Result<(), CustomError>,
) -> bool {
    if ctx.resolver@ != old.spec_config().admin@ {
        r == Err::<(), CustomError>(CustomError::Unauthorized) && unchanged(old, new)
    } else if !has_dispute(old.spec_disputes(), ctx.dispute) {
        r == Err::<(), CustomError>(CustomError::NotFound) && unchanged(old, new)
    } else {
        forall|i: int|
            dispute_at(old.spec_disputes(), ctx.dispute, i) ==> {
                &&& r == resolution_outcome(old.spec_disputes()[i], ctx, old.spec_config())
                &&& r is Ok ==> only_disputes_changed(old, new) && new.spec_disputes()
                    == old.spec_disputes().update(
                    i,
                    resolved(old.spec_disputes()[i], ctx, verdict, now),
                )
                &&& r is Err ==> unchanged(old, new)
            }
    }
}

/// Whether `new` differs from `old` in its identities alone.
pub open spec fn only_users_changed(old: Marketplace, new: Marketplace) -> bool {
    &&& new.spec_config() == old.spec_config()
    &&& new.spec_datasets() == old.spec_datasets()
    &&& new.spec_disputes() == old.spec_disputes()
}

/// Bootstraps an empty marketplace whose authority is the payer.
pub fn initialize(ctx: &Initialize, fee_basis_points: u16) -> (r: Marketplace)
    ensures
        r.wf(),
        r.spec_config() == crate::init::initialize_spec(*ctx, fee_basis_points),
        r.spec_users().len() == 0,
        r.spec_datasets().len() == 0,
        r.spec_disputes().len() == 0,
{
    Marketplace {
        config: crate::init::initialize(ctx, fee_basis_points),
        users: Vec::new(),
        datasets: Vec::new(),
        disputes: Vec::new(),
    }
}

/// Registers an identity for the signer: a display name of 1 to
/// `MAX_USERNAME_LEN` bytes, score 0, not banned. A principal has at most one.
pub fn register_user(market: &mut Marketplace, ctx: &CreateUser, username: String) -> (r: Result<
    (),
    CustomError,
>)
    requires
        old(market).wf(),
    ensures
        final(market).wf(),
        r == (if !text_within(username@, MAX_USERNAME_LEN) {
            Err(CustomError::InvalidInput)
        } else if has_user(old(market).spec_users(), ctx.authority@) {
            Err(CustomError::AlreadyExists)
        } else {
            Ok::<(), CustomError>(())
        }),
        r is Ok ==> only_users_changed(*old(market), *final(market))
            && final(market).spec_users() == old(market).spec_users().push(
            User { authority: ctx.authority, username, reputation: 0, is_banned: false },
        ),
        r is Err ==> *final(market) == *old(market),
{
    let user = match create_user_handler(ctx, username) {
        Ok(u) => u,
        Err(e) => {
            return Err(e);
        },
    };
    if market.find_user(&ctx.authority).is_some() {
        return Err(CustomError::AlreadyExists);
    }
    let ghost before = market.users@;
    market.users.push(user);
    proof {
        let users = market.users@;
        assert forall|i: int, j: int|
            #![trigger users[i], users[j]]
            0 <= i < users.len() && 0 <= j < users.len() && users[i].authority@
                == users[j].authority@ implies i == j by {
            if i < before.len() && j == before.len() {
                assert(user_at(before, ctx.authority@, i));
            }
            if j < before.len() && i == before.len() {
                assert(user_at(before, ctx.authority@, j));
            }
        }
    }
    Ok(())
}

/// Bans principal `ctx.user`; only the configured authority may.
pub fn ban_user(market: &mut Marketplace, ctx: &BanUser) -> (r: Result<(), CustomError>)
    requires
        old(market).wf(),
    ensures
        final(market).wf(),
        r == (if ctx.authority@ != old(market).spec_config().admin@ {
            Err(CustomError::Unauthorized)
        } else if !has_user(old(market).spec_users(), ctx.user@) {
            Err(CustomError::NotFound)
        } else {
            Ok::<(), CustomError>(())
        }),
        r is Ok ==> only_users_changed(*old(market), *final(market)) && forall|i: int|
            user_at(old(market).spec_users(), ctx.user@, i) ==> final(market).spec_users()
                == old(market).spec_users().update(
                i,
                User { is_banned: true, ..old(market).spec_users()[i] },
            ),
        r is Err ==> *final(market) == *old(market),
{
    if !ctx.authority.same_as(&market.config.admin) {
        return Err(CustomError::Unauthorized);
    }
    let i = match market.find_user(&ctx.user) {
        Some(i) => i,
        None => {
            return Err(CustomError::NotFound);
        },
    };
    let r = ban_user_handler(&mut market.users[i], ctx, &market.config);
    r
}

/// Lifts the ban on principal `ctx.user`; only the configured authority may.
pub fn unban_user(market: &mut Marketplace, ctx: &UnbanUser) -> (r: Result<(), CustomError>)
    requires
        old(market).wf(),
    ensures
        final(market).wf(),
        r == (if ctx.authority@ != old(market).spec_config().admin@ {
            Err(CustomError::Unauthorized)
        } else if !has_user(old(market).spec_users(), ctx.user@) {
            Err(CustomError::NotFound)
        } else {
            Ok::<(), CustomError>(())
        }),
        r is Ok ==> only_users_changed(*old(market), *final(market)) && forall|i: int|
            user_at(old(market).spec_users(), ctx.user@, i) ==> final(market).spec_users()
                == old(market).spec_users().update(
                i,
                User { is_banned: false, ..old(market).spec_users()[i] },
            ),
        r is Err ==> *final(market) == *old(market),
{
    if !ctx.authority.same_as(&market.config.admin) {
        return Err(CustomError::Unauthorized);
    }
    let i = match market.find_user(&ctx.user) {
        Some(i) => i,
        None => {
            return Err(CustomError::NotFound);
        },
    };
    let r = unban_user_handler(&mut market.users[i], ctx, &market.config);
    r
}

/// Adds `delta` to the reputation of principal `ctx.user`, clamping at the
/// bounds of `i32`; only the configured authority may. Returns the new score.
pub fn update_honor(market: &mut Marketplace, ctx: &AdjustReputation, delta: i32) -> (r: Result<
    i32,
    CustomError,
>)
    requires
        old(market).wf(),
    ensures
        final(market).wf(),
        ctx.authority@ != old(market).spec_config().admin@ ==> r == Err::<i32, CustomError>(
            CustomError::Unauthorized,
        ),
        ctx.authority@ == old(market).spec_config().admin@ && !has_user(
            old(market).spec_users(),
            ctx.user@,
        ) ==> r == Err::<i32, CustomError>(CustomError::NotFound),
        ctx.authority@ == old(market).spec_config().admin@ ==> forall|i: int|
            user_at(old(market).spec_users(), ctx.user@, i) ==> {
                let score = saturate_i32(old(market).spec_users()[i].reputation + delta);
                &&& r == Ok::<i32, CustomError>(score)
                &&& final(market).spec_users() == old(market).spec_users().update(
                    i,
                    User { reputation: score, ..old(market).spec_users()[i] },
                )
            },
        r is Ok ==> only_users_changed(*old(market), *final(market)),
        r is Err ==> *final(market) == *old(market),
{
    if !ctx.authority.same_as(&market.config.admin) {
        return Err(CustomError::Unauthorized);
    }
    let i = match market.find_user(&ctx.user) {
        Some(i) => i,
        None => {
            return Err(CustomError::NotFound);
        },
    };
    let r = adjust_reputation_handler(&mut market.users[i], ctx, &market.config, delta);
    r
}

/// Lists a dataset for the signer, at the address `(signer, ipfs_hash)`.
/// The signer needs an identity that is not banned; the content reference
/// holds 1 to `MAX_IPFS_HASH_LEN` bytes; any price is accepted.
pub fn create_dataset(
    market: &mut Marketplace,
    ctx: &CreateDataset,
    ipfs_hash: String,
    price: u64,
) -> (r: Result<(), CustomError>)
    requires
        old(market).wf(),
    ensures
        final(market).wf(),
        r == (if !has_user(old(market).spec_users(), ctx.authority@) {
            Err(CustomError::NotFound)
        } else if is_banned_user(old(market).spec_users(), ctx.authority@) {
            Err(CustomError::Unauthorized)
        } else if !text_within(ipfs_hash@, MAX_IPFS_HASH_LEN) {
            Err(CustomError::InvalidInput)
        } else if has_dataset(old(market).spec_datasets(), ctx.authority@, ipfs_hash@) {
            Err(CustomError::AlreadyExists)
        } else {
            Ok::<(), CustomError>(())
        }),
        r is Ok ==> only_datasets_changed(*old(market), *final(market))
            && final(market).spec_datasets() == old(market).spec_datasets().push(
            Dataset { owner: ctx.authority, price, ipfs_hash, is_active: true },
        ),
        r is Err ==> *final(market) == *old(market),
{
    let u = match market.find_user(&ctx.authority) {
        Some(u) => u,
        None => {
            return Err(CustomError::NotFound);
        },
    };
    let dataset = match create_dataset_handler(ctx, &market.users[u], ipfs_hash, price) {
        Ok(d) => d,
        Err(e) => {
            return Err(e);
        },
    };
    if market.find_dataset(&dataset.owner, &dataset.ipfs_hash).is_some() {
        return Err(CustomError::AlreadyExists);
    }
    let ghost before = market.datasets@;
    let ghost key_owner = dataset.owner@;
    let ghost key_hash = dataset.ipfs_hash@;
    market.datasets.push(dataset);
    proof {
        let ds = market.datasets@;
        let dps = market.disputes@;
        assert forall|i: int, j: int|
            #![trigger ds[i], ds[j]]
            0 <= i < ds.len() && 0 <= j < ds.len() && ds[i].owner@ == ds[j].owner@
                && ds[i].ipfs_hash@ == ds[j].ipfs_hash@ implies i == j by {
            if i < before.len() && j == before.len() {
                assert(dataset_at(before, key_owner, key_hash, i));
            }
            if j < before.len() && i == before.len() {
                assert(dataset_at(before, key_owner, key_hash, j));
            }
        }
        assert forall|k: int|
            #![trigger dps[k]]
            0 <= k < dps.len() implies has_dataset(
                ds,
                dps[k].dataset.owner@,
                dps[k].dataset.ipfs_hash@,
            ) by {
            let j = choose|j: int|
                dataset_at(before, dps[k].dataset.owner@, dps[k].dataset.ipfs_hash@, j);
            assert(dataset_at(ds, dps[k].dataset.owner@, dps[k].dataset.ipfs_hash@, j));
        }
        assert forall|k: int, j: int|
            #![trigger dps[k], ds[j]]
            0 <= k < dps.len() && 0 <= j < ds.len() && dps[k].dataset.addresses(
                ds[j],
            ) implies !ds[j].is_active by {
            if j == before.len() {
                let w = choose|w: int|
                    dataset_at(before, dps[k].dataset.owner@, dps[k].dataset.ipfs_hash@, w);
                assert(dataset_at(before, key_owner, key_hash, w));
            }
        }
    }
    Ok(())
}

/// Buys the listing at `ctx.dataset`: it must be for sale and the seller
/// must own it. The price splits into the seller's part and the fee; the
/// listing is retired; the receipt names the two transfers to make.
pub fn buy_dataset(market: &mut Marketplace, ctx: &BuyDataset) -> (r: Result<Receipt, CustomError>)
    requires
        old(market).wf(),
    ensures
        final(market).wf(),
        buy_post(*old(market), *final(market), *ctx, r),
{
    let i = match market.find_dataset(&ctx.dataset.owner, &ctx.dataset.ipfs_hash) {
        Some(i) => i,
        None => {
            return Err(CustomError::NotFound);
        },
    };
    let ghost before = *market;
    let r = buy_dataset_handler(&mut market.datasets[i], ctx, &market.config);
    proof {
        let ds0 = before.spec_datasets();
        assert forall|j: int|
            dataset_at(ds0, ctx.dataset.owner@, ctx.dataset.ipfs_hash@, j) implies j == i by {
            assert(ds0[j].owner@ == ds0[i as int].owner@);
        }
        let ds = market.datasets@;
        let dps = market.disputes@;
        assert forall|k: int|
            #![trigger dps[k]]
            0 <= k < dps.len() implies has_dataset(
                ds,
                dps[k].dataset.owner@,
                dps[k].dataset.ipfs_hash@,
            ) by {
            let j = choose|j: int|
                dataset_at(ds0, dps[k].dataset.owner@, dps[k].dataset.ipfs_hash@, j);
            assert(dataset_at(ds, dps[k].dataset.owner@, dps[k].dataset.ipfs_hash@, j));
        }
        assert forall|k: int, j: int|
            #![trigger dps[k], ds[j]]
            0 <= k < dps.len() && 0 <= j < ds.len() && dps[k].dataset.addresses(
                ds[j],
            ) implies !ds[j].is_active by {
            assert(dps[k].dataset.addresses(ds0[j]));
        }
        assert forall|a: int, b: int|
            #![trigger ds[a], ds[b]]
            0 <= a < ds.len() && 0 <= b < ds.len() && ds[a].owner@ == ds[b].owner@
                && ds[a].ipfs_hash@ == ds[b].ipfs_hash@ implies a == b by {
            assert(ds0[a].owner@ == ds0[b].owner@);
        }
        if r is Err {
            assert(ds =~= ds0);
        }
    }
    r
}

/// Files a dispute against the sold listing at `ctx.dataset`, stamped
/// `now`. The challenger needs an identity that is not banned, the reason
/// holds 1 to `MAX_REASON_LEN` bytes, and a challenger files at most one
/// dispute per listing.
pub fn open_dispute(market: &mut Marketplace, ctx: FileDispute, reason: String, now: i64) -> (r:
    Result<(), CustomError>)
    requires
        old(market).wf(),
    ensures
        final(market).wf(),
        r == (if !has_dataset(
            old(market).spec_datasets(),
            ctx.dataset.owner@,
            ctx.dataset.ipfs_hash@,
        ) {
            Err(CustomError::NotFound)
        } else if !has_user(old(market).spec_users(), ctx.challenger@) {
            Err(CustomError::NotFound)
        } else if is_active_dataset(
            old(market).spec_datasets(),
            ctx.dataset.owner@,
            ctx.dataset.ipfs_hash@,
        ) {
            Err(CustomError::ListingStillActive)
        } else if is_banned_user(old(market).spec_users(), ctx.challenger@) {
            Err(CustomError::Unauthorized)
        } else if !text_within(reason@, MAX_REASON_LEN) {
            Err(CustomError::InvalidInput)
        } else if has_dispute(
            old(market).spec_disputes(),
            DisputeKey { dataset: ctx.dataset, challenger: ctx.challenger },
        ) {
            Err(CustomError::AlreadyExists)
        } else {
            Ok::<(), CustomError>(())
        }),
        r is Ok ==> {
            let dps = final(market).spec_disputes();
            &&& only_disputes_changed(*old(market), *final(market))
            &&& dps.len() == old(market).spec_disputes().len() + 1
            &&& dps.drop_last() == old(market).spec_disputes()
            &&& fresh_dispute(dps.last(), ctx, reason, now)
        },
        r is Err ==> *final(market) == *old(market),
{
    let i = match market.find_dataset(&ctx.dataset.owner, &ctx.dataset.ipfs_hash) {
        Some(i) => i,
        None => {
            return Err(CustomError::NotFound);
        },
    };
    let u = match market.find_user(&ctx.challenger) {
        Some(u) => u,
        None => {
            return Err(CustomError::NotFound);
        },
    };
    let ghost ctx0 = ctx;
    let ghost reason0 = reason;
    let dispute = match file_dispute_handler(
        ctx,
        &market.datasets[i],
        &market.users[u],
        reason,
        now,
    ) {
        Ok(d) => d,
        Err(e) => {
            return Err(e);
        },
    };
    if market.find_dispute(&dispute.dataset, &dispute.challenger).is_some() {
        return Err(CustomError::AlreadyExists);
    }
    let ghost before = market.disputes@;
    market.disputes.push(dispute);
    proof {
        let ds = market.datasets@;
        let dps = market.disputes@;
        let key = DisputeKey { dataset: ctx0.dataset, challenger: ctx0.challenger };
        assert(dps.drop_last() =~= before);
        assert forall|a: int, b: int|
            #![trigger dps[a], dps[b]]
            0 <= a < dps.len() && 0 <= b < dps.len() && dps[a].dataset.same(dps[b].dataset)
                && dps[a].challenger@ == dps[b].challenger@ implies a == b by {
            if a < before.len() && b == before.len() {
                assert(dispute_at(before, key, a));
            }
            if b < before.len() && a == before.len() {
                assert(dispute_at(before, key, b));
            }
        }
        assert forall|k: int|
            #![trigger dps[k]]
            0 <= k < dps.len() implies has_dataset(
                ds,
                dps[k].dataset.owner@,
                dps[k].dataset.ipfs_hash@,
            ) by {
            if k == before.len() {
                assert(dataset_at(ds, dps[k].dataset.owner@, dps[k].dataset.ipfs_hash@, i as int));
            } else {
                assert(dps[k] == before[k]);
            }
        }
        assert forall|k: int, j: int|
            #![trigger dps[k], ds[j]]
            0 <= k < dps.len() && 0 <= j < ds.len() && dps[k].dataset.addresses(
                ds[j],
            ) implies !ds[j].is_active by {
            if k == before.len() {
                assert(ds[j].owner@ == ds[i as int].owner@);
            } else {
                assert(dps[k] == before[k]);
            }
        }
    }
    Ok(())
}

/// Resolves the dispute at `ctx.dispute` with `verdict`, stamped `now`;
/// only the configured authority may, and only once. When the challenger is
/// upheld, the disputed listing is retired, which it already is.
pub fn resolve_dispute(
    market: &mut Marketplace,
    ctx: &ResolveDispute,
    verdict: bool,
    now: i64,
) -> (r: Result<(), CustomError>)
    requires
        old(market).wf(),
    ensures
        final(market).wf(),
        resolve_post(*old(market), *final(market), *ctx, verdict, now, r),
        r is Ok ==> forall|j: int|
            0 <= j < final(market).spec_datasets().len() && ctx.dispute.dataset.addresses(
                #[trigger] final(market).spec_datasets()[j],
            ) ==> !final(market).spec_datasets()[j].is_active,
{
    if !ctx.resolver.same_as(&market.config.admin) {
        return Err(CustomError::Unauthorized);
    }
    let i = match market.find_dispute(&ctx.dispute.dataset, &ctx.dispute.challenger) {
        Some(i) => i,
        None => {
            return Err(CustomError::NotFound);
        },
    };
    let ghost before = *market;
    proof {
        let d = market.disputes@[i as int];
        assert(has_dataset(market.datasets@, d.dataset.owner@, d.dataset.ipfs_hash@));
    }
    let j = match market.find_dataset(
        &market.disputes[i].dataset.owner,
        &market.disputes[i].dataset.ipfs_hash,
    ) {
        Some(j) => j,
        None => {
            return Err(CustomError::NotFound);
        },
    };
    let r = resolve_dispute_handler(
        &mut market.disputes[i],
        &mut market.datasets[j],
        ctx,
        &market.config,
        verdict,
        now,
    );
    proof {
        let ds0 = before.spec_datasets();
        let dps0 = before.spec_disputes();
        let ds = market.datasets@;
        let dps = market.disputes@;
        assert(!ds0[j as int].is_active);
        assert(ds =~= ds0);
        assert forall|k: int| dispute_at(dps0, ctx.dispute, k) implies k == i by {
            assert(dps0[k].challenger@ == dps0[i as int].challenger@);
        }
        if r is Err {
            assert(dps =~= dps0);
        }
        assert forall|a: int, b: int|
            #![trigger dps[a], dps[b]]
            0 <= a < dps.len() && 0 <= b < dps.len() && dps[a].dataset.same(dps[b].dataset)
                && dps[a].challenger@ == dps[b].challenger@ implies a == b by {
            assert(dps0[a].challenger@ == dps0[b].challenger@);
        }
        assert forall|k: int|
            #![trigger dps[k]]
            0 <= k < dps.len() implies has_dataset(
                ds,
                dps[k].dataset.owner@,
                dps[k].dataset.ipfs_hash@,
            ) by {
            assert(dps0[k].dataset == dps[k].dataset);
        }
        assert forall|k: int, b: int|
            #![trigger dps[k], ds[b]]
            0 <= k < dps.len() && 0 <= b < ds.len() && dps[k].dataset.addresses(
                ds[b],
            ) implies !ds[b].is_active by {
            assert(dps0[k].dataset == dps[k].dataset);
        }
        assert forall|b: int|
            0 <= b < ds.len() && ctx.dispute.dataset.addresses(#[trigger] ds[b]) implies !ds[
                b
            ].is_active by {
            assert(dps0[i as int].dataset.addresses(ds0[b]));
        }
    }
    r
}

/// Once a purchase of a listing succeeds, every later purchase of the same
/// listing fails with `ListingInactive` and changes nothing, so no second
/// pair of transfers is ever asked for.
pub proof fn lemma_purchase_retires_listing(
    m0: Marketplace,
    m1: Marketplace,
    m2: Marketplace,
    first: BuyDataset,
    r1: Result<Receipt, CustomError>,
    second: BuyDataset,
    r2: Result<Receipt, CustomError>,
)
    requires
        m0.wf(),
        buy_post(m0, m1, first, r1),
        r1 is Ok,
        second.dataset.same(first.dataset),
        buy_post(m1, m2, second, r2),
    ensures
        r2 == Err::<Receipt, CustomError>(CustomError::ListingInactive),
        unchanged(m1, m2),
{
    let ds0 = m0.spec_datasets();
    let i = choose|i: int| dataset_at(ds0, first.dataset.owner@, first.dataset.ipfs_hash@, i);
    let ds1 = m1.spec_datasets();
    assert(dataset_at(ds1, second.dataset.owner@, second.dataset.ipfs_hash@, i));
    assert forall|j: int|
        dataset_at(ds1, second.dataset.owner@, second.dataset.ipfs_hash@, j) implies j == i by {
        assert(ds0[j].owner@ == ds0[i].owner@);
    }
}

/// A dispute is resolved at most once: after a successful resolution, any
/// later resolution of the same dispute fails and changes nothing (its
/// verdict and resolution time stay); asked by the authority it fails with
/// `DisputeAlreadyResolved`.
pub proof fn lemma_resolve_at_most_once(
    m0: Marketplace,
    m1: Marketplace,
    m2: Marketplace,
    first: ResolveDispute,
    verdict1: bool,
    now1: i64,
    r1: Result<(), CustomError>,
    second: ResolveDispute,
    verdict2: bool,
    now2: i64,
    r2: Result<(), CustomError>,
)
    requires
        m0.wf(),
        resolve_post(m0, m1, first, verdict1, now1, r1),
        r1 is Ok,
        second.dispute.same(first.dispute),
        resolve_post(m1, m2, second, verdict2, now2, r2),
    ensures
        r2 is Err,
        second.resolver@ == m1.spec_config().admin@ ==> r2 == Err::<(), CustomError>(
            CustomError::DisputeAlreadyResolved,
        ),
        unchanged(m1, m2),
{
    let dps0 = m0.spec_disputes();
    let i = choose|i: int| dispute_at(dps0, first.dispute, i);
    let dps1 = m1.spec_disputes();
    assert(dispute_at(dps1, second.dispute, i));
    assert forall|j: int| dispute_at(dps1, second.dispute, j) implies j == i by {
        assert(dps0[j].challenger@ == dps0[i].challenger@);
    }
}

} // verus!
