use vstd::prelude::*;

verus! {

/// A principal's public identity: 32 opaque bytes, compared byte by byte.
#[derive(Clone, Copy, Debug, PartialEq, Eq)]
pub struct Pubkey {
    bytes: [u8; 32],
}

impl View for Pubkey {
    type V = Seq<u8>;

    closed spec fn view(&self) -> Seq<u8> {
        self.bytes@
    }
}

/// The all-zero key, which stands for "nobody" in a record field.
pub open spec fn zero_key() -> Seq<u8> {
    Seq::new(32, |i: int| 0u8)
}

impl Pubkey {
    pub fn new(bytes: [u8; 32]) -> (r: Pubkey)
        ensures
            r@ == bytes@,
    {
        Pubkey { bytes }
    }

    pub fn to_bytes(&self) -> (r: [u8; 32])
        ensures
            r@ == self@,
    {
        self.bytes
    }

    /// The all-zero key.
    pub fn zero() -> (r: Pubkey)
        ensures
            r@ == zero_key(),
    {
        let r = Pubkey { bytes: [0u8; 32] };
        assert(r@ =~= zero_key());
        r
    }

    /// Whether two keys hold the same bytes.
    pub fn same_as(&self, other: &Pubkey) -> (r: bool)
        ensures
            r == (self@ == other@),
    {
        let mut i: usize = 0;
        while i < 32
            invariant
                self@.len() == 32,
                other@.len() == 32,
                i <= 32,
                forall|j: int| 0 <= j < i ==> self@[j] == other@[j],
            decreases 32 - i,
        {
            if self.bytes[i] != other.bytes[i] {
                return false;
            }
            i = i + 1;
        }
        assert(self@ =~= other@);
        true
    }
}

/// Identity record of a principal, addressed by its `authority` key.
#[derive(Clone, Debug)]
pub struct User {
    /// The controlling principal.
    pub authority: Pubkey,
    /// Display name, 1 to `MAX_USERNAME_LEN` bytes.
    pub username: String,
    /// Reputation score; it saturates instead of wrapping.
    pub reputation: i32,
    /// A banned identity cannot create listings or file disputes.
    pub is_banned: bool,
}

/// The derived address of a listing: its owner and its content reference.
#[derive(Clone, Debug)]
pub struct DatasetKey {
    pub owner: Pubkey,
    pub ipfs_hash: String,
}

/// A dataset listing, addressed by `(owner, ipfs_hash)`.
#[derive(Clone, Debug)]
pub struct Dataset {
    /// Who listed the data.
    pub owner: Pubkey,
    /// Price in the ledger's smallest unit.
    pub price: u64,
    /// Reference to the encrypted content, 1 to `MAX_IPFS_HASH_LEN` bytes.
    pub ipfs_hash: String,
    /// For sale (true) or sold/retired (false); never goes back to true.
    pub is_active: bool,
}

/// Where a dispute stands: it moves from `Pending` to `Resolved` once.
#[derive(Clone, Copy, Debug, PartialEq, Eq, Structural)]
pub enum DisputeStatus {
    Pending,
    Resolved,
}

/// The derived address of a dispute: the disputed listing and the challenger.
#[derive(Clone, Debug)]
pub struct DisputeKey {
    pub dataset: DatasetKey,
    pub challenger: Pubkey,
}

/// A challenge against a sold listing, addressed by `(dataset, challenger)`.
#[derive(Clone, Debug)]
pub struct Dispute {
    /// The listing under dispute.
    pub dataset: DatasetKey,
    /// Who filed the dispute.
    pub challenger: Pubkey,
    /// Reason text, 1 to `MAX_REASON_LEN` bytes.
    pub reason: String,
    /// When it was filed.
    pub created_at: i64,
    pub status: DisputeStatus,
    /// The verdict once resolved: true when the challenger is upheld.
    pub result: bool,
    /// The authority that resolved it; the zero key while pending.
    pub resolver: Pubkey,
    /// When it was resolved; 0 while pending.
    pub resolved_at: i64,
}

impl DatasetKey {
    /// Whether the key addresses the listing `d`.
    pub open spec fn addresses(&self, d: Dataset) -> bool {
        self.owner@ == d.owner@ && self.ipfs_hash@ == d.ipfs_hash@
    }

    /// Whether two keys name the same address.
    pub open spec fn same(&self, other: DatasetKey) -> bool {
        self.owner@ == other.owner@ && self.ipfs_hash@ == other.ipfs_hash@
    }

    /// Whether the key addresses the listing `d`.
    pub fn matches(&self, d: &Dataset) -> (r: bool)
        ensures
            r == self.addresses(*d),
    {
        self.owner.same_as(&d.owner) && self.ipfs_hash == d.ipfs_hash
    }

    pub fn equals(&self, other: &DatasetKey) -> (r: bool)
        ensures
            r == self.same(*other),
    {
        self.owner.same_as(&other.owner) && self.ipfs_hash == other.ipfs_hash
    }
}

impl DisputeKey {
    /// Whether the key addresses the dispute `d`.
    pub open spec fn addresses(&self, d: Dispute) -> bool {
        self.dataset.same(d.dataset) && self.challenger@ == d.challenger@
    }

    /// Whether two keys name the same address.
    pub open spec fn same(&self, other: DisputeKey) -> bool {
        self.dataset.same(other.dataset) && self.challenger@ == other.challenger@
    }
}

} // verus!
