//! A peer-to-peer data marketplace core: identities, dataset listings, the
//! fee-splitting purchase, disputes and reputation, over a keyed record store.
//!
//! Each instruction reads the records it names, validates, and then writes;
//! a refused instruction leaves every record as it was. Moving value and
//! reading the clock belong to the ledger that runs the instructions: a
//! purchase hands back the transfers to make, and timestamps come in as
//! arguments.
pub mod buy;
pub mod dataset;
pub mod dispute;
pub mod error;
pub mod honor;
pub mod init;
pub mod market;
pub mod state;
pub mod user;
pub mod validation;

pub use market::{
    ban_user, buy_dataset, create_dataset, initialize, open_dispute, register_user,
    resolve_dispute, unban_user, update_honor, Marketplace,
};
