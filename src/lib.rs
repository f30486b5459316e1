//! An ownership ledger: owners hold items ("bags"), every bag belongs to
//! exactly one owner, and each owner's list of bags agrees with the bags'
//! owner pointers after every operation.

pub mod codec;
pub mod handlers;
pub mod ledger;
