//! Hash-time-locked escrow: a sender locks an amount of an asset under the
//! digest of a secret and an expiry; whoever shows the secret before the
//! expiry takes the funds, and after it the sender may take them back.

mod address;
mod digest;
mod escrow;
mod laws;
mod ledger;
mod registry;

pub use address::{is_authorized, same_address, Address, AddressKind};
pub use digest::{same_digest, sha256_of};
pub use ledger::{balance_in, transfer_error, transferred, Holding, Ledger, TransferError};
pub use registry::{copy_bytes, locked_in, same_bytes, share};
pub use escrow::{
    claim_outcome, create_outcome, fresh_escrow, lookup, refund_outcome, resolved, Escrow,
    EscrowContract, EscrowError, Event,
};
pub use laws::{
    law_claim_succeeds_once, law_create_then_get, law_duplicate_create_fails,
    law_refund_before_expiry_fails, law_refund_by_other_fails, law_wrong_preimage_fails,
};




