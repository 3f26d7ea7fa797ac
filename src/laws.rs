use vstd::prelude::*;
use crate::address::Address;
use crate::digest::sha256_of;
use crate::escrow::{
    claim_outcome, create_outcome, fresh_escrow, lookup, refund_outcome, resolved, Escrow,
    EscrowError, Event,
};

verus! {

/// A successful creation is read back at once: the record of the identifier
/// holds every input, unresolved.
pub proof fn law_create_then_get(
    records: Map<Seq<u8>, Escrow>,
    balances: Map<(Address, Address), i128>,
    me: Address,
    signers: Seq<Address>,
    sender: Address,
    id: Seq<u8>,
    asset: Address,
    pin_hash: [u8; 32],
    amount: i128,
    expiry: u64,
)
    requires
        create_outcome(records, balances, me, signers, sender, id, asset, amount, expiry) is Ok,
    ensures
        lookup(records.insert(id, fresh_escrow(sender, asset, amount, pin_hash, expiry)), id)
            == Some(Escrow { sender, asset, amount, pin_hash, expiry, claimed: false }),
{
}

/// Once an identifier has been created, every later creation under it fails,
/// whatever its other inputs and whatever the balances then.
pub proof fn law_duplicate_create_fails(
    records: Map<Seq<u8>, Escrow>,
    balances: Map<(Address, Address), i128>,
    me: Address,
    signers: Seq<Address>,
    sender: Address,
    id: Seq<u8>,
    asset: Address,
    pin_hash: [u8; 32],
    amount: i128,
    expiry: u64,
    later_balances: Map<(Address, Address), i128>,
    later_signers: Seq<Address>,
    later_sender: Address,
    later_asset: Address,
    later_amount: i128,
    later_expiry: u64,
)
    requires
        create_outcome(records, balances, me, signers, sender, id, asset, amount, expiry) is Ok,
    ensures
        create_outcome(
            records.insert(id, fresh_escrow(sender, asset, amount, pin_hash, expiry)),
            later_balances,
            me,
            later_signers,
            later_sender,
            id,
            later_asset,
            later_amount,
            later_expiry,
        ) is Err,
{
}

/// A claim with a preimage whose digest is not the record's `pin_hash` fails
/// (and a failed claim changes nothing, so the record stays unresolved).
pub proof fn law_wrong_preimage_fails(
    records: Map<Seq<u8>, Escrow>,
    balances: Map<(Address, Address), i128>,
    me: Address,
    signers: Seq<Address>,
    claimant: Address,
    id: Seq<u8>,
    preimage: Seq<u8>,
)
    requires
        records.contains_key(id),
        sha256_of(preimage) != records[id].pin_hash@,
    ensures
        claim_outcome(records, balances, me, signers, claimant, id, sha256_of(preimage)) is Err,
{
}

/// After a successful claim, every authorized claim of the same identifier
/// fails with `AlreadyResolved`, and so does every authorized refund at or
/// after the expiry.
pub proof fn law_claim_succeeds_once(
    records: Map<Seq<u8>, Escrow>,
    balances: Map<(Address, Address), i128>,
    me: Address,
    signers: Seq<Address>,
    claimant: Address,
    id: Seq<u8>,
    digest: Seq<u8>,
    later_balances: Map<(Address, Address), i128>,
    later_signers: Seq<Address>,
    later_claimant: Address,
    later_digest: Seq<u8>,
    refunder: Address,
    now: u64,
)
    requires
        claim_outcome(records, balances, me, signers, claimant, id, digest) is Ok,
    ensures
        later_signers.contains(later_claimant) ==> claim_outcome(
            resolved(records, id),
            later_balances,
            me,
            later_signers,
            later_claimant,
            id,
            later_digest,
        ) == Err::<Event, EscrowError>(EscrowError::AlreadyResolved),
        later_signers.contains(refunder) && now >= records[id].expiry ==> refund_outcome(
            resolved(records, id),
            later_balances,
            me,
            later_signers,
            refunder,
            id,
            now,
        ) == Err::<Event, EscrowError>(EscrowError::AlreadyResolved),
{
}

/// A refund before the expiry fails with `NotYetExpired`, even when the
/// sender authorized it.
pub proof fn law_refund_before_expiry_fails(
    records: Map<Seq<u8>, Escrow>,
    balances: Map<(Address, Address), i128>,
    me: Address,
    signers: Seq<Address>,
    sender: Address,
    id: Seq<u8>,
    now: u64,
)
    requires
        signers.contains(sender),
        records.contains_key(id),
        now < records[id].expiry,
    ensures
        refund_outcome(records, balances, me, signers, sender, id, now)
            == Err::<Event, EscrowError>(EscrowError::NotYetExpired),
{
}

/// A refund asked by anyone but the record's sender fails, even after the
/// expiry.
pub proof fn law_refund_by_other_fails(
    records: Map<Seq<u8>, Escrow>,
    balances: Map<(Address, Address), i128>,
    me: Address,
    signers: Seq<Address>,
    caller: Address,
    id: Seq<u8>,
    now: u64,
)
    requires
        records.contains_key(id),
        caller != records[id].sender,
    ensures
        refund_outcome(records, balances, me, signers, caller, id, now) is Err,
{
}

} // verus!
