use vstd::prelude::*;
use soroban_sdk::Env;
use crate::address::{is_authorized, same_address, Address};
use crate::digest::{same_digest, sha256, sha256_of};
use crate::ledger::{balance_in, transfer_error, transferred, Ledger, TransferError};
use crate::registry::{copy_bytes, Registry};

verus! {

/// One escrow: what was locked, by whom, under which digest and until when.
#[derive(Clone, Copy, Debug, PartialEq, Eq)]
pub struct Escrow {
    pub sender: Address,
    pub asset: Address,
    pub amount: i128,
    pub pin_hash: [u8; 32],
    pub expiry: u64,
    pub claimed: bool,
}

/// Why an operation on the escrow was refused.
#[derive(Clone, Copy, Debug, PartialEq, Eq, Structural)]
pub enum EscrowError {
    /// The acting identity did not authorize the invocation.
    Unauthorized,
    /// A record already exists under the payment identifier.
    DuplicateIdentifier,
    /// No record exists under the payment identifier.
    NotFound,
    /// The record's funds have already left escrow.
    AlreadyResolved,
    /// The digest of the preimage differs from the record's `pin_hash`.
    InvalidPreimage,
    /// The ledger time is before the record's expiry.
    NotYetExpired,
    /// The refund was asked by someone other than the record's sender.
    WrongSender,
    /// The asset ledger refused the transfer.
    Transfer(TransferError),
}

/// What a successful operation reports, for the invocation to publish
/// under the payment identifier.
#[derive(Clone, Copy, Debug, PartialEq, Eq)]
pub enum Event {
    EscrowCreated { sender: Address, asset: Address, amount: i128, expiry: u64 },
    EscrowClaimed { claimant: Address },
    EscrowRefunded,
}

/// The record that a creation stores.
pub open spec fn fresh_escrow(
    sender: Address,
    asset: Address,
    amount: i128,
    pin_hash: [u8; 32],
    expiry: u64,
) -> Escrow {
    Escrow { sender, asset, amount, pin_hash, expiry, claimed: false }
}

/// The record of `id` among `records`, if there is one.
pub open spec fn lookup(records: Map<Seq<u8>, Escrow>, id: Seq<u8>) -> Option<Escrow> {
    if records.contains_key(id) {
        Some(records[id])
    } else {
        None
    }
}

/// The records after the record of `id` was resolved.
pub open spec fn resolved(records: Map<Seq<u8>, Escrow>, id: Seq<u8>) -> Map<Seq<u8>, Escrow> {
    records.insert(id, Escrow { claimed: true, ..records[id] })
}

/// What a creation returns, checked in this order: the sender's
/// authorization, a free identifier, then the transfer of `amount` from the
/// sender into the custody of `me`.
pub open spec fn create_outcome(
    records: Map<Seq<u8>, Escrow>,
    balances: Map<(Address, Address), i128>,
    me: Address,
    signers: Seq<Address>,
    sender: Address,
    id: Seq<u8>,
    asset: Address,
    amount: i128,
    expiry: u64,
) -> Result<Event, EscrowError> {
    if !signers.contains(sender) {
        Err(EscrowError::Unauthorized)
    } else if records.contains_key(id) {
        Err(EscrowError::DuplicateIdentifier)
    } else {
        match transfer_error(balances, asset, sender, me, amount) {
            Some(e) => Err(EscrowError::Transfer(e)),
            None => Ok(Event::EscrowCreated { sender, asset, amount, expiry }),
        }
    }
}

/// What a claim returns, checked in this order: the claimant's
/// authorization, an existing record, an unresolved record, the digest of the
/// preimage equal to `pin_hash`, then the transfer of the record's amount from
/// the custody of `me` to the claimant.
pub open spec fn claim_outcome(
    records: Map<Seq<u8>, Escrow>,
    balances: Map<(Address, Address), i128>,
    me: Address,
    signers: Seq<Address>,
    claimant: Address,
    id: Seq<u8>,
    digest: Seq<u8>,
) -> Result<Event, EscrowError> {
    if !signers.contains(claimant) {
        Err(EscrowError::Unauthorized)
    } else if !records.contains_key(id) {
        Err(EscrowError::NotFound)
    } else if records[id].claimed {
        Err(EscrowError::AlreadyResolved)
    } else if digest != records[id].pin_hash@ {
        Err(EscrowError::InvalidPreimage)
    } else {
        match transfer_error(balances, records[id].asset, me, claimant, records[id].amount) {
            Some(e) => Err(EscrowError::Transfer(e)),
            None => Ok(Event::EscrowClaimed { claimant }),
        }
    }
}

/// What a refund at ledger time `now` returns, checked in this order: the
/// caller's authorization, an existing record, the expiry reached, an
/// unresolved record, the caller being the record's sender, then the transfer
/// of the record's amount from the custody of `me` back to the sender.
pub open spec fn refund_outcome(
    records: Map<Seq<u8>, Escrow>,
    balances: Map<(Address, Address), i128>,
    me: Address,
    signers: Seq<Address>,
    sender: Address,
    id: Seq<u8>,
    now: u64,
) -> Result<Event, EscrowError> {
    if !signers.contains(sender) {
        Err(EscrowError::Unauthorized)
    } else if !records.contains_key(id) {
        Err(EscrowError::NotFound)
    } else if now < records[id].expiry {
        Err(EscrowError::NotYetExpired)
    } else if records[id].claimed {
        Err(EscrowError::AlreadyResolved)
    } else if sender != records[id].sender {
        Err(EscrowError::WrongSender)
    } else {
        match transfer_error(balances, records[id].asset, me, sender, records[id].amount) {
            Some(e) => Err(EscrowError::Transfer(e)),
            None => Ok(Event::EscrowRefunded),
        }
    }
}

/// The escrow service: the address that holds the escrowed funds, and the
/// registry of escrows by payment identifier.
pub struct EscrowContract {
    address: Address,
    registry: Registry,
}

impl View for EscrowContract {
    type V = Map<Seq<u8>, Escrow>;

    closed spec fn view(&self) -> Map<Seq<u8>, Escrow> {
        self.registry@
    }
}

impl EscrowContract {
    pub closed spec fn wf(&self) -> bool {
        self.registry.wf()
    }

    /// The address that holds the escrowed funds.
    pub closed spec fn custody(&self) -> Address {
        self.address
    }

    /// The sum of `amount` over the unresolved records of `asset`.
    pub closed spec fn locked(&self, asset: Address) -> int {
        self.registry.locked(asset)
    }

    /// Conservation: for every asset, the balance that the contract's address
    /// holds is the sum of `amount` over the unresolved records of that asset.
    pub open spec fn conserved(&self, balances: Map<(Address, Address), i128>) -> bool {
        forall|a: Address| #[trigger] balance_in(balances, a, self.custody()) == self.locked(a)
    }

    /// A contract at `address` with no escrow.
    pub fn new(address: Address) -> (r: EscrowContract)
        ensures
            r.wf(),
            r.custody() == address,
            r@ == Map::<Seq<u8>, Escrow>::empty(),
            forall|a: Address| #[trigger] r.locked(a) == 0,
    {
        EscrowContract { address, registry: Registry::new() }
    }

    /// The address that holds the escrowed funds.
    pub fn address(&self) -> (r: Address)
        ensures
            r == self.custody(),
    {
        self.address
    }

    /// Locks `amount` of `asset` from `sender` under `pin_hash_input` until
    /// `expiry`, as the escrow `payment_id`. On success the record is stored
    /// unresolved and the amount has moved into the contract's custody; on
    /// failure nothing changed. The record is written only once the transfer
    /// has gone through, so a refused transfer leaves no record behind.
    pub fn create_escrow(
        &mut self,
        ledger: &mut Ledger,
        signers: &Vec<Address>,
        sender: Address,
        payment_id: Vec<u8>,
        asset: Address,
        pin_hash_input: [u8; 32],
        amount: i128,
        expiry: u64,
    ) -> (r: Result<Event, EscrowError>)
        requires
            old(self).wf(),
            old(ledger).wf(),
        ensures
            final(self).wf(),
            final(ledger).wf(),
            final(self).custody() == old(self).custody(),
            r == create_outcome(
                old(self)@,
                old(ledger)@,
                old(self).custody(),
                signers@,
                sender,
                payment_id@,
                asset,
                amount,
                expiry,
            ),
            r is Ok ==> final(self)@ == old(self)@.insert(
                payment_id@,
                fresh_escrow(sender, asset, amount, pin_hash_input, expiry),
            ) && final(ledger)@ == transferred(
                old(ledger)@,
                asset,
                sender,
                old(self).custody(),
                amount,
            ),
            r is Err ==> final(self)@ == old(self)@ && final(ledger)@ == old(ledger)@,
            old(self).conserved(old(ledger)@) && sender != old(self).custody()
                ==> final(self).conserved(final(ledger)@),
    {
        if !is_authorized(signers, &sender) {
            return Err(EscrowError::Unauthorized);
        }
        if self.registry.has(&payment_id) {
            return Err(EscrowError::DuplicateIdentifier);
        }
        let escrow = Escrow {
            sender,
            asset,
            amount,
            pin_hash: pin_hash_input,
            expiry,
            claimed: false,
        };
        match ledger.transfer(&asset, &sender, &self.address, amount) {
            Ok(()) => {},
            Err(e) => {
                return Err(EscrowError::Transfer(e));
            },
        }
        let ghost me = self.address;
        self.registry.put(payment_id, escrow);
        proof {
            if old(self).conserved(old(ledger)@) && sender != me {
                assert forall|a: Address|
                    #[trigger] balance_in(ledger@, a, me) == self.locked(a) by {
                    assert(balance_in(old(ledger)@, a, me) == old(self).locked(a));
                }
            }
        }
        Ok(Event::EscrowCreated { sender, asset, amount, expiry })
    }

    /// The record of `payment_id`, if there is one, in whatever state.
    pub fn get_escrow(&self, payment_id: &Vec<u8>) -> (r: Option<Escrow>)
        requires
            self.wf(),
        ensures
            r == lookup(self@, payment_id@),
    {
        self.registry.get(payment_id)
    }

    /// Resolves the escrow `payment_id` for `claimant`, given the digest of
    /// the preimage the claimant presented. On success the record is resolved
    /// and its amount has moved from custody to the claimant; on failure
    /// nothing changed.
    pub fn claim_with_digest(
        &mut self,
        ledger: &mut Ledger,
        signers: &Vec<Address>,
        claimant: Address,
        payment_id: &Vec<u8>,
        digest: &[u8; 32],
    ) -> (r: Result<Event, EscrowError>)
        requires
            old(self).wf(),
            old(ledger).wf(),
        ensures
            final(self).wf(),
            final(ledger).wf(),
            final(self).custody() == old(self).custody(),
            r == claim_outcome(
                old(self)@,
                old(ledger)@,
                old(self).custody(),
                signers@,
                claimant,
                payment_id@,
                digest@,
            ),
            r is Ok ==> final(self)@ == resolved(old(self)@, payment_id@) && final(ledger)@
                == transferred(
                old(ledger)@,
                old(self)@[payment_id@].asset,
                old(self).custody(),
                claimant,
                old(self)@[payment_id@].amount,
            ),
            r is Err ==> final(self)@ == old(self)@ && final(ledger)@ == old(ledger)@,
            old(self).conserved(old(ledger)@) && claimant != old(self).custody()
                ==> final(self).conserved(final(ledger)@),
    {
        if !is_authorized(signers, &claimant) {
            return Err(EscrowError::Unauthorized);
        }
        let mut escrow = match self.registry.get(payment_id) {
            Some(e) => e,
            None => {
                return Err(EscrowError::NotFound);
            },
        };
        if escrow.claimed {
            return Err(EscrowError::AlreadyResolved);
        }
        if !same_digest(digest, &escrow.pin_hash) {
            return Err(EscrowError::InvalidPreimage);
        }
        match ledger.transfer(&escrow.asset, &self.address, &claimant, escrow.amount) {
            Ok(()) => {},
            Err(e) => {
                return Err(EscrowError::Transfer(e));
            },
        }
        escrow.claimed = true;
        let ghost me = self.address;
        self.registry.put(copy_bytes(payment_id), escrow);
        proof {
            assert(self@ =~= resolved(old(self)@, payment_id@));
            if old(self).conserved(old(ledger)@) && claimant != me {
                assert forall|a: Address|
                    #[trigger] balance_in(ledger@, a, me) == self.locked(a) by {
                    assert(balance_in(old(ledger)@, a, me) == old(self).locked(a));
                }
            }
        }
        Ok(Event::EscrowClaimed { claimant })
    }

    /// Resolves the escrow `payment_id` for `claimant`, who presents
    /// `pin_preimage`: the claim succeeds only where the SHA-256 digest of the
    /// preimage is the record's `pin_hash`. On failure nothing changed.
    pub fn claim_escrow(
        &mut self,
        env: &Env,
        ledger: &mut Ledger,
        signers: &Vec<Address>,
        claimant: Address,
        payment_id: &Vec<u8>,
        pin_preimage: [u8; 32],
    ) -> (r: Result<Event, EscrowError>)
        requires
            old(self).wf(),
            old(ledger).wf(),
        ensures
            final(self).wf(),
            final(ledger).wf(),
            final(self).custody() == old(self).custody(),
            r == claim_outcome(
                old(self)@,
                old(ledger)@,
                old(self).custody(),
                signers@,
                claimant,
                payment_id@,
                sha256_of(pin_preimage@),
            ),
            r is Ok ==> final(self)@ == resolved(old(self)@, payment_id@) && final(ledger)@
                == transferred(
                old(ledger)@,
                old(self)@[payment_id@].asset,
                old(self).custody(),
                claimant,
                old(self)@[payment_id@].amount,
            ),
            r is Err ==> final(self)@ == old(self)@ && final(ledger)@ == old(ledger)@,
            old(self).conserved(old(ledger)@) && claimant != old(self).custody()
                ==> final(self).conserved(final(ledger)@),
    {
        let digest = sha256(env, &pin_preimage);
        self.claim_with_digest(ledger, signers, claimant, payment_id, &digest)
    }

    /// Gives the amount of the escrow `payment_id` back to its sender, at
    /// ledger time `now`. On success the record is resolved and its amount has
    /// moved from custody to the sender; on failure nothing changed.
    pub fn refund_escrow(
        &mut self,
        ledger: &mut Ledger,
        signers: &Vec<Address>,
        sender: Address,
        payment_id: &Vec<u8>,
        now: u64,
    ) -> (r: Result<Event, EscrowError>)
        requires
            old(self).wf(),
            old(ledger).wf(),
        ensures
            final(self).wf(),
            final(ledger).wf(),
            final(self).custody() == old(self).custody(),
            r == refund_outcome(
                old(self)@,
                old(ledger)@,
                old(self).custody(),
                signers@,
                sender,
                payment_id@,
                now,
            ),
            r is Ok ==> final(self)@ == resolved(old(self)@, payment_id@) && final(ledger)@
                == transferred(
                old(ledger)@,
                old(self)@[payment_id@].asset,
                old(self).custody(),
                sender,
                old(self)@[payment_id@].amount,
            ),
            r is Err ==> final(self)@ == old(self)@ && final(ledger)@ == old(ledger)@,
            old(self).conserved(old(ledger)@) && sender != old(self).custody()
                ==> final(self).conserved(final(ledger)@),
    {
        if !is_authorized(signers, &sender) {
            return Err(EscrowError::Unauthorized);
        }
        let mut escrow = match self.registry.get(payment_id) {
            Some(e) => e,
            None => {
                return Err(EscrowError::NotFound);
            },
        };
        if now < escrow.expiry {
            return Err(EscrowError::NotYetExpired);
        }
        if escrow.claimed {
            return Err(EscrowError::AlreadyResolved);
        }
        if !same_address(&sender, &escrow.sender) {
            return Err(EscrowError::WrongSender);
        }
        match ledger.transfer(&escrow.asset, &self.address, &sender, escrow.amount) {
            Ok(()) => {},
            Err(e) => {
                return Err(EscrowError::Transfer(e));
            },
        }
        escrow.claimed = true;
        let ghost me = self.address;
        self.registry.put(copy_bytes(payment_id), escrow);
        proof {
            assert(self@ =~= resolved(old(self)@, payment_id@));
            if old(self).conserved(old(ledger)@) && sender != me {
                assert forall|a: Address|
                    #[trigger] balance_in(ledger@, a, me) == self.locked(a) by {
                    assert(balance_in(old(ledger)@, a, me) == old(self).locked(a));
                }
            }
        }
        Ok(Event::EscrowRefunded)
    }

    /// Puts a record kept elsewhere (in a host's durable storage) under
    /// `payment_id`, in place of what was there.
    pub fn load_escrow(&mut self, payment_id: Vec<u8>, record: Escrow)
        requires
            old(self).wf(),
        ensures
            final(self).wf(),
            final(self).custody() == old(self).custody(),
            final(self)@ == old(self)@.insert(payment_id@, record),
    {
        self.registry.put(payment_id, record);
    }
}

} // verus!
