use vstd::prelude::*;
use crate::address::{same_address, Address};

verus! {

/// Why a transfer of an asset between two holders was refused.
#[derive(Clone, Copy, Debug, PartialEq, Eq, Structural)]
pub enum TransferError {
    NegativeAmount,
    InsufficientBalance,
    BalanceOverflow,
}

/// One holder's balance of one asset.
#[derive(Clone, Copy, Debug)]
pub struct Holding {
    pub asset: Address,
    pub holder: Address,
    pub amount: i128,
}

/// Balances of fungible assets, keyed by (asset, holder). A missing key is a
/// balance of zero.
pub struct Ledger {
    holdings: Vec<Holding>,
    balances: Ghost<Map<(Address, Address), i128>>,
}

/// The balance that a map of balances gives one holder of one asset.
pub open spec fn balance_in(m: Map<(Address, Address), i128>, asset: Address, holder: Address) -> int {
    if m.contains_key((asset, holder)) {
        m[(asset, holder)] as int
    } else {
        0
    }
}

/// Why moving `amount` of `asset` from `from` to `to` is refused, if it is:
/// a negative amount, a balance short of the amount, or a receiving balance
/// that would leave the range of `i128`.
pub open spec fn transfer_error(
    m: Map<(Address, Address), i128>,
    asset: Address,
    from: Address,
    to: Address,
    amount: i128,
) -> Option<TransferError> {
    if amount < 0 {
        Some(TransferError::NegativeAmount)
    } else if balance_in(m, asset, from) < amount {
        Some(TransferError::InsufficientBalance)
    } else if from != to && balance_in(m, asset, to) + amount > i128::MAX {
        Some(TransferError::BalanceOverflow)
    } else {
        None
    }
}

/// The balances after `amount` of `asset` moved from `from` to `to`.
pub open spec fn transferred(
    m: Map<(Address, Address), i128>,
    asset: Address,
    from: Address,
    to: Address,
    amount: i128,
) -> Map<(Address, Address), i128> {
    if from == to {
        m
    } else {
        m.insert((asset, from), (balance_in(m, asset, from) - amount) as i128).insert(
            (asset, to),
            (balance_in(m, asset, to) + amount) as i128,
        )
    }
}

impl View for Ledger {
    type V = Map<(Address, Address), i128>;

    closed spec fn view(&self) -> Map<(Address, Address), i128> {
        self.balances@
    }
}

impl Ledger {
    /// The holdings list each (asset, holder) key once, and the map holds
    /// exactly the listed keys with their amounts.
    pub closed spec fn wf(&self) -> bool {
        &&& forall|i: int|
            #![trigger self.holdings@[i]]
            0 <= i < self.holdings@.len() ==> {
                let h = self.holdings@[i];
                &&& self.balances@.contains_key((h.asset, h.holder))
                &&& self.balances@[(h.asset, h.holder)] == h.amount
            }
        &&& forall|k: (Address, Address)|
            #![trigger self.balances@.contains_key(k)]
            self.balances@.contains_key(k) ==> exists|i: int|
                0 <= i < self.holdings@.len() && self.holdings@[i].asset == k.0
                    && self.holdings@[i].holder == k.1
        &&& forall|i: int, j: int|
            0 <= i < j < self.holdings@.len() ==> !(#[trigger] self.holdings@[i].asset
                == #[trigger] self.holdings@[j].asset && self.holdings@[i].holder
                == self.holdings@[j].holder)
    }

    /// A ledger in which every balance is zero.
    pub fn new() -> (r: Ledger)
        ensures
            r.wf(),
            r@ == Map::<(Address, Address), i128>::empty(),
    {
        Ledger { holdings: Vec::new(), balances: Ghost(Map::empty()) }
    }

    /// Where the holding of `holder` in `asset` is listed, if it is.
    fn position(&self, asset: &Address, holder: &Address) -> (r: Option<usize>)
        requires
            self.wf(),
        ensures
            match r {
                Some(i) => i < self.holdings@.len() && self.holdings@[i as int].asset == *asset
                    && self.holdings@[i as int].holder == *holder,
                None => !self@.contains_key((*asset, *holder)),
            },
    {
        let mut i: usize = 0;
        while i < self.holdings.len()
            invariant
                self.wf(),
                0 <= i <= self.holdings@.len(),
                forall|j: int|
                    0 <= j < i ==> !(#[trigger] self.holdings@[j].asset == *asset
                        && self.holdings@[j].holder == *holder),
            decreases self.holdings@.len() - i,
        {
            if same_address(&self.holdings[i].asset, asset) && same_address(
                &self.holdings[i].holder,
                holder,
            ) {
                return Some(i);
            }
            i = i + 1;
        }
        proof {
            if self@.contains_key((*asset, *holder)) {
                let k = (*asset, *holder);
                assert(self.balances@.contains_key(k));
                let w = choose|w: int|
                    0 <= w < self.holdings@.len() && self.holdings@[w].asset == k.0
                        && self.holdings@[w].holder == k.1;
                assert(self.holdings@[w].asset == *asset);
            }
        }
        None
    }

    /// The balance of `holder` in `asset`.
    pub fn balance(&self, asset: &Address, holder: &Address) -> (r: i128)
        requires
            self.wf(),
        ensures
            r as int == balance_in(self@, *asset, *holder),
    {
        match self.position(asset, holder) {
            Some(i) => self.holdings[i].amount,
            None => 0,
        }
    }

    /// Sets the balance of `holder` in `asset` to `amount`.
    fn set_balance(&mut self, asset: &Address, holder: &Address, amount: i128)
        requires
            old(self).wf(),
        ensures
            final(self).wf(),
            final(self)@ == old(self)@.insert((*asset, *holder), amount),
    {
        let ghost k = (*asset, *holder);
        match self.position(asset, holder) {
            Some(i) => {
                let h = Holding { asset: *asset, holder: *holder, amount };
                self.holdings.set(i, h);
                self.balances = Ghost(self.balances@.insert(k, amount));
                assert forall|k2: (Address, Address)|
                    #![trigger self.balances@.contains_key(k2)]
                    self.balances@.contains_key(k2) implies exists|w: int|
                        0 <= w < self.holdings@.len() && self.holdings@[w].asset == k2.0
                            && self.holdings@[w].holder == k2.1 by {
                    if k2 == k {
                        assert(self.holdings@[i as int].asset == k2.0);
                    } else {
                        assert(old(self).balances@.contains_key(k2));
                        let w = choose|w: int|
                            0 <= w < old(self).holdings@.len() && old(self).holdings@[w].asset
                                == k2.0 && old(self).holdings@[w].holder == k2.1;
                        assert(self.holdings@[w].asset == k2.0);
                    }
                }
            },
            None => {
                let h = Holding { asset: *asset, holder: *holder, amount };
                self.holdings.push(h);
                self.balances = Ghost(self.balances@.insert(k, amount));
                let ghost n = self.holdings@.len() - 1;
                assert forall|k2: (Address, Address)|
                    #![trigger self.balances@.contains_key(k2)]
                    self.balances@.contains_key(k2) implies exists|w: int|
                        0 <= w < self.holdings@.len() && self.holdings@[w].asset == k2.0
                            && self.holdings@[w].holder == k2.1 by {
                    if k2 == k {
                        assert(self.holdings@[n].asset == k2.0);
                    } else {
                        assert(old(self).balances@.contains_key(k2));
                        let w = choose|w: int|
                            0 <= w < old(self).holdings@.len() && old(self).holdings@[w].asset
                                == k2.0 && old(self).holdings@[w].holder == k2.1;
                        assert(self.holdings@[w].asset == k2.0);
                    }
                }
                assert forall|i: int, j: int|
                    0 <= i < j < self.holdings@.len() implies !(
                    #[trigger] self.holdings@[i].asset == #[trigger] self.holdings@[j].asset
                        && self.holdings@[i].holder == self.holdings@[j].holder) by {
                    if j == n {
                        let hi = old(self).holdings@[i];
                        assert(old(self).balances@.contains_key((hi.asset, hi.holder)));
                    }
                }
            },
        }
    }

    /// Adds `amount` to the balance of `holder` in `asset`. Refused, with no
    /// change, for a negative amount or a sum outside the range of `i128`.
    pub fn mint(&mut self, asset: &Address, holder: &Address, amount: i128) -> (r: Result<(), TransferError>)
        requires
            old(self).wf(),
        ensures
            final(self).wf(),
            amount < 0 ==> r == Err::<(), TransferError>(TransferError::NegativeAmount),
            amount >= 0 && balance_in(old(self)@, *asset, *holder) + amount > i128::MAX ==> r
                == Err::<(), TransferError>(TransferError::BalanceOverflow),
            amount >= 0 && balance_in(old(self)@, *asset, *holder) + amount <= i128::MAX ==> r
                is Ok,
            r is Ok ==> final(self)@ == old(self)@.insert(
                (*asset, *holder),
                (balance_in(old(self)@, *asset, *holder) + amount) as i128,
            ),
            r is Err ==> final(self)@ == old(self)@,
    {
        if amount < 0 {
            return Err(TransferError::NegativeAmount);
        }
        let b = self.balance(asset, holder);
        if b > i128::MAX - amount {
            return Err(TransferError::BalanceOverflow);
        }
        self.set_balance(asset, holder, b + amount);
        Ok(())
    }

    /// Moves `amount` of `asset` from `from` to `to`: refused, with no change,
    /// exactly when `transfer_error` names a reason.
    pub fn transfer(&mut self, asset: &Address, from: &Address, to: &Address, amount: i128) -> (r: Result<(), TransferError>)
        requires
            old(self).wf(),
        ensures
            final(self).wf(),
            match transfer_error(old(self)@, *asset, *from, *to, amount) {
                Some(e) => r == Err::<(), TransferError>(e) && final(self)@ == old(self)@,
                None => r is Ok && final(self)@ == transferred(old(self)@, *asset, *from, *to, amount),
            },
    {
        if amount < 0 {
            return Err(TransferError::NegativeAmount);
        }
        let from_balance = self.balance(asset, from);
        if from_balance < amount {
            return Err(TransferError::InsufficientBalance);
        }
        if same_address(from, to) {
            return Ok(());
        }
        let to_balance = self.balance(asset, to);
        if to_balance > i128::MAX - amount {
            return Err(TransferError::BalanceOverflow);
        }
        self.set_balance(asset, from, from_balance - amount);
        self.set_balance(asset, to, to_balance + amount);
        Ok(())
    }
}

} // verus!
