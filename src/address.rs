use vstd::prelude::*;

verus! {

/// Whether an address names an account (a public key) or a contract.
#[derive(Clone, Copy, Debug, PartialEq, Eq, Structural)]
pub enum AddressKind {
    Account,
    Contract,
}

/// An identity on the ledger: its kind and its 32-byte key.
#[derive(Clone, Copy, Debug, PartialEq, Eq)]
pub struct Address {
    pub kind: AddressKind,
    pub key: [u8; 32],
}

/// Tells whether two addresses are the same identity.
pub fn same_address(a: &Address, b: &Address) -> (r: bool)
    ensures
        r == (*a == *b),
{
    if a.kind != b.kind {
        return false;
    }
    let mut i: usize = 0;
    while i < 32
        invariant
            0 <= i <= 32,
            forall|j: int| 0 <= j < i ==> a.key[j] == b.key[j],
        decreases 32 - i,
    {
        if a.key[i] != b.key[i] {
            return false;
        }
        i = i + 1;
    }
    assert(a.key =~= b.key);
    true
}

/// The authorization gate: `who` consented to this invocation exactly when it
/// is among the identities whose signatures the invocation carries.
pub fn is_authorized(signers: &Vec<Address>, who: &Address) -> (r: bool)
    ensures
        r == signers@.contains(*who),
{
    let mut i: usize = 0;
    while i < signers.len()
        invariant
            0 <= i <= signers@.len(),
            forall|j: int| 0 <= j < i ==> signers@[j] != *who,
        decreases signers@.len() - i,
    {
        if same_address(&signers[i], who) {
            assert(signers@[i as int] == *who);
            return true;
        }
        i = i + 1;
    }
    false
}

} // verus!
