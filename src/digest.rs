use vstd::prelude::*;
use soroban_sdk::Env;

verus! {

/// The host environment of a contract invocation, carried through unopened.
#[verifier::external_type_specification]
#[verifier::external_body]
pub struct ExEnv(Env);

/// The SHA-256 digest of a byte string.
pub uninterp spec fn sha256_of(data: Seq<u8>) -> Seq<u8>;

/// Relies on soroban_sdk's `Crypto::sha256`, reached through
/// `Bytes::from_array` and `Hash::to_array`: the host's SHA-256 digest of the
/// 32 bytes, which depends on those bytes alone.
#[verifier::external_body]
pub(crate) fn sha256(env: &Env, data: &[u8; 32]) -> (r: [u8; 32])
    ensures
        r@ == sha256_of(data@),
{
    let bytes = soroban_sdk::Bytes::from_array(env, data);
    env.crypto().sha256(&bytes).to_array()
}

/// Tells whether two digests are equal, byte for byte.
pub fn same_digest(a: &[u8; 32], b: &[u8; 32]) -> (r: bool)
    ensures
        r == (a@ == b@),
{
    let mut i: usize = 0;
    while i < 32
        invariant
            0 <= i <= 32,
            forall|j: int| 0 <= j < i ==> a@[j] == b@[j],
        decreases 32 - i,
    {
        if a[i] != b[i] {
            return false;
        }
        i = i + 1;
    }
    assert(a@ =~= b@);
    true
}

} // verus!
