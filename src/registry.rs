use vstd::prelude::*;
use crate::address::Address;
use crate::escrow::Escrow;

verus! {

/// Tells whether two byte strings are equal.
pub fn same_bytes(a: &Vec<u8>, b: &Vec<u8>) -> (r: bool)
    ensures
        r == (a@ == b@),
{
    if a.len() != b.len() {
        return false;
    }
    let mut i: usize = 0;
    while i < a.len()
        invariant
            a@.len() == b@.len(),
            0 <= i <= a@.len(),
            forall|j: int| 0 <= j < i ==> a@[j] == b@[j],
        decreases a@.len() - i,
    {
        if a[i] != b[i] {
            return false;
        }
        i = i + 1;
    }
    assert(a@ =~= b@);
    true
}

/// A copy of a byte string.
pub fn copy_bytes(a: &Vec<u8>) -> (r: Vec<u8>)
    ensures
        r@ == a@,
{
    let mut r: Vec<u8> = Vec::with_capacity(a.len());
    let mut i: usize = 0;
    while i < a.len()
        invariant
            0 <= i <= a@.len(),
            r@ == a@.subrange(0, i as int),
        decreases a@.len() - i,
    {
        r.push(a[i]);
        i = i + 1;
    }
    assert(r@ =~= a@);
    r
}

/// What an unresolved record of `asset` holds in custody: its amount, or
/// nothing for a resolved record or another asset.
pub open spec fn share(e: Escrow, asset: Address) -> int {
    if e.asset == asset && !e.claimed {
        e.amount as int
    } else {
        0
    }
}

/// The sum of `amount` over the unresolved records of `asset` in `s`.
pub open spec fn locked_in(s: Seq<Escrow>, asset: Address) -> int
    decreases s.len(),
{
    if s.len() == 0 {
        0
    } else {
        locked_in(s.drop_last(), asset) + share(s.last(), asset)
    }
}

proof fn lemma_locked_push(s: Seq<Escrow>, e: Escrow, asset: Address)
    ensures
        locked_in(s.push(e), asset) == locked_in(s, asset) + share(e, asset),
{
    assert(s.push(e).drop_last() =~= s);
}

proof fn lemma_locked_update(s: Seq<Escrow>, i: int, e: Escrow, asset: Address)
    requires
        0 <= i < s.len(),
    ensures
        locked_in(s.update(i, e), asset) == locked_in(s, asset) - share(s[i], asset) + share(
            e,
            asset,
        ),
    decreases s.len(),
{
    if i == s.len() - 1 {
        assert(s.update(i, e).drop_last() =~= s.drop_last());
    } else {
        lemma_locked_update(s.drop_last(), i, e, asset);
        assert(s.update(i, e).drop_last() =~= s.drop_last().update(i, e));
    }
}

/// The escrow registry: one record per payment identifier, kept forever.
pub struct Registry {
    ids: Vec<Vec<u8>>,
    records: Vec<Escrow>,
    index: Ghost<Map<Seq<u8>, Escrow>>,
}

impl View for Registry {
    type V = Map<Seq<u8>, Escrow>;

    closed spec fn view(&self) -> Map<Seq<u8>, Escrow> {
        self.index@
    }
}

impl Registry {
    /// Each identifier is listed once beside its record, and the map holds
    /// exactly the listed identifiers with their records.
    pub closed spec fn wf(&self) -> bool {
        &&& self.ids@.len() == self.records@.len()
        &&& forall|i: int|
            #![trigger self.ids@[i]]
            0 <= i < self.ids@.len() ==> {
                &&& self.index@.contains_key(self.ids@[i]@)
                &&& self.index@[self.ids@[i]@] == self.records@[i]
            }
        &&& forall|k: Seq<u8>|
            #![trigger self.index@.contains_key(k)]
            self.index@.contains_key(k) ==> exists|i: int|
                0 <= i < self.ids@.len() && #[trigger] self.ids@[i]@ == k
        &&& forall|i: int, j: int|
            0 <= i < j < self.ids@.len() ==> #[trigger] self.ids@[i]@ != #[trigger] self.ids@[j]@
    }

    /// The sum of `amount` over the unresolved records of `asset`.
    pub closed spec fn locked(&self, asset: Address) -> int {
        locked_in(self.records@, asset)
    }

    /// A registry with no record.
    pub fn new() -> (r: Registry)
        ensures
            r.wf(),
            r@ == Map::<Seq<u8>, Escrow>::empty(),
            forall|a: Address| #[trigger] r.locked(a) == 0,
    {
        Registry { ids: Vec::new(), records: Vec::new(), index: Ghost(Map::empty()) }
    }

    /// Where the record of `id` is listed, if there is one.
    fn position(&self, id: &Vec<u8>) -> (r: Option<usize>)
        requires
            self.wf(),
        ensures
            match r {
                Some(i) => i < self.ids@.len() && self.ids@[i as int]@ == id@,
                None => !self@.contains_key(id@),
            },
    {
        let mut i: usize = 0;
        while i < self.ids.len()
            invariant
                self.wf(),
                0 <= i <= self.ids@.len(),
                forall|j: int| 0 <= j < i ==> #[trigger] self.ids@[j]@ != id@,
            decreases self.ids@.len() - i,
        {
            if same_bytes(&self.ids[i], id) {
                return Some(i);
            }
            i = i + 1;
        }
        proof {
            if self@.contains_key(id@) {
                assert(self.index@.contains_key(id@));
            }
        }
        None
    }

    /// Whether `id` has a record.
    pub fn has(&self, id: &Vec<u8>) -> (r: bool)
        requires
            self.wf(),
        ensures
            r == self@.contains_key(id@),
    {
        self.position(id).is_some()
    }

    /// The record of `id`, if there is one.
    pub fn get(&self, id: &Vec<u8>) -> (r: Option<Escrow>)
        requires
            self.wf(),
        ensures
            r == (if self@.contains_key(id@) {
                Some(self@[id@])
            } else {
                None::<Escrow>
            }),
    {
        match self.position(id) {
            Some(i) => Some(self.records[i]),
            None => None,
        }
    }

    /// Stores `record` under `id`, replacing the record there, if any.
    pub fn put(&mut self, id: Vec<u8>, record: Escrow)
        requires
            old(self).wf(),
        ensures
            final(self).wf(),
            final(self)@ == old(self)@.insert(id@, record),
            old(self)@.contains_key(id@) ==> forall|a: Address|
                #[trigger] final(self).locked(a) == old(self).locked(a) - share(
                    old(self)@[id@],
                    a,
                ) + share(record, a),
            !old(self)@.contains_key(id@) ==> forall|a: Address|
                #[trigger] final(self).locked(a) == old(self).locked(a) + share(record, a),
    {
        let ghost k = id@;
        match self.position(&id) {
            Some(i) => {
                self.records.set(i, record);
                self.index = Ghost(self.index@.insert(k, record));
                proof {
                    assert forall|a: Address|
                        #[trigger] self.locked(a) == old(self).locked(a) - share(
                            old(self)@[k],
                            a,
                        ) + share(record, a) by {
                        lemma_locked_update(old(self).records@, i as int, record, a);
                    }
                    assert forall|k2: Seq<u8>|
                        #![trigger self.index@.contains_key(k2)]
                        self.index@.contains_key(k2) implies exists|w: int|
                            0 <= w < self.ids@.len() && #[trigger] self.ids@[w]@ == k2 by {
                        if k2 == k {
                            assert(self.ids@[i as int]@ == k2);
                        } else {
                            assert(old(self).index@.contains_key(k2));
                            let w = choose|w: int|
                                0 <= w < old(self).ids@.len() && #[trigger] old(self).ids@[w]@
                                    == k2;
                            assert(self.ids@[w]@ == k2);
                        }
                    }
                }
            },
            None => {
                self.ids.push(id);
                self.records.push(record);
                self.index = Ghost(self.index@.insert(k, record));
                proof {
                    let n = self.ids@.len() - 1;
                    assert(self.ids@[n]@ == k);
                    assert forall|a: Address|
                        #[trigger] self.locked(a) == old(self).locked(a) + share(record, a) by {
                        lemma_locked_push(old(self).records@, record, a);
                    }
                    assert forall|k2: Seq<u8>|
                        #![trigger self.index@.contains_key(k2)]
                        self.index@.contains_key(k2) implies exists|w: int|
                            0 <= w < self.ids@.len() && #[trigger] self.ids@[w]@ == k2 by {
                        if k2 == k {
                            assert(self.ids@[n]@ == k2);
                        } else {
                            assert(old(self).index@.contains_key(k2));
                            let w = choose|w: int|
                                0 <= w < old(self).ids@.len() && #[trigger] old(self).ids@[w]@
                                    == k2;
                            assert(self.ids@[w]@ == k2);
                        }
                    }
                    assert forall|i: int, j: int|
                        0 <= i < j < self.ids@.len() implies #[trigger] self.ids@[i]@
                            != #[trigger] self.ids@[j]@ by {
                        if j == n {
                            assert(old(self).index@.contains_key(old(self).ids@[i]@));
                        }
                    }
                }
            },
        }
    }
}

} // verus!
