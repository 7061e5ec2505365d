use vstd::prelude::*;

use crate::errors::ErrorCode;

verus! {

/// The three deposit types the core accounts for. Fungible tokens and
/// non-fungible collectibles carry the identity of their mint; the native
/// coin has none.
#[derive(Clone, Copy, Debug, PartialEq, Eq, Hash, Structural)]
pub enum AssetClass {
    Native,
    Fungible { mint: u64 },
    NonFungible { mint: u64 },
}

/// One open stake. Created by `stake`, immutable thereafter, and removed
/// from the store by a successful `unstake` (its only state change:
/// active, then closed by removal). `amount` is 1 for a non-fungible item.
#[derive(Clone, Copy, Debug, PartialEq, Eq, Structural)]
pub struct StakePosition {
    pub owner: u64,
    pub asset_class: AssetClass,
    pub seed: u64,
    pub amount: u64,
    pub staked_at: u64,
    pub lock_period: u64,
    pub locked: bool,
}

/// Whether position `p` is addressed by `(owner, class, seed)`.
pub open spec fn key_is(p: StakePosition, owner: u64, class: AssetClass, seed: u64) -> bool {
    p.owner == owner && p.asset_class == class && p.seed == seed
}

/// Whether two positions share an address.
pub open spec fn same_key(a: StakePosition, b: StakePosition) -> bool {
    a.owner == b.owner && a.asset_class == b.asset_class && a.seed == b.seed
}

/// Whether some position in `s` is addressed by `(owner, class, seed)`.
pub open spec fn contains_key(s: Seq<StakePosition>, owner: u64, class: AssetClass, seed: u64) -> bool {
    exists|i: int| 0 <= i < s.len() && key_is(#[trigger] s[i], owner, class, seed)
}

/// The index of the position addressed by `(owner, class, seed)`;
/// meaningful when `contains_key` holds and the keys of `s` are unique.
pub open spec fn index_of_key(s: Seq<StakePosition>, owner: u64, class: AssetClass, seed: u64) -> int {
    choose|i: int| 0 <= i < s.len() && key_is(#[trigger] s[i], owner, class, seed)
}

/// The position addressed by `(owner, class, seed)`.
pub open spec fn position_at(s: Seq<StakePosition>, owner: u64, class: AssetClass, seed: u64) -> StakePosition {
    s[index_of_key(s, owner, class, seed)]
}

/// No two positions in `s` share an address.
pub open spec fn keys_unique(s: Seq<StakePosition>) -> bool {
    forall|i: int, j: int| 0 <= i < j < s.len() ==> !#[trigger] same_key(s[i], s[j])
}

/// With unique keys, an index holding an address is the only one, and it
/// is the one `index_of_key` names.
pub proof fn lemma_index_of_key_unique(
    s: Seq<StakePosition>,
    owner: u64,
    class: AssetClass,
    seed: u64,
    i: int,
)
    requires
        keys_unique(s),
        0 <= i < s.len(),
        key_is(s[i], owner, class, seed),
    ensures
        contains_key(s, owner, class, seed),
        index_of_key(s, owner, class, seed) == i,
        position_at(s, owner, class, seed) == s[i],
{
    assert(contains_key(s, owner, class, seed));
    let j = index_of_key(s, owner, class, seed);
    if j != i {
        assert(same_key(s[i], s[j]));
        assert(same_key(s[j], s[i]));
        assert(false);
    }
}

/// The set of open stake positions, each independently addressable by
/// `(owner, asset class, seed)`. The store keeps at most one position per
/// address (`keys_unique` of its view).
pub struct PositionStore {
    positions: Vec<StakePosition>,
}

impl View for PositionStore {
    type V = Seq<StakePosition>;

    closed spec fn view(&self) -> Seq<StakePosition> {
        self.positions@
    }
}

impl PositionStore {
    pub open spec fn wf(self) -> bool {
        keys_unique(self@)
    }

    /// An empty store.
    pub fn new() -> (s: PositionStore)
        ensures
            s@ == Seq::<StakePosition>::empty(),
            s.wf(),
    {
        PositionStore { positions: Vec::new() }
    }

    /// How many positions are open.
    pub fn len(&self) -> (n: usize)
        ensures
            n == self@.len(),
    {
        self.positions.len()
    }

    /// The position at slot `i`.
    pub fn get(&self, i: usize) -> (p: StakePosition)
        requires
            i < self@.len(),
        ensures
            p == self@[i as int],
    {
        self.positions[i]
    }

    /// Finds the slot of the position addressed by `(owner, class, seed)`,
    /// if any.
    pub fn lookup(&self, owner: u64, class: AssetClass, seed: u64) -> (r: Option<usize>)
        ensures
            r is Some <==> contains_key(self@, owner, class, seed),
            r matches Some(i) ==> i < self@.len() && key_is(self@[i as int], owner, class, seed),
            self.wf() ==> (r matches Some(i) ==> i == index_of_key(self@, owner, class, seed)),
    {
        let n = self.positions.len();
        let mut i: usize = 0;
        while i < n
            invariant
                n == self@.len(),
                i <= n,
                forall|j: int| 0 <= j < i ==> !key_is(#[trigger] self@[j], owner, class, seed),
            decreases n - i,
        {
            let p = &self.positions[i];
            if p.owner == owner && p.seed == seed && p.asset_class == class {
                proof {
                    assert(key_is(self@[i as int], owner, class, seed));
                    if self.wf() {
                        lemma_index_of_key_unique(self@, owner, class, seed, i as int);
                    }
                }
                return Some(i);
            }
            i += 1;
        }
        None
    }

    /// Records a new position. Fails `DuplicatePosition`, changing nothing,
    /// when its address is already taken.
    pub fn create(&mut self, p: StakePosition) -> (r: Result<(), ErrorCode>)
        ensures
            r is Ok <==> !contains_key(old(self)@, p.owner, p.asset_class, p.seed),
            r is Err ==> *final(self) == *old(self) && r == Err::<(), ErrorCode>(
                ErrorCode::DuplicatePosition,
            ),
            r is Ok ==> final(self)@ == old(self)@.push(p),
            old(self).wf() ==> final(self).wf(),
    {
        match self.lookup(p.owner, p.asset_class, p.seed) {
            Some(_) => Err(ErrorCode::DuplicatePosition),
            None => {
                self.positions.push(p);
                proof {
                    if keys_unique(old(self)@) {
                        assert forall|i: int, j: int| 0 <= i < j < self@.len() implies !same_key(
                            self@[i],
                            self@[j],
                        ) by {
                            if j < self@.len() - 1 {
                                assert(!same_key(old(self)@[i], old(self)@[j]));
                            } else {
                                assert(!key_is(old(self)@[i], p.owner, p.asset_class, p.seed));
                            }
                        }
                    }
                }
                Ok(())
            },
        }
    }

    /// Removes and returns the position addressed by `(owner, class, seed)`.
    /// Fails `RecordNotFound`, changing nothing, when there is none.
    pub fn close(&mut self, owner: u64, class: AssetClass, seed: u64) -> (r: Result<
        StakePosition,
        ErrorCode,
    >)
        requires
            old(self).wf(),
        ensures
            final(self).wf(),
            r is Ok <==> contains_key(old(self)@, owner, class, seed),
            r is Err ==> *final(self) == *old(self) && r == Err::<StakePosition, ErrorCode>(
                ErrorCode::RecordNotFound,
            ),
            r matches Ok(p) ==> p == position_at(old(self)@, owner, class, seed) && final(self)@
                == old(self)@.remove(index_of_key(old(self)@, owner, class, seed)),
            r is Ok ==> !contains_key(final(self)@, owner, class, seed),
    {
        match self.lookup(owner, class, seed) {
            None => Err(ErrorCode::RecordNotFound),
            Some(i) => {
                let p = self.positions[i];
                let _ = self.positions.remove(i);
                proof {
                    let pre = old(self)@;
                    let k = i as int;
                    assert(index_of_key(pre, owner, class, seed) == k);
                    assert forall|a: int, b: int| 0 <= a < b < self@.len() implies !same_key(
                        self@[a],
                        self@[b],
                    ) by {
                        let a0: int = if a < k {
                            a
                        } else {
                            a + 1
                        };
                        let b0: int = if b < k {
                            b
                        } else {
                            b + 1
                        };
                        assert(self@[a] == pre[a0]);
                        assert(self@[b] == pre[b0]);
                        assert(!same_key(pre[a0], pre[b0]));
                    }
                    assert forall|a: int| 0 <= a < self@.len() implies !key_is(
                        self@[a],
                        owner,
                        class,
                        seed,
                    ) by {
                        let a0: int = if a < k {
                            a
                        } else {
                            a + 1
                        };
                        assert(self@[a] == pre[a0]);
                        if key_is(pre[a0], owner, class, seed) {
                            lemma_index_of_key_unique(pre, owner, class, seed, a0);
                        }
                    }
                }
                Ok(p)
            },
        }
    }
}

} // verus!
