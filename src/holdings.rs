use vstd::prelude::*;
use crate::types::{AccountId, AssetId, Balance};

verus! {

/// One recorded balance: what `who` holds of `asset`.
#[derive(Clone, Copy, Debug, PartialEq, Eq)]
pub struct Holding {
    pub who: AccountId,
    pub asset: AssetId,
    pub amount: Balance,
}

/// The balance of `(who, asset)` recorded in `s`: the last matching entry
/// counts, and an account with no entry holds nothing.
pub open spec fn balance_in(s: Seq<Holding>, who: AccountId, asset: AssetId) -> nat
    decreases s.len(),
{
    if s.len() == 0 {
        0
    } else if s.last().who == who && s.last().asset == asset {
        s.last().amount as nat
    } else {
        balance_in(s.drop_last(), who, asset)
    }
}

/// Every recorded balance fits in a `Balance`.
pub proof fn lemma_balance_bounded(s: Seq<Holding>, who: AccountId, asset: AssetId)
    ensures
        balance_in(s, who, asset) <= Balance::MAX,
    decreases s.len(),
{
    if s.len() > 0 {
        lemma_balance_bounded(s.drop_last(), who, asset);
    }
}

/// Overwriting the last entry of a key changes that key's balance and no other.
proof fn lemma_update_last_match(s: Seq<Holding>, i: int, h: Holding, who: AccountId, asset: AssetId)
    requires
        0 <= i < s.len(),
        s[i].who == h.who && s[i].asset == h.asset,
        forall|j: int| i < j < s.len() ==> !(#[trigger] s[j].who == h.who && s[j].asset == h.asset),
    ensures
        balance_in(s.update(i, h), who, asset) == if who == h.who && asset == h.asset {
            h.amount as nat
        } else {
            balance_in(s, who, asset)
        },
    decreases s.len(),
{
    let t = s.update(i, h);
    if i < s.len() - 1 {
        assert(t.drop_last() =~= s.drop_last().update(i, h));
        assert(t.last() == s.last());
        lemma_update_last_match(s.drop_last(), i, h, who, asset);
    } else {
        assert(t.drop_last() =~= s.drop_last());
    }
}

/// Balances of assets per account, as the asset transactor of this chain keeps them.
pub struct Holdings {
    entries: Vec<Holding>,
}

impl Holdings {
    /// What `who` holds of `asset`.
    pub closed spec fn balance(&self, who: AccountId, asset: AssetId) -> nat {
        balance_in(self.entries@, who, asset)
    }

    /// No recorded balance exceeds `Balance::MAX`.
    pub proof fn lemma_bounded(&self, who: AccountId, asset: AssetId)
        ensures
            self.balance(who, asset) <= Balance::MAX,
    {
        lemma_balance_bounded(self.entries@, who, asset);
    }

    /// No account holds anything.
    pub fn new() -> (r: Holdings)
        ensures
            forall|who: AccountId, asset: AssetId| r.balance(who, asset) == 0,
    {
        Holdings { entries: Vec::new() }
    }

    /// Index of the last entry of `(who, asset)`, if any.
    fn find(&self, who: AccountId, asset: AssetId) -> (r: Option<usize>)
        ensures
            match r {
                Some(i) => i < self.entries@.len() && self.entries@[i as int].who == who
                    && self.entries@[i as int].asset == asset
                    && (forall|j: int| i < j < self.entries@.len() ==> !(
                        #[trigger] self.entries@[j].who == who && self.entries@[j].asset == asset))
                    && self.balance(who, asset) == self.entries@[i as int].amount as nat,
                None => self.balance(who, asset) == 0,
            },
    {
        let mut i: usize = self.entries.len();
        assert(self.entries@.take(i as int) =~= self.entries@);
        while i > 0
            invariant
                i <= self.entries@.len(),
                balance_in(self.entries@.take(i as int), who, asset) == self.balance(who, asset),
                forall|j: int| i <= j < self.entries@.len() ==> !(
                    #[trigger] self.entries@[j].who == who && self.entries@[j].asset == asset),
            decreases i,
        {
            assert(self.entries@.take(i as int).drop_last() =~= self.entries@.take(i - 1));
            i = i - 1;
            let e = self.entries[i];
            if e.who == who && e.asset == asset {
                return Some(i);
            }
        }
        None
    }

    /// What `who` holds of `asset`.
    pub fn balance_of(&self, who: AccountId, asset: AssetId) -> (r: Balance)
        ensures
            r as nat == self.balance(who, asset),
    {
        match self.find(who, asset) {
            Some(i) => self.entries[i].amount,
            None => 0,
        }
    }

    /// Sets what `who` holds of `asset`, leaving every other balance as it was.
    fn set_balance(&mut self, who: AccountId, asset: AssetId, amount: Balance)
        ensures
            forall|w: AccountId, a: AssetId| #[trigger] final(self).balance(w, a) == if w == who && a
                == asset {
                amount as nat
            } else {
                old(self).balance(w, a)
            },
    {
        let h = Holding { who, asset, amount };
        match self.find(who, asset) {
            Some(i) => {
                proof {
                    assert forall|w: AccountId, a: AssetId| true implies balance_in(
                        self.entries@.update(i as int, h),
                        w,
                        a,
                    ) == (if w == who && a == asset {
                        amount as nat
                    } else {
                        balance_in(self.entries@, w, a)
                    }) by {
                        lemma_update_last_match(self.entries@, i as int, h, w, a);
                    }
                }
                self.entries.set(i, h);
            },
            None => {
                proof {
                    assert(self.entries@.push(h).drop_last() =~= self.entries@);
                }
                self.entries.push(h);
            },
        }
    }

    /// Credits `amount` of `asset` to `who`; fails, changing nothing, where the
    /// balance would exceed `Balance::MAX`.
    pub fn mint(&mut self, who: AccountId, asset: AssetId, amount: Balance) -> (r: Result<(), ()>)
        ensures
            r is Ok <==> old(self).balance(who, asset) + amount <= Balance::MAX,
            forall|w: AccountId, a: AssetId| #[trigger] final(self).balance(w, a) == if r is Ok && w
                == who && a == asset {
                (old(self).balance(w, a) + amount) as nat
            } else {
                old(self).balance(w, a)
            },
    {
        let b = self.balance_of(who, asset);
        if b > Balance::MAX - amount {
            return Err(());
        }
        self.set_balance(who, asset, b + amount);
        Ok(())
    }

    /// Moves `amount` of `asset` from `from` to `to`. It succeeds exactly when
    /// `from` holds enough and the receiving balance stays within `Balance::MAX`;
    /// on failure nothing changes.
    pub fn transfer(&mut self, from: AccountId, to: AccountId, asset: AssetId, amount: Balance) -> (r:
        Result<(), ()>)
        ensures
            r is Ok <==> transfer_possible(*old(self), from, to, asset, amount),
            r is Err ==> *final(self) == *old(self),
            forall|w: AccountId, a: AssetId| #[trigger] final(self).balance(w, a) == if r is Ok {
                balance_after_transfer(*old(self), from, to, asset, amount, w, a)
            } else {
                old(self).balance(w, a)
            },
    {
        let fb = self.balance_of(from, asset);
        if fb < amount {
            return Err(());
        }
        if from == to {
            return Ok(());
        }
        let tb = self.balance_of(to, asset);
        if tb > Balance::MAX - amount {
            return Err(());
        }
        self.set_balance(from, asset, fb - amount);
        self.set_balance(to, asset, tb + amount);
        Ok(())
    }
}

/// Whether `from` can move `amount` of `asset` to `to`.
pub open spec fn transfer_possible(
    h: Holdings,
    from: AccountId,
    to: AccountId,
    asset: AssetId,
    amount: Balance,
) -> bool {
    h.balance(from, asset) >= amount && (from == to || h.balance(to, asset) + amount
        <= Balance::MAX)
}

/// A balance `b` of `(w, a)` once `amount` of `asset` has moved from `from` to `to`.
pub open spec fn moved(
    b: nat,
    from: AccountId,
    to: AccountId,
    asset: AssetId,
    amount: Balance,
    w: AccountId,
    a: AssetId,
) -> nat {
    if a != asset || from == to {
        b
    } else if w == from {
        (b - amount) as nat
    } else if w == to {
        (b + amount) as nat
    } else {
        b
    }
}

/// The balance of `(w, a)` once `amount` of `asset` has moved from `from` to `to`.
pub open spec fn balance_after_transfer(
    h: Holdings,
    from: AccountId,
    to: AccountId,
    asset: AssetId,
    amount: Balance,
    w: AccountId,
    a: AssetId,
) -> nat {
    moved(h.balance(w, a), from, to, asset, amount, w, a)
}

} // verus!
