use vstd::prelude::*;
use crate::types::{DepositNonce, DomainID};

verus! {

/// Number of distinct domain identifiers.
pub const DOMAIN_COUNT: usize = 256;

/// Per-domain outbound counters and the set of inbound `(domain, nonce)` pairs
/// already executed.
pub struct NonceLedger {
    counts: Vec<DepositNonce>,
    used: Vec<(DomainID, DepositNonce)>,
}

impl NonceLedger {
    /// The internal invariant: one counter for each domain identifier.
    pub closed spec fn wf(&self) -> bool {
        self.counts@.len() == DOMAIN_COUNT
    }

    /// The next outbound nonce of domain `d`.
    pub closed spec fn count(&self, d: DomainID) -> nat {
        self.counts@[d as int] as nat
    }

    /// Whether the inbound nonce `n` of domain `d` has been consumed.
    pub closed spec fn is_used(&self, d: DomainID, n: DepositNonce) -> bool {
        self.used@.contains((d, n))
    }

    /// Every counter at zero, no nonce used.
    pub fn new() -> (r: NonceLedger)
        ensures
            r.wf(),
            forall|d: DomainID| #[trigger] r.count(d) == 0,
            forall|d: DomainID, n: DepositNonce| !#[trigger] r.is_used(d, n),
    {
        let mut counts: Vec<DepositNonce> = Vec::new();
        let mut k: usize = 0;
        while k < DOMAIN_COUNT
            invariant
                k <= DOMAIN_COUNT,
                counts@.len() == k,
                forall|j: int| 0 <= j < k ==> counts@[j] == 0,
            decreases DOMAIN_COUNT - k,
        {
            counts.push(0);
            k = k + 1;
        }
        NonceLedger { counts, used: Vec::new() }
    }

    /// The next outbound nonce of domain `d`.
    pub fn outbound_count(&self, d: DomainID) -> (r: DepositNonce)
        requires
            self.wf(),
        ensures
            r as nat == self.count(d),
    {
        self.counts[d as usize]
    }

    /// Hands out the next outbound nonce of `d` and advances its counter by one.
    pub fn next_outbound_nonce(&mut self, d: DomainID) -> (r: DepositNonce)
        requires
            old(self).wf(),
            old(self).count(d) < DepositNonce::MAX,
        ensures
            issues_nonce(*old(self), *final(self), d, r),
    {
        let c = self.counts[d as usize];
        self.counts.set(d as usize, c + 1);
        c
    }

    /// Whether the inbound nonce `n` of domain `d` has been consumed.
    pub fn is_consumed(&self, d: DomainID, n: DepositNonce) -> (r: bool)
        ensures
            r == self.is_used(d, n),
    {
        let mut i: usize = 0;
        while i < self.used.len()
            invariant
                i <= self.used@.len(),
                forall|j: int| 0 <= j < i ==> self.used@[j] != (d, n),
            decreases self.used@.len() - i,
        {
            let (ud, un) = self.used[i];
            if ud == d && un == n {
                return true;
            }
            i = i + 1;
        }
        false
    }

    /// Marks `(d, n)` consumed in one step: `true` where it was new, `false`
    /// where it had been consumed before, in which case nothing changes.
    pub fn try_consume_inbound(&mut self, d: DomainID, n: DepositNonce) -> (r: bool)
        requires
            old(self).wf(),
        ensures
            consumes(*old(self), *final(self), d, n, r),
    {
        if self.is_consumed(d, n) {
            return false;
        }
        proof {
            assert forall|x: DomainID, y: DepositNonce| #![auto]
                self.used@.push((d, n)).contains((x, y)) == (self.used@.contains((x, y)) || (x, y) == (d, n)) by {
                if self.used@.contains((x, y)) {
                    let j = choose|j: int| 0 <= j < self.used@.len() && self.used@[j] == (x, y);
                    assert(self.used@.push((d, n))[j] == (x, y));
                }
                if (x, y) == (d, n) {
                    assert(self.used@.push((d, n))[self.used@.len() as int] == (x, y));
                }
            }
        }
        self.used.push((d, n));
        true
    }
}

/// `post` is `pre` after handing out nonce `r` of domain `d`: `r` is the old
/// counter, that counter grew by one, and nothing else changed.
pub open spec fn issues_nonce(pre: NonceLedger, post: NonceLedger, d: DomainID, r: DepositNonce) -> bool {
    &&& post.wf()
    &&& r as nat == pre.count(d)
    &&& post.count(d) == pre.count(d) + 1
    &&& forall|e: DomainID| e != d ==> #[trigger] post.count(e) == pre.count(e)
    &&& forall|x: DomainID, y: DepositNonce| #[trigger] post.is_used(x, y) == pre.is_used(x, y)
}

/// `post` is `pre` after an attempt to consume `(d, n)` that answered `r`:
/// `r` says that the pair was unused, and afterwards it is used.
pub open spec fn consumes(pre: NonceLedger, post: NonceLedger, d: DomainID, n: DepositNonce, r: bool) -> bool {
    &&& post.wf()
    &&& r == !pre.is_used(d, n)
    &&& forall|x: DomainID, y: DepositNonce| #[trigger] post.is_used(x, y) == (pre.is_used(x, y)
        || (x == d && y == n))
    &&& forall|e: DomainID| #[trigger] post.count(e) == pre.count(e)
}

/// Successive outbound nonces of one domain are consecutive: the second call
/// returns exactly one more than the first, and a fresh ledger starts at zero.
pub proof fn lemma_outbound_nonces_consecutive(
    l0: NonceLedger,
    l1: NonceLedger,
    l2: NonceLedger,
    d: DomainID,
    r1: DepositNonce,
    r2: DepositNonce,
)
    requires
        issues_nonce(l0, l1, d, r1),
        issues_nonce(l1, l2, d, r2),
    ensures
        r2 == r1 + 1,
        r1 < r2,
        (forall|e: DomainID| #[trigger] l0.count(e) == 0) ==> r1 == 0,
{
}

/// A pair is consumed as new at most once: once an attempt has answered,
/// every later attempt on the same pair answers "already used".
pub proof fn lemma_inbound_consumed_once(
    l0: NonceLedger,
    l1: NonceLedger,
    l2: NonceLedger,
    d: DomainID,
    n: DepositNonce,
    r1: bool,
    r2: bool,
)
    requires
        consumes(l0, l1, d, n, r1),
        consumes(l1, l2, d, n, r2),
    ensures
        !r2,
        l2.is_used(d, n),
        !l0.is_used(d, n) ==> r1,
{
}

} // verus!
