use vstd::prelude::*;
use crate::types::{AccountId, AssetId, Balance, DomainID, ResourceId};

verus! {

/// A fee schedule entry: what a transfer of `asset` to `domain` costs.
#[derive(Clone, Copy, Debug, PartialEq, Eq)]
pub struct FeeEntry {
    pub domain: DomainID,
    pub asset: AssetId,
    pub fee: Balance,
}

/// Fixed settings of a bridge.
#[derive(Clone, Debug)]
pub struct Config {
    /// The identifier of this chain.
    pub dest_domain_id: DomainID,
    /// Holds the assets of outbound transfers until they are released inbound.
    pub transfer_reserve_account: AccountId,
    /// Receives the fees of outbound transfers.
    pub fee_reserve_account: AccountId,
    /// Which asset of this chain each resource id stands for.
    pub resource_pairs: Vec<(AssetId, ResourceId)>,
    /// The fee schedule; the first matching entry applies.
    pub fees: Vec<FeeEntry>,
    /// The domains that outbound transfers may go to.
    pub supported_domains: Vec<DomainID>,
}

/// The resource id of `asset`: that of the first pair that names it.
pub open spec fn resource_of(pairs: Seq<(AssetId, ResourceId)>, asset: AssetId) -> Option<ResourceId>
    decreases pairs.len(),
{
    if pairs.len() == 0 {
        None
    } else if pairs[0].0 == asset {
        Some(pairs[0].1)
    } else {
        resource_of(pairs.drop_first(), asset)
    }
}

/// The asset that `rid` stands for: that of the first pair that names it.
pub open spec fn asset_of(pairs: Seq<(AssetId, ResourceId)>, rid: ResourceId) -> Option<AssetId>
    decreases pairs.len(),
{
    if pairs.len() == 0 {
        None
    } else if pairs[0].1@ == rid@ {
        Some(pairs[0].0)
    } else {
        asset_of(pairs.drop_first(), rid)
    }
}

/// The fee of a transfer of `asset` to `domain`: that of the first matching entry.
pub open spec fn fee_of(fees: Seq<FeeEntry>, domain: DomainID, asset: AssetId) -> Option<Balance>
    decreases fees.len(),
{
    if fees.len() == 0 {
        None
    } else if fees[0].domain == domain && fees[0].asset == asset {
        Some(fees[0].fee)
    } else {
        fee_of(fees.drop_first(), domain, asset)
    }
}

/// Whether two identifiers are equal, byte by byte.
pub fn same_id(a: &[u8; 32], b: &[u8; 32]) -> (r: bool)
    ensures
        r == (a@ == b@),
{
    let mut i: usize = 0;
    while i < 32
        invariant
            i <= 32,
            a@.len() == 32 && b@.len() == 32,
            forall|j: int| 0 <= j < i ==> a@[j] == b@[j],
        decreases 32 - i,
    {
        if a[i] != b[i] {
            return false;
        }
        i = i + 1;
    }
    assert(a@ =~= b@);
    true
}

impl Config {
    /// The resource id bound to `asset`.
    pub fn resource_id_of(&self, asset: AssetId) -> (r: Option<ResourceId>)
        ensures
            r == resource_of(self.resource_pairs@, asset),
    {
        let s = &self.resource_pairs;
        let mut i: usize = 0;
        assert(s@.subrange(0, s@.len() as int) =~= s@);
        while i < s.len()
            invariant
                s@ == self.resource_pairs@,
                i <= s@.len(),
                resource_of(s@.subrange(i as int, s@.len() as int), asset) == resource_of(s@, asset),
            decreases s@.len() - i,
        {
            assert(s@.subrange(i as int, s@.len() as int).drop_first() =~= s@.subrange(i + 1, s@.len() as int));
            assert(s@.subrange(i as int, s@.len() as int)[0] == s@[i as int]);
            if s[i].0 == asset {
                assert(resource_of(s@.subrange(i as int, s@.len() as int), asset) == Some(s@[i as int].1));
                return Some(s[i].1);
            }
            i = i + 1;
        }
        None
    }

    /// The asset bound to `rid`.
    pub fn asset_id_of(&self, rid: &ResourceId) -> (r: Option<AssetId>)
        ensures
            r == asset_of(self.resource_pairs@, *rid),
    {
        let s = &self.resource_pairs;
        let mut i: usize = 0;
        assert(s@.subrange(0, s@.len() as int) =~= s@);
        while i < s.len()
            invariant
                s@ == self.resource_pairs@,
                i <= s@.len(),
                asset_of(s@.subrange(i as int, s@.len() as int), *rid) == asset_of(s@, *rid),
            decreases s@.len() - i,
        {
            assert(s@.subrange(i as int, s@.len() as int).drop_first() =~= s@.subrange(i + 1, s@.len() as int));
            assert(s@.subrange(i as int, s@.len() as int)[0] == s@[i as int]);
            if same_id(&s[i].1, rid) {
                return Some(s[i].0);
            }
            i = i + 1;
        }
        None
    }

    /// The fee of a transfer of `asset` to `domain`.
    pub fn fee_for(&self, domain: DomainID, asset: AssetId) -> (r: Option<Balance>)
        ensures
            r == fee_of(self.fees@, domain, asset),
    {
        let s = &self.fees;
        let mut i: usize = 0;
        assert(s@.subrange(0, s@.len() as int) =~= s@);
        while i < s.len()
            invariant
                s@ == self.fees@,
                i <= s@.len(),
                fee_of(s@.subrange(i as int, s@.len() as int), domain, asset) == fee_of(s@, domain, asset),
            decreases s@.len() - i,
        {
            assert(s@.subrange(i as int, s@.len() as int).drop_first() =~= s@.subrange(i + 1, s@.len() as int));
            assert(s@.subrange(i as int, s@.len() as int)[0] == s@[i as int]);
            let e = s[i];
            if e.domain == domain && e.asset == asset {
                return Some(e.fee);
            }
            i = i + 1;
        }
        None
    }

    /// Whether outbound transfers may go to `domain`.
    pub fn supports_domain(&self, domain: DomainID) -> (r: bool)
        ensures
            r == self.supported_domains@.contains(domain),
    {
        let s = &self.supported_domains;
        let mut i: usize = 0;
        while i < s.len()
            invariant
                s@ == self.supported_domains@,
                i <= s@.len(),
                forall|j: int| 0 <= j < i ==> s@[j] != domain,
            decreases s@.len() - i,
        {
            if s[i] == domain {
                assert(s@[i as int] == domain);
                return true;
            }
            i = i + 1;
        }
        false
    }
}

} // verus!
