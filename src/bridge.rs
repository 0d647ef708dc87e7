use vstd::prelude::*;
use crate::config::{asset_of, fee_of, resource_of, same_id, Config};
use crate::holdings::{balance_after_transfer, moved, transfer_possible, Holdings};
use crate::nonces::{consumes, issues_nonce, NonceLedger};
use crate::payload::{be_value, decode_proposal_payload, encode_amount, proposal_payload, AMOUNT_LEN};
use crate::types::{
    AccountId, AssetId, Balance, BridgeKey, DepositNonce, DomainID, Error, Event, H256, MultiAsset,
    MultiLocation, Origin, Proposal, ProposalOutcome, ResourceId,
};

verus! {

/// Whether `k` is the empty key: all bytes zero.
pub open spec fn key_is_clear(k: BridgeKey) -> bool {
    forall|i: int| 0 <= i < 32 ==> #[trigger] k@[i] == 0
}

/// Whether `origin` may administer the bridge.
pub open spec fn authorized(origin: Origin) -> bool {
    origin is Root
}

/// Whether `k` is the empty key.
pub fn is_clear(k: &BridgeKey) -> (r: bool)
    ensures
        r == key_is_clear(*k),
{
    let mut i: usize = 0;
    while i < 32
        invariant
            i <= 32,
            k@.len() == 32,
            forall|j: int| 0 <= j < i ==> k@[j] == 0,
        decreases 32 - i,
    {
        if k[i] != 0 {
            assert(k@[i as int] != 0);
            return false;
        }
        i = i + 1;
    }
    true
}

/// The state of a bridge: its settings, key, pause switch, nonces, the balances
/// its asset transactor keeps, and the events it has reported.
pub struct Pallet {
    config: Config,
    mpc_key: BridgeKey,
    paused: bool,
    nonces: NonceLedger,
    holdings: Holdings,
    events: Vec<Event>,
}

/// Every balance of `a` equals that of `b`.
pub open spec fn same_balances(a: Holdings, b: Holdings) -> bool {
    forall|w: AccountId, x: AssetId| #[trigger] a.balance(w, x) == b.balance(w, x)
}

/// `post` is `pre` with the given key, pause state and events, and the same
/// settings, nonces and balances.
pub open spec fn only_changes(pre: Pallet, post: Pallet, key: BridgeKey, paused: bool, events: Seq<Event>) -> bool {
    &&& post.wf()
    &&& post.key() == key
    &&& post.paused() == paused
    &&& post.event_log() == events
    &&& post.cfg() == pre.cfg()
    &&& post.ledger() == pre.ledger()
    &&& same_balances(pre.assets(), post.assets())
}

/// `post` is `pre`, but for the representation of balances.
pub open spec fn unchanged(pre: Pallet, post: Pallet) -> bool {
    only_changes(pre, post, pre.key(), pre.paused(), pre.event_log())
}

/// What `set_mpc_key` answers.
pub open spec fn set_mpc_key_result(pre: Pallet, origin: Origin) -> Result<(), Error> {
    if !authorized(origin) {
        Err(Error::BadOrigin)
    } else if !key_is_clear(pre.key()) {
        Err(Error::MpcKeyNotUpdatable)
    } else {
        Ok(())
    }
}

/// `post` is `pre` after `set_mpc_key(origin, key)` answered `r`.
pub open spec fn set_mpc_key_done(pre: Pallet, post: Pallet, origin: Origin, key: BridgeKey, r: Result<(), Error>) -> bool {
    &&& r == set_mpc_key_result(pre, origin)
    &&& r is Ok ==> only_changes(pre, post, key, pre.paused(), pre.event_log())
    &&& r is Err ==> unchanged(pre, post)
}

/// What `pause_bridge` answers.
pub open spec fn pause_result(pre: Pallet, origin: Origin) -> Result<(), Error> {
    if !authorized(origin) {
        Err(Error::BadOrigin)
    } else if key_is_clear(pre.key()) {
        Err(Error::MissingMpcKey)
    } else {
        Ok(())
    }
}

/// `post` is `pre` after `pause_bridge(origin)` answered `r`.
pub open spec fn pause_done(pre: Pallet, post: Pallet, origin: Origin, r: Result<(), Error>) -> bool {
    &&& r == pause_result(pre, origin)
    &&& r is Ok ==> only_changes(pre, post, pre.key(), true, pre.event_log().push(Event::BridgePaused(pre.cfg().dest_domain_id)))
    &&& r is Err ==> unchanged(pre, post)
}

/// What `unpause_bridge` answers.
pub open spec fn unpause_result(pre: Pallet, origin: Origin) -> Result<(), Error> {
    if !authorized(origin) {
        Err(Error::BadOrigin)
    } else if key_is_clear(pre.key()) {
        Err(Error::MissingMpcKey)
    } else if !pre.paused() {
        Err(Error::BridgeUnpaused)
    } else {
        Ok(())
    }
}

/// `post` is `pre` after `unpause_bridge(origin)` answered `r`.
pub open spec fn unpause_done(pre: Pallet, post: Pallet, origin: Origin, r: Result<(), Error>) -> bool {
    &&& r == unpause_result(pre, origin)
    &&& r is Ok ==> only_changes(pre, post, pre.key(), false, pre.event_log().push(Event::BridgeUnpaused(pre.cfg().dest_domain_id)))
    &&& r is Err ==> unchanged(pre, post)
}

/// The balance `b` of `(w, a)` once `who` has paid `fee` of `asset` to
/// `fee_acct` and then `amount` of it to `reserve`.
pub open spec fn deposit_moved(
    b: nat,
    who: AccountId,
    asset: AssetId,
    fee: Balance,
    amount: Balance,
    fee_acct: AccountId,
    reserve: AccountId,
    w: AccountId,
    a: AssetId,
) -> nat {
    moved(moved(b, who, fee_acct, asset, fee, w, a), who, reserve, asset, amount, w, a)
}

/// Whether `who` can pay `fee` of `asset` to `fee_acct` and then `amount` of it
/// to `reserve`.
pub open spec fn deposit_funds_ok(
    h: Holdings,
    who: AccountId,
    asset: AssetId,
    fee: Balance,
    amount: Balance,
    fee_acct: AccountId,
    reserve: AccountId,
) -> bool {
    &&& transfer_possible(h, who, fee_acct, asset, fee)
    &&& moved(h.balance(who, asset), who, fee_acct, asset, fee, who, asset) >= amount
    &&& (who == reserve || moved(h.balance(reserve, asset), who, fee_acct, asset, fee, reserve, asset)
        + amount <= Balance::MAX)
}

/// What `deposit` answers: the checks in order, then the next nonce of the
/// destination domain.
pub open spec fn deposit_result(pre: Pallet, origin: Origin, asset: MultiAsset, dest: MultiLocation) -> Result<DepositNonce, Error> {
    match origin {
        Origin::Signed(who) => if pre.paused() {
            Err(Error::BridgePaused)
        } else if resource_of(pre.cfg().resource_pairs@, asset.id) is None {
            Err(Error::AssetNotBound)
        } else if !pre.cfg().supported_domains@.contains(dest.domain_id) {
            Err(Error::DestDomainNotSupported)
        } else {
            match fee_of(pre.cfg().fees@, dest.domain_id, asset.id) {
                None => Err(Error::MissingFeeConfig),
                Some(fee) => if pre.ledger().count(dest.domain_id) >= DepositNonce::MAX {
                    Err(Error::DepositNonceOverflow)
                } else if !deposit_funds_ok(pre.assets(), who, asset.id, fee, asset.amount,
                    pre.cfg().fee_reserve_account, pre.cfg().transfer_reserve_account) {
                    Err(Error::TransactorFailed)
                } else {
                    Ok(pre.ledger().count(dest.domain_id) as DepositNonce)
                },
            }
        },
        _ => Err(Error::BadOrigin),
    }
}

/// Whether `e` reports a deposit with these fields, whose data is the amount
/// in sixteen big-endian bytes followed by the recipient, and whose handler
/// response is empty.
pub open spec fn is_deposit_event(
    e: Event,
    domain: DomainID,
    rid: ResourceId,
    nonce: DepositNonce,
    who: AccountId,
    amount: Balance,
    recipient: Seq<u8>,
) -> bool {
    match e {
        Event::Deposit(d, r, n, s, data, resp) => d == domain && r == rid && n == nonce && s == who
            && data@.len() == AMOUNT_LEN + recipient.len()
            && be_value(data@.subrange(0, AMOUNT_LEN as int)) == amount as nat
            && data@.subrange(AMOUNT_LEN as int, data@.len() as int) == recipient
            && resp@.len() == 0,
        _ => false,
    }
}

/// `post` is `pre` after `deposit(origin, asset, dest)` answered `r`.
pub open spec fn deposit_done(pre: Pallet, post: Pallet, origin: Origin, asset: MultiAsset, dest: MultiLocation, r: Result<DepositNonce, Error>) -> bool {
    &&& r == deposit_result(pre, origin, asset, dest)
    &&& r is Err ==> unchanged(pre, post)
    &&& r is Ok ==> {
        let who = origin->Signed_0;
        let fee = fee_of(pre.cfg().fees@, dest.domain_id, asset.id)->Some_0;
        &&& post.wf()
        &&& post.key() == pre.key()
        &&& post.paused() == pre.paused()
        &&& post.cfg() == pre.cfg()
        &&& issues_nonce(pre.ledger(), post.ledger(), dest.domain_id, r->Ok_0)
        &&& forall|w: AccountId, a: AssetId| #[trigger] post.assets().balance(w, a) == deposit_moved(
            pre.assets().balance(w, a), who, asset.id, fee, asset.amount,
            pre.cfg().fee_reserve_account, pre.cfg().transfer_reserve_account, w, a)
        &&& post.event_log().len() == pre.event_log().len() + 1
        &&& post.event_log().drop_last() == pre.event_log()
        &&& is_deposit_event(post.event_log().last(), dest.domain_id,
            resource_of(pre.cfg().resource_pairs@, asset.id)->Some_0, r->Ok_0, who, asset.amount, dest.recipient@)
    }
}

/// Whether `signer`, the key that signed a batch, is the bridge key of `pre`.
pub open spec fn signed_by_key(pre: Pallet, signer: Option<BridgeKey>) -> bool {
    match signer {
        Some(k) => k@ == pre.key()@,
        None => false,
    }
}

/// Why a batch signed by `signer` is refused as a whole, if it is.
pub open spec fn batch_error(pre: Pallet, signer: Option<BridgeKey>) -> Option<Error> {
    if pre.paused() {
        Some(Error::BridgePaused)
    } else if key_is_clear(pre.key()) {
        Some(Error::MissingMpcKey)
    } else if !signed_by_key(pre, signer) {
        Some(Error::BadMpcSignature)
    } else {
        None
    }
}

/// What becomes of proposal `p` against nonces `l` and balances `h`.
pub open spec fn proposal_outcome(cfg: Config, l: NonceLedger, h: Holdings, p: Proposal) -> ProposalOutcome {
    if l.is_used(p.origin_domain_id, p.deposit_nonce) {
        ProposalOutcome::AlreadyComplete
    } else {
        match asset_of(cfg.resource_pairs@, p.resource_id) {
            None => ProposalOutcome::AssetNotBound,
            Some(a) => match proposal_payload(p.data@) {
                None => ProposalOutcome::InvalidData,
                Some((amount, who)) => if transfer_possible(h, cfg.transfer_reserve_account, who as AccountId, a, amount as Balance) {
                    ProposalOutcome::Executed
                } else {
                    ProposalOutcome::TransactorFailed
                },
            },
        }
    }
}

/// Nonces `l1` and balances `h1` follow from `l0` and `h0` by handling `p`
/// with outcome `o`: an executed proposal releases its amount from the transfer
/// reserve to its recipient and uses its nonce; any other leaves both as they were.
pub open spec fn proposal_step(
    cfg: Config,
    l0: NonceLedger,
    h0: Holdings,
    l1: NonceLedger,
    h1: Holdings,
    p: Proposal,
    o: ProposalOutcome,
) -> bool {
    &&& o == proposal_outcome(cfg, l0, h0, p)
    &&& if o is Executed {
        let a = asset_of(cfg.resource_pairs@, p.resource_id)->Some_0;
        let amount = proposal_payload(p.data@)->Some_0.0;
        let who = proposal_payload(p.data@)->Some_0.1;
        &&& consumes(l0, l1, p.origin_domain_id, p.deposit_nonce, true)
        &&& forall|w: AccountId, x: AssetId| #[trigger] h1.balance(w, x) == balance_after_transfer(h0,
            cfg.transfer_reserve_account, who as AccountId, a, amount as Balance, w, x)
    } else {
        l1 == l0 && h1 == h0
    }
}

/// The proposals `ps` were handled in order with outcomes `outs`, passing
/// through nonce states `ls` and balance states `hs`.
pub open spec fn batch_applied(
    cfg: Config,
    ps: Seq<Proposal>,
    outs: Seq<ProposalOutcome>,
    ls: Seq<NonceLedger>,
    hs: Seq<Holdings>,
) -> bool {
    &&& outs.len() == ps.len()
    &&& ls.len() == ps.len() + 1
    &&& hs.len() == ps.len() + 1
    &&& forall|i: int| 0 <= i < ps.len() ==> proposal_step(cfg, ls[i], hs[i], ls[i + 1], hs[i + 1], ps[i], #[trigger] outs[i])
}

/// `post` is `pre` after `execute_proposal(origin, proposals, signer)`
/// answered `r`.
pub open spec fn execute_done(pre: Pallet, post: Pallet, proposals: Seq<Proposal>, signer: Option<BridgeKey>, r: Result<Vec<ProposalOutcome>, Error>) -> bool {
    match batch_error(pre, signer) {
        Some(e) => r == Err::<Vec<ProposalOutcome>, Error>(e) && post == pre,
        None => {
            &&& r is Ok
            &&& post.wf()
            &&& post.key() == pre.key()
            &&& post.paused() == pre.paused()
            &&& post.cfg() == pre.cfg()
            &&& post.event_log() == pre.event_log()
            &&& exists|ls: Seq<NonceLedger>, hs: Seq<Holdings>| {
                &&& batch_applied(pre.cfg(), proposals, r->Ok_0@, ls, hs)
                &&& ls[0] == pre.ledger() && hs[0] == pre.assets()
                &&& ls.last() == post.ledger() && hs.last() == post.assets()
            }
        },
    }
}

impl Pallet {
    /// The internal invariant: the nonce ledger is well formed.
    pub closed spec fn wf(&self) -> bool {
        self.nonces.wf()
    }

    /// The bridge key.
    pub closed spec fn key(&self) -> BridgeKey {
        self.mpc_key
    }

    /// Whether the bridge is paused.
    pub closed spec fn paused(&self) -> bool {
        self.paused
    }

    /// The nonce ledger.
    pub closed spec fn ledger(&self) -> NonceLedger {
        self.nonces
    }

    /// The balances.
    pub closed spec fn assets(&self) -> Holdings {
        self.holdings
    }

    /// The events reported so far, oldest first.
    pub closed spec fn event_log(&self) -> Seq<Event> {
        self.events@
    }

    /// The settings.
    pub closed spec fn cfg(&self) -> Config {
        self.config
    }

    /// A bridge with the given settings: no key, unpaused, every counter at
    /// zero, no nonce used, no balance, no event.
    pub fn new(config: Config) -> (r: Pallet)
        ensures
            r.wf(),
            r.cfg() == config,
            key_is_clear(r.key()),
            !r.paused(),
            forall|d: DomainID| #[trigger] r.ledger().count(d) == 0,
            forall|d: DomainID, n: DepositNonce| !#[trigger] r.ledger().is_used(d, n),
            forall|w: AccountId, a: AssetId| #[trigger] r.assets().balance(w, a) == 0,
            r.event_log().len() == 0,
    {
        Pallet {
            config,
            mpc_key: [0u8; 32],
            paused: false,
            nonces: NonceLedger::new(),
            holdings: Holdings::new(),
            events: Vec::new(),
        }
    }

    /// The bridge key; all zero while none is set.
    pub fn mpc_key(&self) -> (r: BridgeKey)
        ensures
            r == self.key(),
    {
        self.mpc_key
    }

    /// Whether the bridge is paused.
    pub fn is_paused(&self) -> (r: bool)
        ensures
            r == self.paused(),
    {
        self.paused
    }

    /// The next outbound nonce of `domain`.
    pub fn dest_counts(&self, domain: DomainID) -> (r: DepositNonce)
        requires
            self.wf(),
        ensures
            r as nat == self.ledger().count(domain),
    {
        self.nonces.outbound_count(domain)
    }

    /// Whether the inbound proposal `(domain, nonce)` has been executed.
    pub fn is_proposal_executed(&self, domain: DomainID, nonce: DepositNonce) -> (r: bool)
        ensures
            r == self.ledger().is_used(domain, nonce),
    {
        self.nonces.is_consumed(domain, nonce)
    }

    /// What `who` holds of `asset`.
    pub fn balance_of(&self, who: AccountId, asset: AssetId) -> (r: Balance)
        ensures
            r as nat == self.assets().balance(who, asset),
    {
        self.holdings.balance_of(who, asset)
    }

    /// The events reported so far, oldest first.
    pub fn events(&self) -> (r: &Vec<Event>)
        ensures
            r@ == self.event_log(),
    {
        &self.events
    }

    /// The settings.
    pub fn config(&self) -> (r: &Config)
        ensures
            *r == self.cfg(),
    {
        &self.config
    }

    /// Credits `amount` of `asset` to `who` at genesis or by the chain's own
    /// issuance; fails, changing nothing, where the balance would overflow.
    pub fn endow(&mut self, who: AccountId, asset: AssetId, amount: Balance) -> (r: Result<(), Error>)
        requires
            old(self).wf(),
        ensures
            r is Ok <==> old(self).assets().balance(who, asset) + amount <= Balance::MAX,
            final(self).wf(),
            final(self).key() == old(self).key(),
            final(self).paused() == old(self).paused(),
            final(self).cfg() == old(self).cfg(),
            final(self).ledger() == old(self).ledger(),
            final(self).event_log() == old(self).event_log(),
            forall|w: AccountId, a: AssetId| #[trigger] final(self).assets().balance(w, a) == if r is Ok && w
                == who && a == asset {
                (old(self).assets().balance(w, a) + amount) as nat
            } else {
                old(self).assets().balance(w, a)
            },
    {
        match self.holdings.mint(who, asset, amount) {
            Ok(()) => Ok(()),
            Err(()) => Err(Error::TransactorFailed),
        }
    }

    /// Stores the bridge key; only an authorized origin may, and only while no
    /// key is set.
    pub fn set_mpc_key(&mut self, origin: Origin, key: BridgeKey) -> (r: Result<(), Error>)
        requires
            old(self).wf(),
        ensures
            set_mpc_key_done(*old(self), *final(self), origin, key, r),
    {
        if !matches!(origin, Origin::Root) {
            return Err(Error::BadOrigin);
        }
        if !is_clear(&self.mpc_key) {
            return Err(Error::MpcKeyNotUpdatable);
        }
        self.mpc_key = key;
        Ok(())
    }

    /// Pauses the bridge, also when it is paused already, and reports it.
    pub fn pause_bridge(&mut self, origin: Origin) -> (r: Result<(), Error>)
        requires
            old(self).wf(),
        ensures
            pause_done(*old(self), *final(self), origin, r),
    {
        if !matches!(origin, Origin::Root) {
            return Err(Error::BadOrigin);
        }
        if is_clear(&self.mpc_key) {
            return Err(Error::MissingMpcKey);
        }
        self.paused = true;
        self.events.push(Event::BridgePaused(self.config.dest_domain_id));
        Ok(())
    }

    /// Unpauses a paused bridge and reports it.
    pub fn unpause_bridge(&mut self, origin: Origin) -> (r: Result<(), Error>)
        requires
            old(self).wf(),
        ensures
            unpause_done(*old(self), *final(self), origin, r),
    {
        if !matches!(origin, Origin::Root) {
            return Err(Error::BadOrigin);
        }
        if is_clear(&self.mpc_key) {
            return Err(Error::MissingMpcKey);
        }
        if !self.paused {
            return Err(Error::BridgeUnpaused);
        }
        self.paused = false;
        self.events.push(Event::BridgeUnpaused(self.config.dest_domain_id));
        Ok(())
    }

    /// Sends `asset` from the signing account to `dest`: charges the fee to the
    /// fee reserve and the amount to the transfer reserve, both or neither,
    /// takes the destination's next nonce and reports the deposit.
    pub fn deposit(&mut self, origin: Origin, asset: MultiAsset, dest: MultiLocation) -> (r: Result<DepositNonce, Error>)
        requires
            old(self).wf(),
        ensures
            deposit_done(*old(self), *final(self), origin, asset, dest, r),
    {
        let who = match origin {
            Origin::Signed(who) => who,
            _ => return Err(Error::BadOrigin),
        };
        if self.paused {
            return Err(Error::BridgePaused);
        }
        let rid = match self.config.resource_id_of(asset.id) {
            Some(rid) => rid,
            None => return Err(Error::AssetNotBound),
        };
        if !self.config.supports_domain(dest.domain_id) {
            return Err(Error::DestDomainNotSupported);
        }
        let fee = match self.config.fee_for(dest.domain_id, asset.id) {
            Some(fee) => fee,
            None => return Err(Error::MissingFeeConfig),
        };
        if self.nonces.outbound_count(dest.domain_id) == DepositNonce::MAX {
            return Err(Error::DepositNonceOverflow);
        }
        let fee_acct = self.config.fee_reserve_account;
        let reserve = self.config.transfer_reserve_account;
        let ghost h0 = self.holdings;
        if self.holdings.transfer(who, fee_acct, asset.id, fee).is_err() {
            return Err(Error::TransactorFailed);
        }
        let ghost h1 = self.holdings;
        if self.holdings.transfer(who, reserve, asset.id, asset.amount).is_err() {
            proof {
                h0.lemma_bounded(who, asset.id);
                h0.lemma_bounded(fee_acct, asset.id);
            }
            let back = self.holdings.transfer(fee_acct, who, asset.id, fee);
            proof {
                assert(back is Ok);
                assert forall|w: AccountId, a: AssetId| #[trigger] self.holdings.balance(w, a) == h0.balance(w, a) by {
                }
            }
            return Err(Error::TransactorFailed);
        }
        let nonce = self.nonces.next_outbound_nonce(dest.domain_id);
        let mut data = encode_amount(asset.amount);
        let mut recipient = dest.recipient;
        let ghost encoded = data@;
        data.append(&mut recipient);
        proof {
            assert(data@.subrange(0, AMOUNT_LEN as int) =~= encoded);
            assert(data@.subrange(AMOUNT_LEN as int, data@.len() as int) =~= dest.recipient@);
        }
        let ghost before = self.events@;
        self.events.push(Event::Deposit(dest.domain_id, rid, nonce, who, data, Vec::new()));
        assert(self.events@.drop_last() =~= before);
        Ok(nonce)
    }

    /// Whether `signer` is the bridge key: the key that the signature of a batch
    /// was made with, as recovered from it, or `None` where none could be.
    fn verify(&self, signer: &Option<BridgeKey>) -> (r: bool)
        ensures
            r == signed_by_key(*self, *signer),
    {
        match signer {
            Some(k) => same_id(k, &self.mpc_key),
            None => false,
        }
    }

    /// Handles one proposal of a signed batch.
    fn execute_one(&mut self, p: &Proposal) -> (o: ProposalOutcome)
        requires
            old(self).wf(),
        ensures
            proposal_step(old(self).cfg(), old(self).ledger(), old(self).assets(), final(self).ledger(),
                final(self).assets(), *p, o),
            final(self).wf(),
            final(self).key() == old(self).key(),
            final(self).paused() == old(self).paused(),
            final(self).cfg() == old(self).cfg(),
            final(self).event_log() == old(self).event_log(),
    {
        if self.nonces.is_consumed(p.origin_domain_id, p.deposit_nonce) {
            return ProposalOutcome::AlreadyComplete;
        }
        let asset = match self.config.asset_id_of(&p.resource_id) {
            Some(a) => a,
            None => return ProposalOutcome::AssetNotBound,
        };
        let (amount, who) = match decode_proposal_payload(&p.data) {
            Some(x) => x,
            None => return ProposalOutcome::InvalidData,
        };
        if self.holdings.transfer(self.config.transfer_reserve_account, who, asset, amount).is_err() {
            return ProposalOutcome::TransactorFailed;
        }
        let _ = self.nonces.try_consume_inbound(p.origin_domain_id, p.deposit_nonce);
        ProposalOutcome::Executed
    }

    /// Executes a batch of inbound proposals signed by `signer`, the key
    /// recovered from the batch's signature. Any origin may submit a batch: the
    /// signature is what authorizes it. A paused bridge, a missing key or
    /// another signer refuses the whole batch and changes nothing; otherwise
    /// each proposal is handled in order and its outcome returned.
    pub fn execute_proposal(&mut self, origin: Origin, proposals: Vec<Proposal>, signer: Option<BridgeKey>) -> (r: Result<Vec<ProposalOutcome>, Error>)
        requires
            old(self).wf(),
        ensures
            execute_done(*old(self), *final(self), proposals@, signer, r),
    {
        if self.paused {
            return Err(Error::BridgePaused);
        }
        if is_clear(&self.mpc_key) {
            return Err(Error::MissingMpcKey);
        }
        if !self.verify(&signer) {
            return Err(Error::BadMpcSignature);
        }
        let ghost pre = *self;
        let mut outs: Vec<ProposalOutcome> = Vec::new();
        let ghost mut ls: Seq<NonceLedger> = seq![self.nonces];
        let ghost mut hs: Seq<Holdings> = seq![self.holdings];
        let mut i: usize = 0;
        while i < proposals.len()
            invariant
                i <= proposals@.len(),
                self.wf(),
                self.key() == pre.key(),
                self.paused() == pre.paused(),
                self.cfg() == pre.cfg(),
                self.event_log() == pre.event_log(),
                batch_applied(pre.cfg(), proposals@.take(i as int), outs@, ls, hs),
                ls[0] == pre.ledger() && hs[0] == pre.assets(),
                ls.last() == self.ledger() && hs.last() == self.assets(),
            decreases proposals@.len() - i,
        {
            let o = self.execute_one(&proposals[i]);
            proof {
                let ls2 = ls.push(self.nonces);
                let hs2 = hs.push(self.holdings);
                let ps2 = proposals@.take(i + 1);
                assert forall|j: int| 0 <= j < ps2.len() implies proposal_step(pre.cfg(), ls2[j], hs2[j], ls2[j + 1], hs2[j + 1], ps2[j], #[trigger] outs@.push(o)[j]) by {
                    if j < i {
                        assert(ps2[j] == proposals@.take(i as int)[j]);
                        assert(outs@.push(o)[j] == outs@[j]);
                    }
                }
                ls = ls2;
                hs = hs2;
            }
            outs.push(o);
            i = i + 1;
        }
        proof {
            assert(proposals@.take(i as int) =~= proposals@);
            assert(batch_applied(pre.cfg(), proposals@, outs@, ls, hs));
        }
        let ghost out_view = outs@;
        let r: Result<Vec<ProposalOutcome>, Error> = Ok(outs);
        assert(r->Ok_0@ == out_view);
        r
    }

    /// Asks relayers to look at source transaction `hash` again. Anyone may
    /// ask; it always succeeds and only reports the request.
    pub fn retry(&mut self, origin: Origin, hash: H256) -> (r: Result<(), Error>)
        requires
            old(self).wf(),
        ensures
            r is Ok,
            only_changes(*old(self), *final(self), old(self).key(), old(self).paused(), old(self).event_log().push(Event::Retry(hash))),
    {
        self.events.push(Event::Retry(hash));
        Ok(())
    }
}

} // verus!
