use vstd::prelude::*;
use crate::bridge::{
    authorized, deposit_done, execute_done, key_is_clear, pause_done, proposal_step,
    set_mpc_key_done, signed_by_key, unchanged, unpause_done, Pallet,
};
use crate::config::Config;
use crate::holdings::Holdings;
use crate::nonces::NonceLedger;
use crate::types::{BridgeKey, DepositNonce, Error, MultiAsset, MultiLocation, Origin, Proposal, ProposalOutcome};

verus! {

/// The key is set at most once: a call that stores a non-empty key succeeds
/// only on an empty key, and every later call fails, with
/// `MpcKeyNotUpdatable` for an authorized origin, whatever key it passes.
pub proof fn lemma_key_set_once(
    s0: Pallet,
    s1: Pallet,
    s2: Pallet,
    o1: Origin,
    k1: BridgeKey,
    r1: Result<(), Error>,
    o2: Origin,
    k2: BridgeKey,
    r2: Result<(), Error>,
)
    requires
        set_mpc_key_done(s0, s1, o1, k1, r1),
        set_mpc_key_done(s1, s2, o2, k2, r2),
        r1 is Ok,
        !key_is_clear(k1),
    ensures
        key_is_clear(s0.key()),
        r2 is Err,
        authorized(o2) ==> r2 == Err::<(), Error>(Error::MpcKeyNotUpdatable),
        s2.key() == k1,
{
}

/// Without a key, pausing and unpausing fail and change nothing; for an
/// authorized origin the error is `MissingMpcKey`.
pub proof fn lemma_missing_key_blocks_switch(
    s0: Pallet,
    s1: Pallet,
    s2: Pallet,
    o1: Origin,
    r1: Result<(), Error>,
    o2: Origin,
    r2: Result<(), Error>,
)
    requires
        key_is_clear(s0.key()),
        pause_done(s0, s1, o1, r1),
        unpause_done(s0, s2, o2, r2),
    ensures
        r1 is Err && unchanged(s0, s1),
        r2 is Err && unchanged(s0, s2),
        authorized(o1) ==> r1 == Err::<(), Error>(Error::MissingMpcKey),
        authorized(o2) ==> r2 == Err::<(), Error>(Error::MissingMpcKey),
{
}

/// With a key set and an authorized origin, pausing a paused bridge succeeds
/// and leaves it paused, while unpausing an unpaused bridge fails with
/// `BridgeUnpaused`.
pub proof fn lemma_pause_idempotent_unpause_strict(
    s0: Pallet,
    s1: Pallet,
    t0: Pallet,
    t1: Pallet,
    o: Origin,
    r1: Result<(), Error>,
    r2: Result<(), Error>,
)
    requires
        authorized(o),
        !key_is_clear(s0.key()),
        s0.paused(),
        pause_done(s0, s1, o, r1),
        !key_is_clear(t0.key()),
        !t0.paused(),
        unpause_done(t0, t1, o, r2),
    ensures
        r1 is Ok,
        s1.paused(),
        r2 == Err::<(), Error>(Error::BridgeUnpaused),
        unchanged(t0, t1),
{
}

/// An origin that may not administer the bridge fails with `BadOrigin` on
/// `set_mpc_key`, `pause_bridge` and `unpause_bridge`, and changes nothing.
pub proof fn lemma_unauthorized_changes_nothing(
    s0: Pallet,
    s1: Pallet,
    s2: Pallet,
    s3: Pallet,
    o: Origin,
    k: BridgeKey,
    r1: Result<(), Error>,
    r2: Result<(), Error>,
    r3: Result<(), Error>,
)
    requires
        !authorized(o),
        set_mpc_key_done(s0, s1, o, k, r1),
        pause_done(s0, s2, o, r2),
        unpause_done(s0, s3, o, r3),
    ensures
        r1 == Err::<(), Error>(Error::BadOrigin) && unchanged(s0, s1),
        r2 == Err::<(), Error>(Error::BadOrigin) && unchanged(s0, s2),
        r3 == Err::<(), Error>(Error::BadOrigin) && unchanged(s0, s3),
{
}

/// Two successful deposits in a row to one domain receive consecutive nonces.
pub proof fn lemma_deposit_nonces_consecutive(
    s0: Pallet,
    s1: Pallet,
    s2: Pallet,
    o1: Origin,
    a1: MultiAsset,
    d1: MultiLocation,
    r1: Result<DepositNonce, Error>,
    o2: Origin,
    a2: MultiAsset,
    d2: MultiLocation,
    r2: Result<DepositNonce, Error>,
)
    requires
        deposit_done(s0, s1, o1, a1, d1, r1),
        deposit_done(s1, s2, o2, a2, d2, r2),
        r1 is Ok,
        r2 is Ok,
        d1.domain_id == d2.domain_id,
    ensures
        r2->Ok_0 == r1->Ok_0 + 1,
{
}

/// A batch that the bridge key did not sign fails with `BadMpcSignature` on a
/// running bridge with a key, and uses none of its nonces.
pub proof fn lemma_bad_signature_consumes_nothing(
    s0: Pallet,
    s1: Pallet,
    ps: Seq<Proposal>,
    signer: Option<BridgeKey>,
    r: Result<Vec<ProposalOutcome>, Error>,
)
    requires
        !s0.paused(),
        !key_is_clear(s0.key()),
        !signed_by_key(s0, signer),
        execute_done(s0, s1, ps, signer, r),
    ensures
        r == Err::<Vec<ProposalOutcome>, Error>(Error::BadMpcSignature),
        s1 == s0,
        forall|i: int| 0 <= i < ps.len() ==> s1.ledger().is_used(ps[i].origin_domain_id, ps[i].deposit_nonce)
            == s0.ledger().is_used(ps[i].origin_domain_id, ps[i].deposit_nonce),
{
}

/// Once a proposal has executed, a later proposal with the same origin domain
/// and nonce is skipped as already complete and changes neither nonces nor
/// balances, whatever else happened in between that kept the nonce used.
pub proof fn lemma_executed_proposal_skipped_after(
    cfg: Config,
    l0: NonceLedger,
    h0: Holdings,
    l1: NonceLedger,
    h1: Holdings,
    p: Proposal,
    l2: NonceLedger,
    h2: Holdings,
    l3: NonceLedger,
    h3: Holdings,
    q: Proposal,
    o: ProposalOutcome,
)
    requires
        proposal_step(cfg, l0, h0, l1, h1, p, ProposalOutcome::Executed),
        forall|d, n| #[trigger] l1.is_used(d, n) ==> l2.is_used(d, n),
        q.origin_domain_id == p.origin_domain_id,
        q.deposit_nonce == p.deposit_nonce,
        proposal_step(cfg, l2, h2, l3, h3, q, o),
    ensures
        o == ProposalOutcome::AlreadyComplete,
        l3 == l2,
        h3 == h2,
{
    assert(l1.is_used(p.origin_domain_id, p.deposit_nonce));
}

} // verus!
