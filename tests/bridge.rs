use sygma_bridge::bridge::Pallet;
use sygma_bridge::config::{Config, FeeEntry};
use sygma_bridge::nonces::NonceLedger;
use sygma_bridge::payload::{decode_proposal_payload, encode_amount};
use sygma_bridge::types::{
    AccountId, Error, Event, MultiAsset, MultiLocation, Origin, Proposal, ProposalOutcome,
};

const ALICE: AccountId = 1;
const BOB: AccountId = 5;
const TRANSFER_RESERVE: AccountId = 100;
const FEE_RESERVE: AccountId = 101;
const ASSET: u32 = 7;
const RID: [u8; 32] = [9; 32];
const DEST: u8 = 2;

fn config() -> Config {
    Config {
        dest_domain_id: 1,
        transfer_reserve_account: TRANSFER_RESERVE,
        fee_reserve_account: FEE_RESERVE,
        resource_pairs: vec![(ASSET, RID)],
        fees: vec![FeeEntry { domain: DEST, asset: ASSET, fee: 10 }],
        supported_domains: vec![DEST],
    }
}

fn new_bridge() -> Pallet {
    Pallet::new(config())
}

fn ready_bridge() -> Pallet {
    let mut b = new_bridge();
    assert_eq!(b.set_mpc_key(Origin::Root, [1; 32]), Ok(()));
    b
}

fn payload(amount: u128, who: u64) -> Vec<u8> {
    let mut v = amount.to_be_bytes().to_vec();
    v.extend_from_slice(&who.to_be_bytes());
    v
}

fn proposal(nonce: u64, amount: u128, who: u64) -> Proposal {
    Proposal { origin_domain_id: DEST, deposit_nonce: nonce, resource_id: RID, data: payload(amount, who) }
}

fn to(domain: u8) -> MultiLocation {
    MultiLocation { domain_id: domain, recipient: vec![0xaa, 0xbb, 0xcc] }
}

#[test]
fn set_mpc_key() {
    let default_key: [u8; 32] = Default::default();
    let test_mpc_key_a: [u8; 32] = [1; 32];
    let test_mpc_key_b: [u8; 32] = [2; 32];
    let mut b = new_bridge();

    assert_eq!(b.mpc_key(), default_key);

    assert_eq!(b.set_mpc_key(Origin::Root, test_mpc_key_a), Ok(()));
    assert_eq!(b.mpc_key(), test_mpc_key_a);

    assert_eq!(b.set_mpc_key(Origin::Root, test_mpc_key_b), Err(Error::MpcKeyNotUpdatable));
    assert_eq!(b.mpc_key(), test_mpc_key_a);

    let unauthorized_account = Origin::Signed(ALICE);
    assert_eq!(b.set_mpc_key(unauthorized_account, test_mpc_key_a), Err(Error::BadOrigin));
    assert_eq!(b.mpc_key(), test_mpc_key_a);
}

#[test]
fn pause_bridge() {
    let default_key: [u8; 32] = Default::default();
    let test_mpc_key_a: [u8; 32] = [1; 32];
    let mut b = new_bridge();

    assert_eq!(b.mpc_key(), default_key);

    assert_eq!(b.pause_bridge(Origin::Root), Err(Error::MissingMpcKey));
    assert!(!b.is_paused());
    assert!(b.events().is_empty());

    assert_eq!(b.set_mpc_key(Origin::Root, test_mpc_key_a), Ok(()));
    assert_eq!(b.mpc_key(), test_mpc_key_a);

    assert_eq!(b.pause_bridge(Origin::Root), Ok(()));
    assert!(b.is_paused());
    assert_eq!(b.events().last(), Some(&Event::BridgePaused(1)));

    assert_eq!(b.pause_bridge(Origin::Root), Ok(()));
    assert!(b.is_paused());
    assert_eq!(b.events().last(), Some(&Event::BridgePaused(1)));
    assert_eq!(b.events().len(), 2);

    let unauthorized_account = Origin::Signed(ALICE);
    assert_eq!(b.pause_bridge(unauthorized_account), Err(Error::BadOrigin));
    assert!(b.is_paused());
    assert_eq!(b.events().len(), 2);
}

#[test]
fn unpause_bridge() {
    let default_key: [u8; 32] = Default::default();
    let test_mpc_key_a: [u8; 32] = [1; 32];
    let mut b = new_bridge();

    assert_eq!(b.mpc_key(), default_key);

    assert_eq!(b.unpause_bridge(Origin::Root), Err(Error::MissingMpcKey));

    assert_eq!(b.set_mpc_key(Origin::Root, test_mpc_key_a), Ok(()));
    assert_eq!(b.mpc_key(), test_mpc_key_a);
    assert_eq!(b.pause_bridge(Origin::Root), Ok(()));
    assert_eq!(b.events().last(), Some(&Event::BridgePaused(1)));

    assert!(b.is_paused());

    assert_eq!(b.unpause_bridge(Origin::Root), Ok(()));
    assert_eq!(b.events().last(), Some(&Event::BridgeUnpaused(1)));

    assert_eq!(b.unpause_bridge(Origin::Root), Err(Error::BridgeUnpaused));

    let unauthorized_account = Origin::Signed(ALICE);
    assert_eq!(b.unpause_bridge(unauthorized_account), Err(Error::BadOrigin));
    assert!(!b.is_paused());
}

#[test]
fn outbound_nonces_count_up_from_zero() {
    let mut l = NonceLedger::new();
    assert_eq!(l.next_outbound_nonce(3), 0);
    assert_eq!(l.next_outbound_nonce(3), 1);
    assert_eq!(l.next_outbound_nonce(4), 0);
    assert_eq!(l.next_outbound_nonce(3), 2);
    assert_eq!(l.outbound_count(3), 3);
    assert_eq!(l.outbound_count(4), 1);
    assert_eq!(l.outbound_count(255), 0);
}

#[test]
fn inbound_nonce_consumed_once() {
    let mut l = NonceLedger::new();
    assert!(!l.is_consumed(1, 9));
    assert!(l.try_consume_inbound(1, 9));
    assert!(!l.try_consume_inbound(1, 9));
    assert!(!l.try_consume_inbound(1, 9));
    assert!(l.is_consumed(1, 9));
    assert!(!l.is_consumed(2, 9));
    assert!(l.try_consume_inbound(2, 9));
    assert!(l.try_consume_inbound(1, 10));
}

#[test]
fn second_key_fails_whatever_its_value() {
    let mut b = ready_bridge();
    assert_eq!(b.set_mpc_key(Origin::Root, [1; 32]), Err(Error::MpcKeyNotUpdatable));
    assert_eq!(b.set_mpc_key(Origin::Root, [0; 32]), Err(Error::MpcKeyNotUpdatable));
    assert_eq!(b.set_mpc_key(Origin::Root, [3; 32]), Err(Error::MpcKeyNotUpdatable));
    assert_eq!(b.mpc_key(), [1; 32]);
}

#[test]
fn empty_key_leaves_key_settable() {
    let mut b = new_bridge();
    assert_eq!(b.set_mpc_key(Origin::Root, [0; 32]), Ok(()));
    assert_eq!(b.set_mpc_key(Origin::Root, [4; 32]), Ok(()));
    assert_eq!(b.mpc_key(), [4; 32]);
}

#[test]
fn missing_key_blocks_pause_and_unpause() {
    let mut b = new_bridge();
    assert_eq!(b.pause_bridge(Origin::Root), Err(Error::MissingMpcKey));
    assert_eq!(b.unpause_bridge(Origin::Root), Err(Error::MissingMpcKey));
    assert_eq!(b.pause_bridge(Origin::Signed(ALICE)), Err(Error::BadOrigin));
    assert_eq!(b.unpause_bridge(Origin::Unsigned), Err(Error::BadOrigin));
    assert!(!b.is_paused());
    assert!(b.events().is_empty());
}

#[test]
fn admin_switch_scenario() {
    let mut b = new_bridge();
    assert_eq!(b.pause_bridge(Origin::Root), Err(Error::MissingMpcKey));
    assert_eq!(b.set_mpc_key(Origin::Root, [1; 32]), Ok(()));
    assert_eq!(b.pause_bridge(Origin::Root), Ok(()));
    assert!(b.is_paused());
    assert_eq!(b.events(), &vec![Event::BridgePaused(1)]);
    assert_eq!(b.unpause_bridge(Origin::Root), Ok(()));
    assert!(!b.is_paused());
    assert_eq!(b.unpause_bridge(Origin::Root), Err(Error::BridgeUnpaused));
    assert_eq!(b.events(), &vec![Event::BridgePaused(1), Event::BridgeUnpaused(1)]);
}

#[test]
fn unauthorized_admin_calls_change_nothing() {
    let mut b = ready_bridge();
    for o in [Origin::Signed(ALICE), Origin::Unsigned] {
        assert_eq!(b.set_mpc_key(o, [5; 32]), Err(Error::BadOrigin));
        assert_eq!(b.pause_bridge(o), Err(Error::BadOrigin));
        assert_eq!(b.unpause_bridge(o), Err(Error::BadOrigin));
    }
    assert_eq!(b.mpc_key(), [1; 32]);
    assert!(!b.is_paused());
    assert!(b.events().is_empty());
}

#[test]
fn batch_skips_used_nonce() {
    let mut b = ready_bridge();
    assert_eq!(b.endow(TRANSFER_RESERVE, ASSET, 1000), Ok(()));
    assert_eq!(b.execute_proposal(Origin::Signed(ALICE), vec![proposal(2, 30, BOB)], Some([1; 32])),
        Ok(vec![ProposalOutcome::Executed]));
    assert_eq!(b.balance_of(BOB, ASSET), 30);

    let batch = vec![proposal(1, 10, BOB), proposal(2, 30, BOB), proposal(3, 20, BOB)];
    let r = b.execute_proposal(Origin::Signed(ALICE), batch, Some([1; 32]));
    assert_eq!(r, Ok(vec![ProposalOutcome::Executed, ProposalOutcome::AlreadyComplete, ProposalOutcome::Executed]));
    assert_eq!(b.balance_of(BOB, ASSET), 60);
    assert_eq!(b.balance_of(TRANSFER_RESERVE, ASSET), 940);
    assert!(b.is_proposal_executed(DEST, 1));
    assert!(b.is_proposal_executed(DEST, 2));
    assert!(b.is_proposal_executed(DEST, 3));
}

#[test]
fn bad_signature_consumes_nothing() {
    let mut b = ready_bridge();
    assert_eq!(b.endow(TRANSFER_RESERVE, ASSET, 1000), Ok(()));
    let batch = vec![proposal(1, 10, BOB), proposal(2, 30, BOB)];
    assert_eq!(b.execute_proposal(Origin::Signed(ALICE), batch.clone(), Some([2; 32])), Err(Error::BadMpcSignature));
    assert_eq!(b.execute_proposal(Origin::Signed(ALICE), batch, None), Err(Error::BadMpcSignature));
    assert!(!b.is_proposal_executed(DEST, 1));
    assert!(!b.is_proposal_executed(DEST, 2));
    assert_eq!(b.balance_of(BOB, ASSET), 0);
    assert_eq!(b.balance_of(TRANSFER_RESERVE, ASSET), 1000);
}

#[test]
fn batch_refused_without_key_or_while_paused() {
    let mut b = new_bridge();
    assert_eq!(b.execute_proposal(Origin::Unsigned, vec![proposal(1, 1, BOB)], Some([0; 32])), Err(Error::MissingMpcKey));
    assert_eq!(b.set_mpc_key(Origin::Root, [1; 32]), Ok(()));
    assert_eq!(b.pause_bridge(Origin::Root), Ok(()));
    assert_eq!(b.execute_proposal(Origin::Unsigned, vec![proposal(1, 1, BOB)], Some([1; 32])), Err(Error::BridgePaused));
    assert!(!b.is_proposal_executed(DEST, 1));
}

#[test]
fn failed_proposals_keep_nonce_unused() {
    let mut b = ready_bridge();
    assert_eq!(b.endow(TRANSFER_RESERVE, ASSET, 50), Ok(()));
    let unbound = Proposal { origin_domain_id: DEST, deposit_nonce: 1, resource_id: [8; 32], data: payload(5, BOB) };
    let garbled = Proposal { origin_domain_id: DEST, deposit_nonce: 2, resource_id: RID, data: vec![1, 2, 3] };
    let too_much = proposal(3, 51, BOB);
    let r = b.execute_proposal(Origin::Unsigned, vec![unbound, garbled, too_much], Some([1; 32]));
    assert_eq!(r, Ok(vec![ProposalOutcome::AssetNotBound, ProposalOutcome::InvalidData, ProposalOutcome::TransactorFailed]));
    assert!(!b.is_proposal_executed(DEST, 1));
    assert!(!b.is_proposal_executed(DEST, 2));
    assert!(!b.is_proposal_executed(DEST, 3));
    assert_eq!(b.balance_of(TRANSFER_RESERVE, ASSET), 50);
    assert_eq!(b.execute_proposal(Origin::Unsigned, vec![proposal(3, 50, BOB)], Some([1; 32])),
        Ok(vec![ProposalOutcome::Executed]));
    assert_eq!(b.balance_of(BOB, ASSET), 50);
}

#[test]
fn duplicate_in_one_batch_runs_once() {
    let mut b = ready_bridge();
    assert_eq!(b.endow(TRANSFER_RESERVE, ASSET, 100), Ok(()));
    let r = b.execute_proposal(Origin::Unsigned, vec![proposal(4, 10, BOB), proposal(4, 10, BOB)], Some([1; 32]));
    assert_eq!(r, Ok(vec![ProposalOutcome::Executed, ProposalOutcome::AlreadyComplete]));
    assert_eq!(b.balance_of(BOB, ASSET), 10);
}

#[test]
fn deposit_rolls_back_fee_when_principal_fails() {
    let mut b = ready_bridge();
    assert_eq!(b.endow(ALICE, ASSET, 50), Ok(()));
    let r = b.deposit(Origin::Signed(ALICE), MultiAsset { id: ASSET, amount: 45 }, to(DEST));
    assert_eq!(r, Err(Error::TransactorFailed));
    assert_eq!(b.balance_of(ALICE, ASSET), 50);
    assert_eq!(b.balance_of(FEE_RESERVE, ASSET), 0);
    assert_eq!(b.balance_of(TRANSFER_RESERVE, ASSET), 0);
    assert_eq!(b.dest_counts(DEST), 0);
    assert!(b.events().is_empty());
}

#[test]
fn deposit_fails_when_fee_cannot_be_paid() {
    let mut b = ready_bridge();
    assert_eq!(b.endow(ALICE, ASSET, 5), Ok(()));
    let r = b.deposit(Origin::Signed(ALICE), MultiAsset { id: ASSET, amount: 0 }, to(DEST));
    assert_eq!(r, Err(Error::TransactorFailed));
    assert_eq!(b.balance_of(ALICE, ASSET), 5);
}

#[test]
fn deposits_take_consecutive_nonces() {
    let mut b = ready_bridge();
    assert_eq!(b.endow(ALICE, ASSET, 1000), Ok(()));
    let r = b.deposit(Origin::Signed(ALICE), MultiAsset { id: ASSET, amount: 0x0102 }, to(DEST));
    assert_eq!(r, Ok(0));
    assert_eq!(b.balance_of(ALICE, ASSET), 1000 - 10 - 0x0102);
    assert_eq!(b.balance_of(FEE_RESERVE, ASSET), 10);
    assert_eq!(b.balance_of(TRANSFER_RESERVE, ASSET), 0x0102);
    let mut data = vec![0u8; 14];
    data.extend_from_slice(&[0x01, 0x02, 0xaa, 0xbb, 0xcc]);
    assert_eq!(b.events().last(), Some(&Event::Deposit(DEST, RID, 0, ALICE, data, vec![])));
    let r = b.deposit(Origin::Signed(ALICE), MultiAsset { id: ASSET, amount: 1 }, to(DEST));
    assert_eq!(r, Ok(1));
    assert_eq!(b.dest_counts(DEST), 2);
    assert_eq!(b.dest_counts(3), 0);
}

#[test]
fn deposit_errors() {
    let mut b = ready_bridge();
    assert_eq!(b.endow(ALICE, ASSET, 1000), Ok(()));
    let good = MultiAsset { id: ASSET, amount: 5 };
    assert_eq!(b.deposit(Origin::Root, good, to(DEST)), Err(Error::BadOrigin));
    assert_eq!(b.deposit(Origin::Unsigned, good, to(DEST)), Err(Error::BadOrigin));
    assert_eq!(b.deposit(Origin::Signed(ALICE), MultiAsset { id: 99, amount: 5 }, to(DEST)), Err(Error::AssetNotBound));
    assert_eq!(b.deposit(Origin::Signed(ALICE), good, to(3)), Err(Error::DestDomainNotSupported));
    let mut cfg = config();
    cfg.fees = vec![];
    let mut nofee = Pallet::new(cfg);
    assert_eq!(nofee.deposit(Origin::Signed(ALICE), good, to(DEST)), Err(Error::MissingFeeConfig));
    assert_eq!(b.pause_bridge(Origin::Root), Ok(()));
    assert_eq!(b.deposit(Origin::Signed(ALICE), good, to(DEST)), Err(Error::BridgePaused));
    assert_eq!(b.balance_of(ALICE, ASSET), 1000);
    assert_eq!(b.dest_counts(DEST), 0);
}

#[test]
fn retry_always_reports() {
    let mut b = new_bridge();
    assert_eq!(b.retry(Origin::Unsigned, [7; 32]), Ok(()));
    assert_eq!(b.retry(Origin::Signed(ALICE), [8; 32]), Ok(()));
    assert_eq!(b.events(), &vec![Event::Retry([7; 32]), Event::Retry([8; 32])]);
}

#[test]
fn amount_encoding_is_big_endian() {
    let v = encode_amount(0x0102);
    let mut expected = vec![0u8; 14];
    expected.extend_from_slice(&[1, 2]);
    assert_eq!(v, expected);
    assert_eq!(encode_amount(u128::MAX), vec![0xff; 16]);
}

#[test]
fn payload_decoding() {
    assert_eq!(decode_proposal_payload(&payload(300, 5)), Some((300, 5)));
    assert_eq!(decode_proposal_payload(&payload(u128::MAX, u64::MAX)), Some((u128::MAX, u64::MAX)));
    assert_eq!(decode_proposal_payload(&vec![0; 23]), None);
    assert_eq!(decode_proposal_payload(&vec![]), None);
}

#[test]
fn endow_refuses_overflow() {
    let mut b = new_bridge();
    assert_eq!(b.endow(ALICE, ASSET, u128::MAX), Ok(()));
    assert_eq!(b.endow(ALICE, ASSET, 1), Err(Error::TransactorFailed));
    assert_eq!(b.balance_of(ALICE, ASSET), u128::MAX);
}
