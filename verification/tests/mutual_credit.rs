//! Tests of the operation processors against the ledger: which operations
//! are accepted, which error rejects each invalid one, and the batch cap of
//! the outgoing side.

use offst::credit_calc::{
    credits_on_failure, credits_on_success, CreditCalculator, LinearSendPrice, NeighborRouteLink,
    NeighborsRoute, NetworkerSendPrice, PaymentProposalPair, PaymentProposals,
};
use offst::crypto::PublicKey;
use offst::incoming::{process_operation, process_operations_list, ProcessOperationError};
use offst::ledger::{TcMutation, TokenChannel};
use offst::outgoing::{OutgoingMc, QueueOperationError};
use offst::types::{FriendTcOp, RequestSendFunds, RequestsStatus};

fn key(seed: u8) -> PublicKey {
    PublicKey::from_bytes(vec![seed; 32]).unwrap()
}

fn request(id: u128, dest_payment: u128) -> RequestSendFunds {
    RequestSendFunds { request_id: id, route: vec![key(1), key(2)], dest_payment }
}

/// A ledger ready to accept requests from the remote side, with a ceiling of
/// one hundred granted to it.
fn open_ledger() -> TokenChannel {
    let mut mc = TokenChannel::new(&key(1), &key(2), 0);
    mc.mutate(&TcMutation::SetLocalRequestsStatus(RequestsStatus::Open));
    mc.mutate(&TcMutation::SetRemoteMaxDebt(100));
    mc
}

#[test]
fn test_incoming_request_freezes_debt() {
    let mut mc = open_ledger();
    let op = FriendTcOp::RequestSendFunds(request(1, 60));
    let out = process_operation(&mut mc, &op).unwrap();
    assert_eq!(mc.state().balance.remote_pending_debt, 60);
    assert_eq!(out.mc_mutations.len(), 2);
    assert!(out.incoming_message.is_some());
}

#[test]
fn test_incoming_request_requires_open_side() {
    let mut mc = TokenChannel::new(&key(1), &key(2), 0);
    let op = FriendTcOp::RequestSendFunds(request(1, 10));
    assert_eq!(process_operation(&mut mc, &op).unwrap_err(), ProcessOperationError::RequestsClosed);
}

#[test]
fn test_incoming_request_rejects_short_route() {
    let mut mc = open_ledger();
    let op = FriendTcOp::RequestSendFunds(RequestSendFunds {
        request_id: 1,
        route: vec![key(1)],
        dest_payment: 10,
    });
    assert_eq!(process_operation(&mut mc, &op).unwrap_err(), ProcessOperationError::InvalidRoute);
}

#[test]
fn test_incoming_request_rejects_duplicate_id() {
    let mut mc = open_ledger();
    let op = FriendTcOp::RequestSendFunds(request(1, 10));
    process_operation(&mut mc, &op).unwrap();
    let op = FriendTcOp::RequestSendFunds(request(1, 10));
    assert_eq!(
        process_operation(&mut mc, &op).unwrap_err(),
        ProcessOperationError::RequestAlreadyExists
    );
}

#[test]
fn test_incoming_request_respects_the_ceiling() {
    let mut mc = open_ledger();
    let op = FriendTcOp::RequestSendFunds(request(1, 101));
    assert_eq!(
        process_operation(&mut mc, &op).unwrap_err(),
        ProcessOperationError::InsufficientTrust
    );
    // The ledger is untouched.
    assert_eq!(mc.state().balance.remote_pending_debt, 0);
}

#[test]
fn test_incoming_debt_overflow() {
    let mut mc = open_ledger();
    mc.mutate(&TcMutation::SetRemotePendingDebt(u128::MAX));
    let op = FriendTcOp::RequestSendFunds(request(1, 1));
    assert_eq!(
        process_operation(&mut mc, &op).unwrap_err(),
        ProcessOperationError::CreditsCalcOverflow
    );
}

#[test]
fn test_incoming_response_requires_pending_request() {
    let mut mc = open_ledger();
    let op = FriendTcOp::FailureSendFunds(offst::types::FailureSendFunds {
        request_id: 9,
        reporting_public_key: key(3),
        rand_nonce: offst::crypto::RandValue::from_bytes(vec![0; 16]).unwrap(),
        signature: offst::crypto::Signature::from_bytes(vec![0; 64]).unwrap(),
    });
    assert_eq!(
        process_operation(&mut mc, &op).unwrap_err(),
        ProcessOperationError::RequestDoesNotExist
    );
}

#[test]
fn test_incoming_release_needs_enough_frozen() {
    // A pending record that claims more than is actually frozen is refused.
    let mut mc = open_ledger();
    let op = FriendTcOp::RequestSendFunds(request(4, 30));
    process_operation(&mut mc, &op).unwrap();
    // Out-of-band shrinking of the frozen debt (as only a caller misusing
    // the raw mutations could do) is caught when the release comes.
    let mut other = TokenChannel::new(&key(2), &key(1), 0);
    other.mutate(&TcMutation::SetRemoteRequestsStatus(RequestsStatus::Open));
    other.mutate(&TcMutation::SetLocalMaxDebt(100));
    other.mutate(
        &TcMutation::InsertLocalPendingRequest(offst::types::PendingFriendRequest {
            request_id: 4,
            route: vec![key(1), key(2)],
            dest_payment: 30,
        }),
    );
    // Frozen debt left at zero: releasing thirty is impossible.
    let op = FriendTcOp::ResponseSendFunds(offst::types::ResponseSendFunds {
        request_id: 4,
        rand_nonce: offst::crypto::RandValue::from_bytes(vec![0; 16]).unwrap(),
        signature: offst::crypto::Signature::from_bytes(vec![0; 64]).unwrap(),
    });
    assert_eq!(
        process_operation(&mut other, &op).unwrap_err(),
        ProcessOperationError::InsufficientCredits
    );
}

#[test]
fn test_incoming_max_debt_too_high() {
    let mut mc = open_ledger();
    let op = FriendTcOp::SetRemoteMaxDebt(u128::MAX);
    assert_eq!(process_operation(&mut mc, &op).unwrap_err(), ProcessOperationError::MaxDebtTooHigh);
}

#[test]
fn test_batch_rejected_at_first_failure() {
    let mut mc = open_ledger();
    let ops = vec![
        FriendTcOp::RequestSendFunds(request(1, 10)),
        FriendTcOp::RequestSendFunds(request(1, 10)),
    ];
    let err = process_operations_list(&mut mc, ops).unwrap_err();
    assert_eq!(err.index, 1);
    assert_eq!(err.error, ProcessOperationError::RequestAlreadyExists);
}

#[test]
fn test_outgoing_batch_cap() {
    let mut mc = TokenChannel::new(&key(1), &key(2), 0);
    mc.mutate(&TcMutation::SetRemoteRequestsStatus(RequestsStatus::Open));
    mc.mutate(&TcMutation::SetLocalMaxDebt(1000));
    let mut outgoing = OutgoingMc::new(&mc, 2);
    assert!(outgoing.queue_operation(FriendTcOp::RequestSendFunds(request(1, 1))).is_ok());
    assert!(outgoing.queue_operation(FriendTcOp::RequestSendFunds(request(2, 1))).is_ok());
    assert!(matches!(
        outgoing.queue_operation(FriendTcOp::RequestSendFunds(request(3, 1))),
        Err(QueueOperationError::MaxOperationsReached)
    ));
    let (ops, mutations) = outgoing.done();
    assert_eq!(ops.len(), 2);
    assert_eq!(mutations.len(), 4);
}

#[test]
fn test_outgoing_invalid_operation() {
    let mc = TokenChannel::new(&key(1), &key(2), 0);
    // The remote side never opened for requests.
    let mut outgoing = OutgoingMc::new(&mc, 8);
    assert!(matches!(
        outgoing.queue_operation(FriendTcOp::RequestSendFunds(request(1, 1))),
        Err(QueueOperationError::InvalidOperation(ProcessOperationError::RequestsClosed))
    ));
}

#[test]
fn test_ledger_seeding_from_balance() {
    // The side in debt gets a ceiling that covers exactly that debt.
    let positive = TokenChannel::new(&key(1), &key(2), 30);
    assert_eq!(positive.state().balance.remote_max_debt, 30);
    assert_eq!(positive.state().balance.local_max_debt, 0);
    let negative = TokenChannel::new(&key(1), &key(2), -30);
    assert_eq!(negative.state().balance.remote_max_debt, 0);
    assert_eq!(negative.state().balance.local_max_debt, 30);
    assert_eq!(negative.balance_for_reset(), -30);
}

#[test]
fn test_credit_calculator_matches_free_functions() {
    let pair = |a: u32, b: u32, c: u32, d: u32| PaymentProposalPair {
        request: NetworkerSendPrice(LinearSendPrice { base: a, multiplier: b }),
        response: NetworkerSendPrice(LinearSendPrice { base: c, multiplier: d }),
    };
    let pairs = vec![pair(1, 2, 4, 3), pair(2, 3, 1, 5), pair(3, 2, 2, 5)];
    let dest = NetworkerSendPrice(LinearSendPrice { base: 2, multiplier: 3 });
    let route = NeighborsRoute {
        route_links: pairs
            .iter()
            .enumerate()
            .map(|(i, p)| NeighborRouteLink {
                node_public_key: key(i as u8),
                payment_proposal_pair: *p,
            })
            .collect(),
        dest_response_proposal: dest,
    };
    let calc = CreditCalculator::new(&route, 30, 10, 40).unwrap();
    let proposals = PaymentProposals { middle_props: pairs, dest_response_proposal: dest };

    // Node 1 sits route_len - 1 - 1 = 3 hops from the destination.
    assert_eq!(
        calc.credits_on_success(1, 20).unwrap(),
        credits_on_success(&proposals, 10, 30, 20, 40, 3).unwrap()
    );
    assert_eq!(calc.credits_to_freeze(1).unwrap(), credits_on_success(&proposals, 10, 30, 0, 40, 3).unwrap());
    // Node 1 paid when node 2 (two hops from the destination) reports.
    assert_eq!(
        calc.credits_on_failure(1, 2).unwrap(),
        credits_on_failure(&proposals, 30, 1, 2).unwrap()
    );
}
