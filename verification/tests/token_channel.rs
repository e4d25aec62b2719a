//! Tests of the token-channel state machine: genesis determinism, the
//! request/response exchange, and duplicate, retransmit, inconsistency and
//! counter-overflow detection.

use ed25519_dalek::Signer;
use ed25519_dalek::SigningKey;

use offst::crypto::{PublicKey, RandValue, Signature};
use offst::im_map::im_map_contains;
use offst::incoming::{IncomingMessage, ProcessOperationError};
use offst::token_channel::{
    ReceiveMoveTokenError, ReceiveMoveTokenOutput, SetDirection, TcMutation, TokenChannel,
};
use offst::types::{
    FriendMoveToken, FriendTcOp, RequestSendFunds, ResponseSendFunds, UnsignedFriendMoveToken,
};

fn make_keypair(seed: u8) -> (SigningKey, PublicKey) {
    let sk = SigningKey::from_bytes(&[seed; 32]);
    let pk = PublicKey::from_bytes(sk.verifying_key().to_bytes().to_vec()).unwrap();
    (sk, pk)
}

fn nonce(seed: u8) -> RandValue {
    RandValue::from_bytes(vec![seed; 16]).unwrap()
}

fn sign(sk: &SigningKey, buffer: &[u8]) -> Signature {
    Signature::from_bytes(sk.sign(buffer).to_bytes().to_vec()).unwrap()
}

/// Two fresh channels for the same pair of keys, ordered so that the first
/// one holds the outgoing direction (its key digest is the lower one).
fn fresh_pair() -> (SigningKey, PublicKey, TokenChannel, SigningKey, PublicKey, TokenChannel) {
    let (sk1, pk1) = make_keypair(1);
    let (sk2, pk2) = make_keypair(2);
    let tc1 = TokenChannel::new(&pk1, &pk2);
    let tc2 = TokenChannel::new(&pk2, &pk1);
    if tc1.is_outgoing() {
        (sk1, pk1, tc1, sk2, pk2, tc2)
    } else {
        (sk2, pk2, tc2, sk1, pk1, tc1)
    }
}

/// Build, sign and commit the next outgoing move-token message of `tc`,
/// carrying `operations`. Returns the message as it would travel.
fn send_message(
    tc: &mut TokenChannel,
    sk: &SigningKey,
    operations: Vec<FriendTcOp>,
    nonce_seed: u8,
) -> FriendMoveToken {
    let mut outgoing_mc = tc.begin_outgoing_move_token().unwrap();
    for op in operations {
        outgoing_mc.queue_operation(op).unwrap();
    }
    let (ops, mc_mutations) = outgoing_mc.done();
    for m in mc_mutations {
        tc.mutate(&TcMutation::McMutation(m));
    }
    let unsigned = tc.create_friend_move_token(ops, nonce(nonce_seed)).unwrap();
    let buffer = unsigned.sign_buffer();
    let token = FriendMoveToken::from_unsigned(unsigned, sign(sk, &buffer));
    tc.mutate(&TcMutation::SetDirection(SetDirection::Outgoing(token.clone())));
    token
}

/// Receive a message and commit its mutations.
fn receive_message(tc: &mut TokenChannel, token: FriendMoveToken) -> Vec<IncomingMessage> {
    match tc.simulate_receive_move_token(token) {
        Ok(ReceiveMoveTokenOutput::Received(move_token_received)) => {
            for m in &move_token_received.mutations {
                tc.mutate(m);
            }
            move_token_received.incoming_messages
        }
        other => panic!("expected a received message, got {:?}", other.map(|_| ())),
    }
}

#[test]
fn test_genesis_determinism() {
    let (_sk_a, _pk_a, tc_a, _sk_b, _pk_b, tc_b) = fresh_pair();
    // Exactly one side starts outgoing.
    assert!(tc_a.is_outgoing());
    assert!(!tc_b.is_outgoing());
    // Both sides computed the same placeholder first message.
    let a_token = tc_a.get_outgoing_move_token().unwrap().friend_move_token;
    let b_token = tc_b.get_last_incoming_move_token().unwrap();
    assert!(a_token.deep_eq(b_token));
    assert_eq!(a_token.move_token_counter, 0);
    assert_eq!(a_token.inconsistency_counter, 0);
    assert_eq!(a_token.balance, 0);
}

#[test]
fn test_duplicate_detection() {
    // The incoming side at genesis holds the placeholder message; receiving
    // a byte-identical copy is a duplicate, not an error, and performs no
    // mutation.
    let (_sk_a, _pk_a, tc_a, _sk_b, _pk_b, tc_b) = fresh_pair();
    let genesis_token = tc_a.get_outgoing_move_token().unwrap().friend_move_token;
    match tc_b.simulate_receive_move_token(genesis_token) {
        Ok(ReceiveMoveTokenOutput::Duplicate) => {}
        other => panic!("expected a duplicate, got {:?}", other.map(|_| ())),
    }
}

/// The full request/response scenario: the second sender opens its side and
/// grants credit (counter one), the first sender sends a payment request
/// (counter two) which freezes pending debt, and the response (counter
/// three) resolves the request and moves the balance.
#[test]
fn test_request_response_scenario() {
    let (sk_a, _pk_a, mut tc_a, sk_b, _pk_b, mut tc_b) = fresh_pair();

    // B (the side that received the placeholder) opens its side for
    // requests and grants A a credit ceiling.
    let m1 = send_message(
        &mut tc_b,
        &sk_b,
        vec![FriendTcOp::EnableRequests, FriendTcOp::SetRemoteMaxDebt(100)],
        11,
    );
    assert_eq!(m1.move_token_counter, 1);
    let msgs = receive_message(&mut tc_a, m1.clone());
    assert_eq!(msgs.len(), 0);
    assert_eq!(tc_a.get_mutual_credit().state().balance.local_max_debt, 100);
    assert_eq!(tc_a.get_move_token_counter(), 1);

    // A sends a payment request toward B; fifty credits are frozen.
    let route = vec![
        tc_a.get_mutual_credit().state().idents.local_public_key.clone(),
        tc_a.get_mutual_credit().state().idents.remote_public_key.clone(),
    ];
    let request = RequestSendFunds { request_id: 7, route, dest_payment: 50 };
    let m2 = send_message(&mut tc_a, &sk_a, vec![FriendTcOp::RequestSendFunds(request)], 12);
    assert_eq!(m2.move_token_counter, 2);
    assert_eq!(tc_a.get_mutual_credit().state().balance.local_pending_debt, 50);

    let msgs = receive_message(&mut tc_b, m2);
    assert_eq!(msgs.len(), 1);
    assert!(matches!(msgs[0], IncomingMessage::Request(_)));
    // B's ledger reflects the frozen pending debt.
    assert_eq!(tc_b.get_mutual_credit().state().balance.remote_pending_debt, 50);
    assert!(im_map_contains(
        &tc_b.get_mutual_credit().state().pending_requests.pending_remote_requests,
        7
    ));

    // B responds; the pending request resolves and the balance moves.
    let response = ResponseSendFunds { request_id: 7, rand_nonce: nonce(13), signature: sig_filler() };
    let m3 = send_message(&mut tc_b, &sk_b, vec![FriendTcOp::ResponseSendFunds(response)], 14);
    assert_eq!(m3.move_token_counter, 3);
    assert_eq!(tc_b.get_mutual_credit().state().balance.balance, 50);

    let msgs = receive_message(&mut tc_a, m3);
    assert_eq!(msgs.len(), 1);
    assert!(matches!(msgs[0], IncomingMessage::Response(_)));
    // The pending request is removed from A's local pending set and the
    // balance is updated by the response amount.
    assert!(!im_map_contains(
        &tc_a.get_mutual_credit().state().pending_requests.pending_local_requests,
        7
    ));
    assert_eq!(tc_a.get_mutual_credit().state().balance.local_pending_debt, 0);
    assert_eq!(tc_a.get_mutual_credit().state().balance.balance, -50);
}

fn sig_filler() -> Signature {
    Signature::from_bytes(vec![9u8; 64]).unwrap()
}

#[test]
fn test_retransmit_detection() {
    // A is outgoing after sending its own message; the peer resending its
    // previous message means it never received ours: retransmit, not an
    // inconsistency.
    let (sk_a, _pk_a, mut tc_a, sk_b, _pk_b, mut tc_b) = fresh_pair();
    let m1 = send_message(&mut tc_b, &sk_b, vec![FriendTcOp::EnableRequests], 21);
    receive_message(&mut tc_a, m1.clone());
    let m2 = send_message(&mut tc_a, &sk_a, vec![], 22);
    // B never saw m2 and resends m1.
    match tc_a.simulate_receive_move_token(m1) {
        Ok(ReceiveMoveTokenOutput::RetransmitOutgoing(token)) => {
            assert!(token.deep_eq(&m2));
        }
        other => panic!("expected a retransmission, got {:?}", other.map(|_| ())),
    }
}

#[test]
fn test_chain_inconsistency() {
    // A message signed by the peer but chaining from neither side's token is
    // a chain inconsistency.
    let (_sk_a, _pk_a, tc_a, sk_b, _pk_b, _tc_b) = fresh_pair();
    let unsigned = UnsignedFriendMoveToken {
        operations: vec![],
        old_token: sig_filler(),
        inconsistency_counter: 0,
        move_token_counter: 1,
        balance: 0,
        local_pending_debt: 0,
        remote_pending_debt: 0,
        rand_nonce: nonce(31),
    };
    let buffer = unsigned.sign_buffer();
    let token = FriendMoveToken::from_unsigned(unsigned, sign(&sk_b, &buffer));
    assert!(matches!(
        tc_a.simulate_receive_move_token(token),
        Err(ReceiveMoveTokenError::ChainInconsistency)
    ));
}

#[test]
fn test_invalid_signature() {
    // A message with the right chaining token but a bad signature is
    // rejected before anything else is looked at.
    let (sk_a, _pk_a, mut tc_a, sk_b, _pk_b, mut tc_b) = fresh_pair();
    let m1 = send_message(&mut tc_b, &sk_b, vec![], 41);
    let mut bad = m1.clone();
    bad.new_token = sig_filler();
    assert!(matches!(
        tc_a.simulate_receive_move_token(bad),
        Err(ReceiveMoveTokenError::InvalidSignature)
    ));
    // And a wrong signer is also rejected: a message signed by ourselves.
    let mut self_signed = m1;
    let resign_buffer = self_signed.sign_buffer();
    self_signed.new_token = sign(&sk_a, &resign_buffer);
    assert!(matches!(
        tc_a.simulate_receive_move_token(self_signed),
        Err(ReceiveMoveTokenError::InvalidSignature)
    ));
}

/// Inject an overflowed move-token counter: the next message in sequence
/// is refused with a counter overflow, and the channel state is unchanged.
#[test]
fn test_move_token_counter_overflow() {
    let (_sk_a, pk_a, _tc_a, sk_b, pk_b, _tc_b) = fresh_pair();
    // Rebuild a channel whose current outgoing message carries the largest
    // possible counter, as a locally initiated reset would.
    let reset_token = FriendMoveToken {
        operations: vec![],
        old_token: sig_filler(),
        inconsistency_counter: 0,
        move_token_counter: u128::MAX,
        balance: 0,
        local_pending_debt: 0,
        remote_pending_debt: 0,
        rand_nonce: nonce(51),
        new_token: sig_filler(),
    };
    let tc = TokenChannel::new_from_local_reset(&pk_a, &pk_b, &reset_token, 0, None);
    assert!(tc.is_outgoing());

    let unsigned = UnsignedFriendMoveToken {
        operations: vec![],
        old_token: sig_filler(),  // chains from our reset message
        inconsistency_counter: 0,
        move_token_counter: 0,
        balance: 0,
        local_pending_debt: 0,
        remote_pending_debt: 0,
        rand_nonce: nonce(52),
    };
    let buffer = unsigned.sign_buffer();
    let next = FriendMoveToken::from_unsigned(unsigned, sign(&sk_b, &buffer));
    assert!(matches!(
        tc.simulate_receive_move_token(next),
        Err(ReceiveMoveTokenError::MoveTokenCounterOverflow)
    ));
    // The receive is pure: the channel still chains from the same token.
    assert_eq!(tc.get_move_token_counter(), u128::MAX);
}

#[test]
fn test_invalid_counters_and_stated_balance() {
    let (_sk_a, _pk_a, tc_a, sk_b, _pk_b, tc_b) = fresh_pair();

    // Wrong inconsistency counter:
    let mut unsigned = tc_b.create_friend_move_token(vec![], nonce(61)).unwrap();
    unsigned.inconsistency_counter = 5;
    let buffer = unsigned.sign_buffer();
    let token = FriendMoveToken::from_unsigned(unsigned, sign(&sk_b, &buffer));
    assert!(matches!(
        tc_a.simulate_receive_move_token(token),
        Err(ReceiveMoveTokenError::InvalidInconsistencyCounter)
    ));

    // Wrong move-token counter (skipping one ahead):
    let mut unsigned = tc_b.create_friend_move_token(vec![], nonce(62)).unwrap();
    unsigned.move_token_counter = unsigned.move_token_counter + 1;
    let buffer = unsigned.sign_buffer();
    let token = FriendMoveToken::from_unsigned(unsigned, sign(&sk_b, &buffer));
    assert!(matches!(
        tc_a.simulate_receive_move_token(token),
        Err(ReceiveMoveTokenError::InvalidMoveTokenCounter)
    ));

    // A stated balance that does not match the replayed ledger:
    let mut unsigned = tc_b.create_friend_move_token(vec![], nonce(63)).unwrap();
    unsigned.balance = 77;
    let buffer = unsigned.sign_buffer();
    let token = FriendMoveToken::from_unsigned(unsigned, sign(&sk_b, &buffer));
    assert!(matches!(
        tc_a.simulate_receive_move_token(token),
        Err(ReceiveMoveTokenError::InvalidStatedBalance)
    ));

    // An operation the ledger refuses (a route too short to be a route):
    let bad_request = RequestSendFunds { request_id: 9, route: vec![], dest_payment: 1 };
    let mut unsigned = tc_b
        .create_friend_move_token(vec![FriendTcOp::RequestSendFunds(bad_request)], nonce(64))
        .unwrap();
    unsigned.balance = 0;
    let buffer = unsigned.sign_buffer();
    let token = FriendMoveToken::from_unsigned(unsigned, sign(&sk_b, &buffer));
    match tc_a.simulate_receive_move_token(token) {
        Err(ReceiveMoveTokenError::InvalidTransaction(e)) => {
            assert_eq!(e.index, 0);
            assert_eq!(e.error, ProcessOperationError::InvalidRoute);
        }
        other => panic!("expected an invalid transaction, got {:?}", other.map(|_| ())),
    }

    // While already holding the token, producing a message is refused.
    assert!(tc_a.is_outgoing());
    assert!(tc_a.create_friend_move_token(vec![], nonce(65)).is_none());
}

#[test]
fn test_reset_terms() {
    let (_sk_a, _pk_a, tc_a, _sk_b, _pk_b, _tc_b) = fresh_pair();
    let reset_sig = sig_filler();
    let terms = tc_a.get_reset_terms(reset_sig);
    assert_eq!(terms.inconsistency_counter, 1);
    assert_eq!(terms.balance_for_reset, 0);
    // The buffer to sign starts with a 32-byte digest and embeds the
    // current token and the balance.
    let buffer = tc_a.reset_token_sign_buffer();
    assert_eq!(buffer.len(), 32 + 64 + 16);
}

#[test]
fn test_new_from_remote_reset() {
    let (_sk_a, pk_a, _tc_a, _sk_b, pk_b, _tc_b) = fresh_pair();
    let reset_token = FriendMoveToken {
        operations: vec![],
        old_token: sig_filler(),
        inconsistency_counter: 3,
        move_token_counter: 9,
        balance: 42,
        local_pending_debt: 0,
        remote_pending_debt: 0,
        rand_nonce: nonce(71),
        new_token: sig_filler(),
    };
    let tc = TokenChannel::new_from_remote_reset(&pk_a, &pk_b, &reset_token, 42);
    assert!(!tc.is_outgoing());
    assert_eq!(tc.get_mutual_credit().state().balance.balance, 42);
    assert_eq!(tc.get_mutual_credit().state().balance.remote_max_debt, 42);
    assert_eq!(tc.get_mutual_credit().state().balance.local_max_debt, 0);
    assert_eq!(tc.get_inconsistency_counter(), 3);
    assert_eq!(tc.get_move_token_counter(), 9);
    assert_eq!(tc.remote_max_debt(), 42);
}
