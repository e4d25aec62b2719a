//! Protocol data types of the funder: ledger operations, pending-request
//! records, the move-token message and the reset terms, together with their
//! spec-level views, canonical serialization and deep equality.

use vstd::prelude::*;

use crate::canonical_serialize::{
    be_i128, be_u128, be_u64, cser_seq, write_i128_be, write_u128_be, write_u64_be,
    CanonicalSerialize,
};
use crate::crypto::{PublicKey, RandValue, Signature};

verus! {

/// Whether one side of the channel accepts incoming payment requests.
#[derive(Clone, Copy, Debug, PartialEq, Eq, Structural)]
pub enum RequestsStatus {
    Open,
    Closed,
}

/// A request to send funds along `route`; on success the destination is paid
/// `dest_payment`.
#[derive(Debug)]
pub struct RequestSendFunds {
    pub request_id: u128,
    pub route: Vec<PublicKey>,
    pub dest_payment: u128,
}

/// A response confirming that a request reached its destination.
#[derive(Debug)]
pub struct ResponseSendFunds {
    pub request_id: u128,
    pub rand_nonce: RandValue,
    pub signature: Signature,
}

/// A failure reported by a node along the route of a request.
#[derive(Debug)]
pub struct FailureSendFunds {
    pub request_id: u128,
    pub reporting_public_key: PublicKey,
    pub rand_nonce: RandValue,
    pub signature: Signature,
}

/// A single ledger operation carried by a move-token message.
#[derive(Debug)]
pub enum FriendTcOp {
    EnableRequests,
    DisableRequests,
    SetRemoteMaxDebt(u128),
    RequestSendFunds(RequestSendFunds),
    ResponseSendFunds(ResponseSendFunds),
    FailureSendFunds(FailureSendFunds),
}

/// The record kept for an in-flight request until a response or failure
/// resolves it.
#[derive(Debug)]
pub struct PendingFriendRequest {
    pub request_id: u128,
    pub route: Vec<PublicKey>,
    pub dest_payment: u128,
}

pub open spec fn route_view(route: Seq<PublicKey>) -> Seq<Seq<u8>> {
    route.map_values(|pk: PublicKey| pk@)
}

pub struct RequestSendFundsV {
    pub request_id: u128,
    pub route: Seq<Seq<u8>>,
    pub dest_payment: u128,
}

pub struct ResponseSendFundsV {
    pub request_id: u128,
    pub rand_nonce: Seq<u8>,
    pub signature: Seq<u8>,
}

pub struct FailureSendFundsV {
    pub request_id: u128,
    pub reporting_public_key: Seq<u8>,
    pub rand_nonce: Seq<u8>,
    pub signature: Seq<u8>,
}

pub enum TcOpV {
    EnableRequests,
    DisableRequests,
    SetRemoteMaxDebt(u128),
    RequestSendFunds(RequestSendFundsV),
    ResponseSendFunds(ResponseSendFundsV),
    FailureSendFunds(FailureSendFundsV),
}

pub struct PendingFriendRequestV {
    pub request_id: u128,
    pub route: Seq<Seq<u8>>,
    pub dest_payment: u128,
}

impl View for RequestSendFunds {
    type V = RequestSendFundsV;

    open spec fn view(&self) -> RequestSendFundsV {
        RequestSendFundsV {
            request_id: self.request_id,
            route: route_view(self.route@),
            dest_payment: self.dest_payment,
        }
    }
}

impl View for ResponseSendFunds {
    type V = ResponseSendFundsV;

    open spec fn view(&self) -> ResponseSendFundsV {
        ResponseSendFundsV {
            request_id: self.request_id,
            rand_nonce: self.rand_nonce@,
            signature: self.signature@,
        }
    }
}

impl View for FailureSendFunds {
    type V = FailureSendFundsV;

    open spec fn view(&self) -> FailureSendFundsV {
        FailureSendFundsV {
            request_id: self.request_id,
            reporting_public_key: self.reporting_public_key@,
            rand_nonce: self.rand_nonce@,
            signature: self.signature@,
        }
    }
}

impl View for FriendTcOp {
    type V = TcOpV;

    open spec fn view(&self) -> TcOpV {
        match self {
            FriendTcOp::EnableRequests => TcOpV::EnableRequests,
            FriendTcOp::DisableRequests => TcOpV::DisableRequests,
            FriendTcOp::SetRemoteMaxDebt(n) => TcOpV::SetRemoteMaxDebt(*n),
            FriendTcOp::RequestSendFunds(r) => TcOpV::RequestSendFunds(r@),
            FriendTcOp::ResponseSendFunds(r) => TcOpV::ResponseSendFunds(r@),
            FriendTcOp::FailureSendFunds(r) => TcOpV::FailureSendFunds(r@),
        }
    }
}

impl View for PendingFriendRequest {
    type V = PendingFriendRequestV;

    open spec fn view(&self) -> PendingFriendRequestV {
        PendingFriendRequestV {
            request_id: self.request_id,
            route: route_view(self.route@),
            dest_payment: self.dest_payment,
        }
    }
}

pub open spec fn ops_view(ops: Seq<FriendTcOp>) -> Seq<TcOpV> {
    ops.map_values(|op: FriendTcOp| op@)
}

impl Clone for RequestSendFunds {
    fn clone(&self) -> (r: RequestSendFunds)
        ensures
            r@ == self@,
    {
        let route = clone_route(&self.route);
        RequestSendFunds { request_id: self.request_id, route, dest_payment: self.dest_payment }
    }
}

impl Clone for ResponseSendFunds {
    fn clone(&self) -> (r: ResponseSendFunds)
        ensures
            r@ == self@,
    {
        ResponseSendFunds {
            request_id: self.request_id,
            rand_nonce: self.rand_nonce.clone(),
            signature: self.signature.clone(),
        }
    }
}

impl Clone for FailureSendFunds {
    fn clone(&self) -> (r: FailureSendFunds)
        ensures
            r@ == self@,
    {
        FailureSendFunds {
            request_id: self.request_id,
            reporting_public_key: self.reporting_public_key.clone(),
            rand_nonce: self.rand_nonce.clone(),
            signature: self.signature.clone(),
        }
    }
}

impl Clone for FriendTcOp {
    fn clone(&self) -> (r: FriendTcOp)
        ensures
            r@ == self@,
    {
        match self {
            FriendTcOp::EnableRequests => FriendTcOp::EnableRequests,
            FriendTcOp::DisableRequests => FriendTcOp::DisableRequests,
            FriendTcOp::SetRemoteMaxDebt(n) => FriendTcOp::SetRemoteMaxDebt(*n),
            FriendTcOp::RequestSendFunds(r) => FriendTcOp::RequestSendFunds(r.clone()),
            FriendTcOp::ResponseSendFunds(r) => FriendTcOp::ResponseSendFunds(r.clone()),
            FriendTcOp::FailureSendFunds(r) => FriendTcOp::FailureSendFunds(r.clone()),
        }
    }
}

impl Clone for PendingFriendRequest {
    fn clone(&self) -> (r: PendingFriendRequest)
        ensures
            r@ == self@,
    {
        let route = clone_route(&self.route);
        PendingFriendRequest {
            request_id: self.request_id,
            route,
            dest_payment: self.dest_payment,
        }
    }
}

pub fn clone_route(route: &Vec<PublicKey>) -> (r: Vec<PublicKey>)
    ensures
        route_view(r@) == route_view(route@),
        r@.len() == route@.len(),
{
    let mut out: Vec<PublicKey> = Vec::new();
    let mut i: usize = 0;
    while i < route.len()
        invariant
            i <= route@.len(),
            out@.len() == i,
            forall|j: int| 0 <= j < i ==> out@[j]@ == route@[j]@,
        decreases route@.len() - i,
    {
        out.push(route[i].clone());
        i = i + 1;
    }
    proof {
        assert(route_view(out@) =~= route_view(route@));
    }
    out
}

pub fn clone_ops(ops: &Vec<FriendTcOp>) -> (r: Vec<FriendTcOp>)
    ensures
        ops_view(r@) == ops_view(ops@),
        r@.len() == ops@.len(),
{
    let mut out: Vec<FriendTcOp> = Vec::new();
    let mut i: usize = 0;
    while i < ops.len()
        invariant
            i <= ops@.len(),
            out@.len() == i,
            forall|j: int| 0 <= j < i ==> out@[j]@ == ops@[j]@,
        decreases ops@.len() - i,
    {
        out.push(ops[i].clone());
        i = i + 1;
    }
    proof {
        assert(ops_view(out@) =~= ops_view(ops@));
    }
    out
}

/// Build the pending record that tracks a request until it resolves.
pub fn create_pending_request(request_send_funds: &RequestSendFunds) -> (r: PendingFriendRequest)
    ensures
        r@.request_id == request_send_funds@.request_id,
        r@.route == request_send_funds@.route,
        r@.dest_payment == request_send_funds@.dest_payment,
{
    PendingFriendRequest {
        request_id: request_send_funds.request_id,
        route: clone_route(&request_send_funds.route),
        dest_payment: request_send_funds.dest_payment,
    }
}

pub fn route_eq(a: &Vec<PublicKey>, b: &Vec<PublicKey>) -> (r: bool)
    ensures
        r == (route_view(a@) == route_view(b@)),
{
    if a.len() != b.len() {
        proof {
            assert(route_view(a@).len() != route_view(b@).len());
        }
        return false;
    }
    let mut i: usize = 0;
    while i < a.len()
        invariant
            i <= a@.len(),
            a@.len() == b@.len(),
            forall|j: int| 0 <= j < i ==> a@[j]@ == b@[j]@,
        decreases a@.len() - i,
    {
        if !(a[i] == b[i]) {
            proof {
                assert(route_view(a@)[i as int] != route_view(b@)[i as int]);
            }
            return false;
        }
        i = i + 1;
    }
    proof {
        assert(route_view(a@) =~= route_view(b@));
    }
    true
}

pub fn op_eq(a: &FriendTcOp, b: &FriendTcOp) -> (r: bool)
    ensures
        r == (a@ == b@),
{
    match (a, b) {
        (FriendTcOp::EnableRequests, FriendTcOp::EnableRequests) => true,
        (FriendTcOp::DisableRequests, FriendTcOp::DisableRequests) => true,
        (FriendTcOp::SetRemoteMaxDebt(x), FriendTcOp::SetRemoteMaxDebt(y)) => x == y,
        (FriendTcOp::RequestSendFunds(x), FriendTcOp::RequestSendFunds(y)) => {
            x.request_id == y.request_id && x.dest_payment == y.dest_payment && route_eq(
                &x.route,
                &y.route,
            )
        },
        (FriendTcOp::ResponseSendFunds(x), FriendTcOp::ResponseSendFunds(y)) => {
            x.request_id == y.request_id && x.rand_nonce == y.rand_nonce && x.signature
                == y.signature
        },
        (FriendTcOp::FailureSendFunds(x), FriendTcOp::FailureSendFunds(y)) => {
            x.request_id == y.request_id && x.reporting_public_key == y.reporting_public_key
                && x.rand_nonce == y.rand_nonce && x.signature == y.signature
        },
        _ => false,
    }
}

pub fn ops_eq(a: &Vec<FriendTcOp>, b: &Vec<FriendTcOp>) -> (r: bool)
    ensures
        r == (ops_view(a@) == ops_view(b@)),
{
    if a.len() != b.len() {
        proof {
            assert(ops_view(a@).len() != ops_view(b@).len());
        }
        return false;
    }
    let mut i: usize = 0;
    while i < a.len()
        invariant
            i <= a@.len(),
            a@.len() == b@.len(),
            forall|j: int| 0 <= j < i ==> a@[j]@ == b@[j]@,
        decreases a@.len() - i,
    {
        if !op_eq(&a[i], &b[i]) {
            proof {
                assert(ops_view(a@)[i as int] != ops_view(b@)[i as int]);
            }
            return false;
        }
        i = i + 1;
    }
    proof {
        assert(ops_view(a@) =~= ops_view(b@));
    }
    true
}

impl CanonicalSerialize for PublicKey {
    open spec fn cser(&self) -> Seq<u8> {
        self@
    }

    fn canonical_serialize(&self) -> (r: Vec<u8>)
        ensures
            r@ == self.cser(),
    {
        let r = self.bytes.clone();
        proof {
            assert(r@ =~= self.bytes@);
        }
        r
    }
}

impl CanonicalSerialize for RandValue {
    open spec fn cser(&self) -> Seq<u8> {
        self@
    }

    fn canonical_serialize(&self) -> (r: Vec<u8>)
        ensures
            r@ == self.cser(),
    {
        let r = self.bytes.clone();
        proof {
            assert(r@ =~= self.bytes@);
        }
        r
    }
}

impl CanonicalSerialize for Signature {
    open spec fn cser(&self) -> Seq<u8> {
        self@
    }

    fn canonical_serialize(&self) -> (r: Vec<u8>)
        ensures
            r@ == self.cser(),
    {
        let r = self.bytes.clone();
        proof {
            assert(r@ =~= self.bytes@);
        }
        r
    }
}

impl CanonicalSerialize for RequestSendFunds {
    open spec fn cser(&self) -> Seq<u8> {
        be_u128(self.request_id) + self.route.cser() + be_u128(self.dest_payment)
    }

    fn canonical_serialize(&self) -> (r: Vec<u8>)
        ensures
            r@ == self.cser(),
    {
        let mut res_data: Vec<u8> = Vec::new();
        write_u128_be(&mut res_data, self.request_id);
        let mut route_data = self.route.canonical_serialize();
        res_data.append(&mut route_data);
        write_u128_be(&mut res_data, self.dest_payment);
        proof {
            assert(res_data@ =~= self.cser());
        }
        res_data
    }
}

impl CanonicalSerialize for ResponseSendFunds {
    open spec fn cser(&self) -> Seq<u8> {
        be_u128(self.request_id) + self.rand_nonce@ + self.signature@
    }

    fn canonical_serialize(&self) -> (r: Vec<u8>)
        ensures
            r@ == self.cser(),
    {
        let mut res_data: Vec<u8> = Vec::new();
        write_u128_be(&mut res_data, self.request_id);
        let mut nonce_data = self.rand_nonce.canonical_serialize();
        res_data.append(&mut nonce_data);
        let mut sig_data = self.signature.canonical_serialize();
        res_data.append(&mut sig_data);
        proof {
            assert(res_data@ =~= self.cser());
        }
        res_data
    }
}

impl CanonicalSerialize for FailureSendFunds {
    open spec fn cser(&self) -> Seq<u8> {
        be_u128(self.request_id) + self.reporting_public_key@ + self.rand_nonce@ + self.signature@
    }

    fn canonical_serialize(&self) -> (r: Vec<u8>)
        ensures
            r@ == self.cser(),
    {
        let mut res_data: Vec<u8> = Vec::new();
        write_u128_be(&mut res_data, self.request_id);
        let mut pk_data = self.reporting_public_key.canonical_serialize();
        res_data.append(&mut pk_data);
        let mut nonce_data = self.rand_nonce.canonical_serialize();
        res_data.append(&mut nonce_data);
        let mut sig_data = self.signature.canonical_serialize();
        res_data.append(&mut sig_data);
        proof {
            assert(res_data@ =~= self.cser());
        }
        res_data
    }
}

impl CanonicalSerialize for FriendTcOp {
    open spec fn cser(&self) -> Seq<u8> {
        match self {
            FriendTcOp::EnableRequests => seq![1u8],
            FriendTcOp::DisableRequests => seq![2u8],
            FriendTcOp::SetRemoteMaxDebt(n) => seq![3u8] + be_u128(*n),
            FriendTcOp::RequestSendFunds(r) => seq![4u8] + r.cser(),
            FriendTcOp::ResponseSendFunds(r) => seq![5u8] + r.cser(),
            FriendTcOp::FailureSendFunds(r) => seq![6u8] + r.cser(),
        }
    }

    fn canonical_serialize(&self) -> (r: Vec<u8>)
        ensures
            r@ == self.cser(),
    {
        let mut res_data: Vec<u8> = Vec::new();
        match self {
            FriendTcOp::EnableRequests => {
                res_data.push(1);
            },
            FriendTcOp::DisableRequests => {
                res_data.push(2);
            },
            FriendTcOp::SetRemoteMaxDebt(n) => {
                res_data.push(3);
                write_u128_be(&mut res_data, *n);
            },
            FriendTcOp::RequestSendFunds(req) => {
                res_data.push(4);
                let mut inner = req.canonical_serialize();
                res_data.append(&mut inner);
            },
            FriendTcOp::ResponseSendFunds(resp) => {
                res_data.push(5);
                let mut inner = resp.canonical_serialize();
                res_data.append(&mut inner);
            },
            FriendTcOp::FailureSendFunds(fail) => {
                res_data.push(6);
                let mut inner = fail.canonical_serialize();
                res_data.append(&mut inner);
            },
        }
        proof {
            assert(res_data@ =~= self.cser());
        }
        res_data
    }
}

/// A move-token message: a signed batch of operations extending the
/// hash-chained ledger. `balance`, `local_pending_debt` and
/// `remote_pending_debt` state the ledger triple as seen by the RECEIVER of
/// the message after applying its operations.
#[derive(Debug)]
pub struct FriendMoveToken {
    pub operations: Vec<FriendTcOp>,
    pub old_token: Signature,
    pub inconsistency_counter: u64,
    pub move_token_counter: u128,
    pub balance: i128,
    pub local_pending_debt: u128,
    pub remote_pending_debt: u128,
    pub rand_nonce: RandValue,
    pub new_token: Signature,
}

pub struct FriendMoveTokenV {
    pub operations: Seq<TcOpV>,
    pub old_token: Seq<u8>,
    pub inconsistency_counter: u64,
    pub move_token_counter: u128,
    pub balance: i128,
    pub local_pending_debt: u128,
    pub remote_pending_debt: u128,
    pub rand_nonce: Seq<u8>,
    pub new_token: Seq<u8>,
}

impl View for FriendMoveToken {
    type V = FriendMoveTokenV;

    open spec fn view(&self) -> FriendMoveTokenV {
        FriendMoveTokenV {
            operations: ops_view(self.operations@),
            old_token: self.old_token@,
            inconsistency_counter: self.inconsistency_counter,
            move_token_counter: self.move_token_counter,
            balance: self.balance,
            local_pending_debt: self.local_pending_debt,
            remote_pending_debt: self.remote_pending_debt,
            rand_nonce: self.rand_nonce@,
            new_token: self.new_token@,
        }
    }
}

impl Clone for FriendMoveToken {
    fn clone(&self) -> (r: FriendMoveToken)
        ensures
            r@ == self@,
    {
        FriendMoveToken {
            operations: clone_ops(&self.operations),
            old_token: self.old_token.clone(),
            inconsistency_counter: self.inconsistency_counter,
            move_token_counter: self.move_token_counter,
            balance: self.balance,
            local_pending_debt: self.local_pending_debt,
            remote_pending_debt: self.remote_pending_debt,
            rand_nonce: self.rand_nonce.clone(),
            new_token: self.new_token.clone(),
        }
    }
}

/// The bytes that the `new_token` signature of a move-token message covers:
/// the canonical serialization of every field except the signature itself.
pub open spec fn mt_signed_bytes(
    operations: &Vec<FriendTcOp>,
    old_token: Seq<u8>,
    inconsistency_counter: u64,
    move_token_counter: u128,
    balance: i128,
    local_pending_debt: u128,
    remote_pending_debt: u128,
    rand_nonce: Seq<u8>,
) -> Seq<u8> {
    operations.cser() + old_token + be_u64(inconsistency_counter) + be_u128(move_token_counter)
        + be_i128(balance) + be_u128(local_pending_debt) + be_u128(remote_pending_debt)
        + rand_nonce
}

impl FriendMoveToken {
    pub open spec fn signed_bytes(&self) -> Seq<u8> {
        mt_signed_bytes(
            &self.operations,
            self.old_token@,
            self.inconsistency_counter,
            self.move_token_counter,
            self.balance,
            self.local_pending_debt,
            self.remote_pending_debt,
            self.rand_nonce@,
        )
    }

    pub open spec fn wf(&self) -> bool {
        &&& self.old_token.wf()
        &&& self.new_token.wf()
        &&& self.rand_nonce.wf()
    }

    /// The canonical serialization of all fields except `new_token`: the
    /// buffer whose signature is `new_token`.
    pub fn sign_buffer(&self) -> (r: Vec<u8>)
        ensures
            r@ == self.signed_bytes(),
    {
        let mut res_data = self.operations.canonical_serialize();
        let mut old_token_data = self.old_token.canonical_serialize();
        res_data.append(&mut old_token_data);
        write_u64_be(&mut res_data, self.inconsistency_counter);
        write_u128_be(&mut res_data, self.move_token_counter);
        write_i128_be(&mut res_data, self.balance);
        write_u128_be(&mut res_data, self.local_pending_debt);
        write_u128_be(&mut res_data, self.remote_pending_debt);
        let mut nonce_data = self.rand_nonce.canonical_serialize();
        res_data.append(&mut nonce_data);
        proof {
            assert(res_data@ =~= self.signed_bytes());
        }
        res_data
    }

    /// Deep equality of two move-token messages, the test behind duplicate
    /// detection.
    pub fn deep_eq(&self, other: &FriendMoveToken) -> (r: bool)
        ensures
            r == (self@ == other@),
    {
        ops_eq(&self.operations, &other.operations) && self.old_token == other.old_token
            && self.inconsistency_counter == other.inconsistency_counter
            && self.move_token_counter == other.move_token_counter && self.balance == other.balance
            && self.local_pending_debt == other.local_pending_debt && self.remote_pending_debt
            == other.remote_pending_debt && self.rand_nonce == other.rand_nonce && self.new_token
            == other.new_token
    }
}

/// A move-token message built and serialized but not yet signed: the
/// caller obtains the signature from the identity oracle over `sign_buffer`
/// and attaches it with `FriendMoveToken::from_unsigned`.
#[derive(Debug)]
pub struct UnsignedFriendMoveToken {
    pub operations: Vec<FriendTcOp>,
    pub old_token: Signature,
    pub inconsistency_counter: u64,
    pub move_token_counter: u128,
    pub balance: i128,
    pub local_pending_debt: u128,
    pub remote_pending_debt: u128,
    pub rand_nonce: RandValue,
}

impl UnsignedFriendMoveToken {
    pub open spec fn signed_bytes(&self) -> Seq<u8> {
        mt_signed_bytes(
            &self.operations,
            self.old_token@,
            self.inconsistency_counter,
            self.move_token_counter,
            self.balance,
            self.local_pending_debt,
            self.remote_pending_debt,
            self.rand_nonce@,
        )
    }

    /// The buffer to hand to the identity oracle.
    pub fn sign_buffer(&self) -> (r: Vec<u8>)
        ensures
            r@ == self.signed_bytes(),
    {
        let mut res_data = self.operations.canonical_serialize();
        let mut old_token_data = self.old_token.canonical_serialize();
        res_data.append(&mut old_token_data);
        write_u64_be(&mut res_data, self.inconsistency_counter);
        write_u128_be(&mut res_data, self.move_token_counter);
        write_i128_be(&mut res_data, self.balance);
        write_u128_be(&mut res_data, self.local_pending_debt);
        write_u128_be(&mut res_data, self.remote_pending_debt);
        let mut nonce_data = self.rand_nonce.canonical_serialize();
        res_data.append(&mut nonce_data);
        proof {
            assert(res_data@ =~= self.signed_bytes());
        }
        res_data
    }
}

impl FriendMoveToken {
    /// Attach a signature obtained from the identity oracle to an unsigned
    /// move-token message.
    pub fn from_unsigned(unsigned: UnsignedFriendMoveToken, new_token: Signature) -> (r:
        FriendMoveToken)
        ensures
            r@.operations == ops_view(unsigned.operations@),
            r@.old_token == unsigned.old_token@,
            r@.inconsistency_counter == unsigned.inconsistency_counter,
            r@.move_token_counter == unsigned.move_token_counter,
            r@.balance == unsigned.balance,
            r@.local_pending_debt == unsigned.local_pending_debt,
            r@.remote_pending_debt == unsigned.remote_pending_debt,
            r@.rand_nonce == unsigned.rand_nonce@,
            r@.new_token == new_token@,
            r.signed_bytes() == unsigned.signed_bytes(),
    {
        let r = FriendMoveToken {
            operations: unsigned.operations,
            old_token: unsigned.old_token,
            inconsistency_counter: unsigned.inconsistency_counter,
            move_token_counter: unsigned.move_token_counter,
            balance: unsigned.balance,
            local_pending_debt: unsigned.local_pending_debt,
            remote_pending_debt: unsigned.remote_pending_debt,
            rand_nonce: unsigned.rand_nonce,
            new_token,
        };
        r
    }

    /// Verify the `new_token` signature over the canonical serialization of
    /// the other fields.
    pub fn verify(&self, public_key: &PublicKey) -> (r: bool)
        ensures
            r == crate::crypto::ed25519_verifies(
                self.signed_bytes(),
                self.new_token@,
                public_key@,
            ),
    {
        let buffer = self.sign_buffer();
        crate::crypto::verify_signature(buffer.as_slice(), &self.new_token, public_key)
    }
}

/// A move-token message together with the sender's wish to get the token
/// back.
#[derive(Debug)]
pub struct FriendMoveTokenRequest {
    pub friend_move_token: FriendMoveToken,
    pub token_wanted: bool,
}

impl Clone for FriendMoveTokenRequest {
    fn clone(&self) -> (r: FriendMoveTokenRequest)
        ensures
            r.friend_move_token@ == self.friend_move_token@,
            r.token_wanted == self.token_wanted,
    {
        FriendMoveTokenRequest {
            friend_move_token: self.friend_move_token.clone(),
            token_wanted: self.token_wanted,
        }
    }
}

/// The terms proposed to rebuild a channel after an inconsistency.
#[derive(Debug)]
pub struct ResetTerms {
    pub reset_token: Signature,
    pub inconsistency_counter: u64,
    pub balance_for_reset: i128,
}

} // verus!
