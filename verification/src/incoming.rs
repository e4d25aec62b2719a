//! The incoming operation processor: replays a received operation batch, in
//! order, against a cloned ledger. Each operation is validated against the
//! current state; on the first failure the whole batch is rejected and the
//! real channel state stays untouched.

use vstd::prelude::*;

use crate::ledger::{
    apply_mutation_snap, apply_mutations_snap, muts_view, McSnap, TcMutation, TcMutationV,
    TokenChannel, MAX_FUNDER_DEBT,
};
use crate::types::{
    FailureSendFunds, FailureSendFundsV, FriendTcOp, PendingFriendRequest, PendingFriendRequestV,
    RequestSendFunds, RequestSendFundsV, RequestsStatus, ResponseSendFunds, ResponseSendFundsV,
    TcOpV,
};

verus! {

/// Why a single operation was rejected.
#[derive(Clone, Copy, Debug, PartialEq, Eq, Structural)]
pub enum ProcessOperationError {
    /// A request arrived while this side is closed for requests.
    RequestsClosed,
    /// A request arrived under an id that is already pending.
    RequestAlreadyExists,
    /// A response or failure referenced an id that is not pending.
    RequestDoesNotExist,
    /// The route of a request is too short to be a route.
    InvalidRoute,
    /// Applying the operation would push a debt past the granted ceiling.
    InsufficientTrust,
    /// A response or failure releases more than is frozen.
    InsufficientCredits,
    /// A debt field would overflow its 128-bit width.
    CreditsCalcOverflow,
    /// A proposed ceiling exceeds the maximum representable debt.
    MaxDebtTooHigh,
}

/// A batch rejection: the position of the first failing operation and why it
/// failed.
#[derive(Clone, Copy, Debug, PartialEq, Eq, Structural)]
pub struct ProcessTransListError {
    pub index: usize,
    pub error: ProcessOperationError,
}

/// A response together with the pending record it resolves.
#[derive(Debug)]
pub struct IncomingResponseSendFunds {
    pub pending_request: PendingFriendRequest,
    pub incoming_response: ResponseSendFunds,
}

/// A failure together with the pending record it resolves.
#[derive(Debug)]
pub struct IncomingFailureSendFunds {
    pub pending_request: PendingFriendRequest,
    pub incoming_failure: FailureSendFunds,
}

/// What a successfully applied operation means to the layer above.
#[derive(Debug)]
pub enum IncomingMessage {
    Request(RequestSendFunds),
    Response(IncomingResponseSendFunds),
    Failure(IncomingFailureSendFunds),
}

pub enum IncomingMessageV {
    Request(RequestSendFundsV),
    Response { pending_request: PendingFriendRequestV, incoming_response: ResponseSendFundsV },
    Failure { pending_request: PendingFriendRequestV, incoming_failure: FailureSendFundsV },
}

impl View for IncomingMessage {
    type V = IncomingMessageV;

    open spec fn view(&self) -> IncomingMessageV {
        match self {
            IncomingMessage::Request(r) => IncomingMessageV::Request(r@),
            IncomingMessage::Response(r) => IncomingMessageV::Response {
                pending_request: r.pending_request@,
                incoming_response: r.incoming_response@,
            },
            IncomingMessage::Failure(r) => IncomingMessageV::Failure {
                pending_request: r.pending_request@,
                incoming_failure: r.incoming_failure@,
            },
        }
    }
}

pub open spec fn msg_opt_view(m: &Option<IncomingMessage>) -> Option<IncomingMessageV> {
    match m {
        None => None,
        Some(msg) => Some(msg@),
    }
}

/// What one successfully applied operation did: the message for the layer
/// above and the mutation log that reproduces the state change.
#[derive(Debug)]
pub struct ProcessOperationOutput {
    pub incoming_message: Option<IncomingMessage>,
    pub mc_mutations: Vec<TcMutation>,
}

/// A route must at least name the two ends.
pub open spec fn route_valid(route: Seq<Seq<u8>>) -> bool {
    route.len() >= 2
}

/// The model transition of one incoming operation: either the next ledger
/// model or the error that rejects the operation. This is the reference
/// against which the executable processor is verified.
pub open spec fn incoming_op_result(s: McSnap, op: TcOpV) -> Result<McSnap, ProcessOperationError> {
    match op {
        TcOpV::EnableRequests => Ok(McSnap { remote_open: true, ..s }),
        TcOpV::DisableRequests => Ok(McSnap { remote_open: false, ..s }),
        TcOpV::SetRemoteMaxDebt(n) => {
            if n > MAX_FUNDER_DEBT {
                Err(ProcessOperationError::MaxDebtTooHigh)
            } else if -(s.balance as int) + s.local_pending_debt > n {
                Err(ProcessOperationError::InsufficientTrust)
            } else {
                Ok(McSnap { local_max_debt: n, ..s })
            }
        },
        TcOpV::RequestSendFunds(req) => {
            if !route_valid(req.route) {
                Err(ProcessOperationError::InvalidRoute)
            } else if !s.local_open {
                Err(ProcessOperationError::RequestsClosed)
            } else if s.pending_remote.dom().contains(req.request_id) {
                Err(ProcessOperationError::RequestAlreadyExists)
            } else if s.remote_pending_debt + req.dest_payment > u128::MAX {
                Err(ProcessOperationError::CreditsCalcOverflow)
            } else if s.balance + s.remote_pending_debt + req.dest_payment > s.remote_max_debt {
                Err(ProcessOperationError::InsufficientTrust)
            } else {
                Ok(
                    McSnap {
                        pending_remote: s.pending_remote.insert(
                            req.request_id,
                            incoming_pending_record(req),
                        ),
                        remote_pending_debt: (s.remote_pending_debt + req.dest_payment) as u128,
                        ..s
                    },
                )
            }
        },
        TcOpV::ResponseSendFunds(resp) => {
            if !s.pending_local.dom().contains(resp.request_id) {
                Err(ProcessOperationError::RequestDoesNotExist)
            } else {
                let rec = s.pending_local[resp.request_id];
                if s.local_pending_debt < rec.dest_payment {
                    Err(ProcessOperationError::InsufficientCredits)
                } else if s.balance - rec.dest_payment < i128::MIN {
                    Err(ProcessOperationError::CreditsCalcOverflow)
                } else {
                    Ok(
                        McSnap {
                            pending_local: s.pending_local.remove(resp.request_id),
                            local_pending_debt: (s.local_pending_debt - rec.dest_payment) as u128,
                            balance: (s.balance - rec.dest_payment) as i128,
                            ..s
                        },
                    )
                }
            }
        },
        TcOpV::FailureSendFunds(fail) => {
            if !s.pending_local.dom().contains(fail.request_id) {
                Err(ProcessOperationError::RequestDoesNotExist)
            } else {
                let rec = s.pending_local[fail.request_id];
                if s.local_pending_debt < rec.dest_payment {
                    Err(ProcessOperationError::InsufficientCredits)
                } else {
                    Ok(
                        McSnap {
                            pending_local: s.pending_local.remove(fail.request_id),
                            local_pending_debt: (s.local_pending_debt - rec.dest_payment) as u128,
                            ..s
                        },
                    )
                }
            }
        },
    }
}

pub open spec fn incoming_pending_record(req: RequestSendFundsV) -> PendingFriendRequestV {
    PendingFriendRequestV {
        request_id: req.request_id,
        route: req.route,
        dest_payment: req.dest_payment,
    }
}

/// The message a successfully applied operation hands to the layer above.
pub open spec fn incoming_op_msg(s: McSnap, op: TcOpV) -> Option<IncomingMessageV> {
    match op {
        TcOpV::RequestSendFunds(req) => Some(IncomingMessageV::Request(req)),
        TcOpV::ResponseSendFunds(resp) => Some(
            IncomingMessageV::Response {
                pending_request: s.pending_local[resp.request_id],
                incoming_response: resp,
            },
        ),
        TcOpV::FailureSendFunds(fail) => Some(
            IncomingMessageV::Failure {
                pending_request: s.pending_local[fail.request_id],
                incoming_failure: fail,
            },
        ),
        _ => None,
    }
}

/// The mutation log of a successfully applied operation.
pub open spec fn incoming_op_muts(s: McSnap, op: TcOpV) -> Seq<TcMutationV> {
    match op {
        TcOpV::EnableRequests => seq![TcMutationV::SetRemoteRequestsStatus(RequestsStatus::Open)],
        TcOpV::DisableRequests => seq![
            TcMutationV::SetRemoteRequestsStatus(RequestsStatus::Closed),
        ],
        TcOpV::SetRemoteMaxDebt(n) => seq![TcMutationV::SetLocalMaxDebt(n)],
        TcOpV::RequestSendFunds(req) => seq![
            TcMutationV::InsertRemotePendingRequest(incoming_pending_record(req)),
            TcMutationV::SetRemotePendingDebt(
                (s.remote_pending_debt + req.dest_payment) as u128,
            ),
        ],
        TcOpV::ResponseSendFunds(resp) => seq![
            TcMutationV::RemoveLocalPendingRequest(resp.request_id),
            TcMutationV::SetLocalPendingDebt(
                (s.local_pending_debt - s.pending_local[resp.request_id].dest_payment) as u128,
            ),
            TcMutationV::SetBalance(
                (s.balance - s.pending_local[resp.request_id].dest_payment) as i128,
            ),
        ],
        TcOpV::FailureSendFunds(fail) => seq![
            TcMutationV::RemoveLocalPendingRequest(fail.request_id),
            TcMutationV::SetLocalPendingDebt(
                (s.local_pending_debt - s.pending_local[fail.request_id].dest_payment) as u128,
            ),
        ],
    }
}

/// Definitional unfoldings of `apply_mutations_snap`.
pub proof fn lemma_apply_muts_unfold(s: McSnap, ms: Seq<TcMutationV>)
    requires
        ms.len() > 0,
    ensures
        apply_mutations_snap(s, ms) == apply_mutations_snap(
            apply_mutation_snap(s, ms[0]),
            ms.skip(1),
        ),
{
}

pub proof fn lemma_apply_muts_empty(s: McSnap, ms: Seq<TcMutationV>)
    requires
        ms.len() == 0,
    ensures
        apply_mutations_snap(s, ms) == s,
{
}

/// Replaying the mutation log of an accepted operation reproduces exactly
/// the model transition of that operation.
pub proof fn lemma_incoming_muts_apply(s: McSnap, op: TcOpV)
    requires
        incoming_op_result(s, op) is Ok,
    ensures
        apply_mutations_snap(s, incoming_op_muts(s, op)) == incoming_op_result(s, op)->Ok_0,
{
    let ms = incoming_op_muts(s, op);
    match op {
        TcOpV::EnableRequests => {
            let s1 = apply_mutation_snap(s, ms[0]);
            lemma_apply_muts_unfold(s, ms);
            lemma_apply_muts_empty(s1, ms.skip(1));
            assert(s1 =~= incoming_op_result(s, op)->Ok_0);
        },
        TcOpV::DisableRequests => {
            let s1 = apply_mutation_snap(s, ms[0]);
            lemma_apply_muts_unfold(s, ms);
            lemma_apply_muts_empty(s1, ms.skip(1));
            assert(s1 =~= incoming_op_result(s, op)->Ok_0);
        },
        TcOpV::SetRemoteMaxDebt(n) => {
            let s1 = apply_mutation_snap(s, ms[0]);
            lemma_apply_muts_unfold(s, ms);
            lemma_apply_muts_empty(s1, ms.skip(1));
            assert(s1 =~= incoming_op_result(s, op)->Ok_0);
        },
        TcOpV::RequestSendFunds(req) => {
            let s1 = apply_mutation_snap(s, ms[0]);
            assert(ms.skip(1)[0] == ms[1]);
            let s2 = apply_mutation_snap(s1, ms[1]);
            lemma_apply_muts_unfold(s, ms);
            lemma_apply_muts_unfold(s1, ms.skip(1));
            lemma_apply_muts_empty(s2, ms.skip(1).skip(1));
            assert(s2 =~= incoming_op_result(s, op)->Ok_0);
        },
        TcOpV::ResponseSendFunds(resp) => {
            let s1 = apply_mutation_snap(s, ms[0]);
            assert(ms.skip(1)[0] == ms[1]);
            assert(ms.skip(1).skip(1)[0] == ms[2]);
            let s2 = apply_mutation_snap(s1, ms[1]);
            let s3 = apply_mutation_snap(s2, ms[2]);
            lemma_apply_muts_unfold(s, ms);
            lemma_apply_muts_unfold(s1, ms.skip(1));
            lemma_apply_muts_unfold(s2, ms.skip(1).skip(1));
            lemma_apply_muts_empty(s3, ms.skip(1).skip(1).skip(1));
            assert(s3 =~= incoming_op_result(s, op)->Ok_0);
        },
        TcOpV::FailureSendFunds(fail) => {
            let s1 = apply_mutation_snap(s, ms[0]);
            assert(ms.skip(1)[0] == ms[1]);
            let s2 = apply_mutation_snap(s1, ms[1]);
            lemma_apply_muts_unfold(s, ms);
            lemma_apply_muts_unfold(s1, ms.skip(1));
            lemma_apply_muts_empty(s2, ms.skip(1).skip(1));
            assert(s2 =~= incoming_op_result(s, op)->Ok_0);
        },
    }
}

/// The model transition of a batch, starting at position `i`: the final
/// ledger model, or the position and error of the first rejected operation.
pub open spec fn incoming_ops_from(s: McSnap, ops: Seq<TcOpV>, i: int) -> Result<
    McSnap,
    ProcessTransListError,
>
    decreases ops.len() - i,
{
    if i < 0 || i >= ops.len() {
        Ok(s)
    } else {
        match incoming_op_result(s, ops[i]) {
            Err(e) => Err(ProcessTransListError { index: i as usize, error: e }),
            Ok(s2) => incoming_ops_from(s2, ops, i + 1),
        }
    }
}

/// The ledger model just before operation `i`, when the first `i` operations
/// were accepted.
pub open spec fn incoming_prefix_snap(s: McSnap, ops: Seq<TcOpV>, i: int) -> McSnap
    decreases i,
{
    if i <= 0 {
        s
    } else {
        match incoming_op_result(incoming_prefix_snap(s, ops, i - 1), ops[i - 1]) {
            Ok(s2) => s2,
            Err(_) => incoming_prefix_snap(s, ops, i - 1),
        }
    }
}

/// Processing from the start equals processing the accepted prefix and going
/// on from there.
pub proof fn lemma_incoming_from_prefix(s: McSnap, ops: Seq<TcOpV>, i: int)
    requires
        0 <= i <= ops.len(),
        forall|j: int|
            0 <= j < i ==> incoming_op_result(
                #[trigger] incoming_prefix_snap(s, ops, j),
                ops[j],
            ) is Ok,
    ensures
        incoming_ops_from(s, ops, 0) == incoming_ops_from(incoming_prefix_snap(s, ops, i), ops, i),
    decreases i,
{
    if i > 0 {
        lemma_incoming_from_prefix(s, ops, i - 1);
    }
}

/// An accepted batch means every single operation in it was accepted: each
/// step from each intermediate ledger model is accepted, and the final model
/// is the last intermediate one. This lets a caller of the receive path use
/// the per-operation laws on what it got back.
pub proof fn lemma_incoming_ok_all_prefixes(s0: McSnap, ops: Seq<TcOpV>, i: int)
    requires
        0 <= i <= ops.len(),
        incoming_ops_from(s0, ops, 0) is Ok,
        forall|j: int|
            0 <= j < i ==> incoming_op_result(
                #[trigger] incoming_prefix_snap(s0, ops, j),
                ops[j],
            ) is Ok,
    ensures
        forall|j: int|
            0 <= j < ops.len() ==> incoming_op_result(
                #[trigger] incoming_prefix_snap(s0, ops, j),
                ops[j],
            ) is Ok,
        incoming_prefix_snap(s0, ops, ops.len() as int) == incoming_ops_from(s0, ops, 0)->Ok_0,
    decreases ops.len() - i,
{
    lemma_incoming_from_prefix(s0, ops, i);
    if i < ops.len() {
        lemma_incoming_ok_all_prefixes(s0, ops, i + 1);
    }
}

/// Compare `balance + debt <= bound` without overflow.
pub fn sum_le_bound(balance: i128, debt: u128, bound: u128) -> (r: bool)
    ensures
        r == (balance + debt <= bound),
{
    if balance >= 0 {
        match (balance as u128).checked_add(debt) {
            None => false,
            Some(x) => x <= bound,
        }
    } else {
        let nb = i128_abs_as_u128(balance);
        match debt.checked_sub(nb) {
            None => true,
            Some(x) => x <= bound,
        }
    }
}

/// Compare `-balance + debt <= bound` without overflow.
pub fn neg_sum_le_bound(balance: i128, debt: u128, bound: u128) -> (r: bool)
    ensures
        r == (-(balance as int) + debt <= bound),
{
    if balance >= 0 {
        match debt.checked_sub(balance as u128) {
            None => true,
            Some(x) => x <= bound,
        }
    } else {
        let nb = i128_abs_as_u128(balance);
        match nb.checked_add(debt) {
            None => false,
            Some(x) => x <= bound,
        }
    }
}

/// The absolute value of a negative i128, which always fits in a u128.
pub fn i128_abs_as_u128(balance: i128) -> (r: u128)
    requires
        balance < 0,
    ensures
        r == -(balance as int),
{
    if balance == i128::MIN {
        170141183460469231731687303715884105728u128
    } else {
        (-balance) as u128
    }
}

/// Apply one incoming operation: validate it against the current ledger and
/// either mutate the ledger accordingly or reject it leaving the ledger
/// untouched. The contract ties the call exactly to the model transition.
pub fn process_operation(mutual_credit: &mut TokenChannel, op: &FriendTcOp) -> (r: Result<
    ProcessOperationOutput,
    ProcessOperationError,
>)
    ensures
        match r {
            Ok(out) => {
                &&& incoming_op_result(old(mutual_credit).snap(), op@) == Ok::<
                    McSnap,
                    ProcessOperationError,
                >(final(mutual_credit).snap())
                &&& msg_opt_view(&out.incoming_message) == incoming_op_msg(
                    old(mutual_credit).snap(),
                    op@,
                )
                &&& muts_view(out.mc_mutations@) == incoming_op_muts(
                    old(mutual_credit).snap(),
                    op@,
                )
            },
            Err(e) => {
                &&& incoming_op_result(old(mutual_credit).snap(), op@) == Err::<
                    McSnap,
                    ProcessOperationError,
                >(e)
                &&& final(mutual_credit).snap() == old(mutual_credit).snap()
            },
        },
        final(mutual_credit).idents_wf() == old(mutual_credit).idents_wf(),
        final(mutual_credit).state.idents.local_public_key@ == old(
            mutual_credit,
        ).state.idents.local_public_key@,
        final(mutual_credit).state.idents.remote_public_key@ == old(
            mutual_credit,
        ).state.idents.remote_public_key@,
{
    match op {
        FriendTcOp::EnableRequests => {
            let m = TcMutation::SetRemoteRequestsStatus(RequestsStatus::Open);
            mutual_credit.mutate(&m);
            let mut mc_mutations: Vec<TcMutation> = Vec::new();
            mc_mutations.push(m);
            proof {
                assert(muts_view(mc_mutations@) =~= incoming_op_muts(
                    old(mutual_credit).snap(),
                    op@,
                ));
            }
            Ok(ProcessOperationOutput { incoming_message: None, mc_mutations })
        },
        FriendTcOp::DisableRequests => {
            let m = TcMutation::SetRemoteRequestsStatus(RequestsStatus::Closed);
            mutual_credit.mutate(&m);
            let mut mc_mutations: Vec<TcMutation> = Vec::new();
            mc_mutations.push(m);
            proof {
                assert(muts_view(mc_mutations@) =~= incoming_op_muts(
                    old(mutual_credit).snap(),
                    op@,
                ));
            }
            Ok(ProcessOperationOutput { incoming_message: None, mc_mutations })
        },
        FriendTcOp::SetRemoteMaxDebt(n) => {
            if *n > MAX_FUNDER_DEBT {
                return Err(ProcessOperationError::MaxDebtTooHigh);
            }
            if !neg_sum_le_bound(
                mutual_credit.state.balance.balance,
                mutual_credit.state.balance.local_pending_debt,
                *n,
            ) {
                return Err(ProcessOperationError::InsufficientTrust);
            }
            let m = TcMutation::SetLocalMaxDebt(*n);
            mutual_credit.mutate(&m);
            let mut mc_mutations: Vec<TcMutation> = Vec::new();
            mc_mutations.push(m);
            proof {
                assert(muts_view(mc_mutations@) =~= incoming_op_muts(
                    old(mutual_credit).snap(),
                    op@,
                ));
            }
            Ok(ProcessOperationOutput { incoming_message: None, mc_mutations })
        },
        FriendTcOp::RequestSendFunds(req) => {
            if req.route.len() < 2 {
                return Err(ProcessOperationError::InvalidRoute);
            }
            if !matches!(mutual_credit.state.requests_status.local, RequestsStatus::Open) {
                return Err(ProcessOperationError::RequestsClosed);
            }
            if crate::im_map::im_map_contains(
                &mutual_credit.state.pending_requests.pending_remote_requests,
                req.request_id,
            ) {
                return Err(ProcessOperationError::RequestAlreadyExists);
            }
            let new_remote_pending_debt = match mutual_credit
                .state
                .balance
                .remote_pending_debt
                .checked_add(req.dest_payment) {
                None => {
                    return Err(ProcessOperationError::CreditsCalcOverflow);
                },
                Some(x) => x,
            };
            if !sum_le_bound(
                mutual_credit.state.balance.balance,
                new_remote_pending_debt,
                mutual_credit.state.balance.remote_max_debt,
            ) {
                return Err(ProcessOperationError::InsufficientTrust);
            }
            let pending_request = crate::types::create_pending_request(req);
            let m1 = TcMutation::InsertRemotePendingRequest(pending_request);
            mutual_credit.mutate(&m1);
            let m2 = TcMutation::SetRemotePendingDebt(new_remote_pending_debt);
            mutual_credit.mutate(&m2);
            let mut mc_mutations: Vec<TcMutation> = Vec::new();
            mc_mutations.push(m1);
            mc_mutations.push(m2);
            let incoming_message = Some(IncomingMessage::Request(req.clone()));
            proof {
                assert(final(mutual_credit).snap() =~= incoming_op_result(
                    old(mutual_credit).snap(),
                    op@,
                )->Ok_0);
                assert(muts_view(mc_mutations@) =~= incoming_op_muts(
                    old(mutual_credit).snap(),
                    op@,
                ));
            }
            Ok(ProcessOperationOutput { incoming_message, mc_mutations })
        },
        FriendTcOp::ResponseSendFunds(resp) => {
            let pending_request = match crate::im_map::im_map_get(
                &mutual_credit.state.pending_requests.pending_local_requests,
                resp.request_id,
            ) {
                None => {
                    return Err(ProcessOperationError::RequestDoesNotExist);
                },
                Some(p) => p.clone(),
            };
            let new_local_pending_debt = match mutual_credit
                .state
                .balance
                .local_pending_debt
                .checked_sub(pending_request.dest_payment) {
                None => {
                    return Err(ProcessOperationError::InsufficientCredits);
                },
                Some(x) => x,
            };
            let new_balance = match mutual_credit.state.balance.balance.checked_sub_unsigned(
                pending_request.dest_payment,
            ) {
                None => {
                    return Err(ProcessOperationError::CreditsCalcOverflow);
                },
                Some(x) => x,
            };
            let m1 = TcMutation::RemoveLocalPendingRequest(resp.request_id);
            mutual_credit.mutate(&m1);
            let m2 = TcMutation::SetLocalPendingDebt(new_local_pending_debt);
            mutual_credit.mutate(&m2);
            let m3 = TcMutation::SetBalance(new_balance);
            mutual_credit.mutate(&m3);
            let mut mc_mutations: Vec<TcMutation> = Vec::new();
            mc_mutations.push(m1);
            mc_mutations.push(m2);
            mc_mutations.push(m3);
            let incoming_message = Some(
                IncomingMessage::Response(
                    IncomingResponseSendFunds {
                        pending_request,
                        incoming_response: resp.clone(),
                    },
                ),
            );
            proof {
                assert(final(mutual_credit).snap() =~= incoming_op_result(
                    old(mutual_credit).snap(),
                    op@,
                )->Ok_0);
                assert(muts_view(mc_mutations@) =~= incoming_op_muts(
                    old(mutual_credit).snap(),
                    op@,
                ));
            }
            Ok(ProcessOperationOutput { incoming_message, mc_mutations })
        },
        FriendTcOp::FailureSendFunds(fail) => {
            let pending_request = match crate::im_map::im_map_get(
                &mutual_credit.state.pending_requests.pending_local_requests,
                fail.request_id,
            ) {
                None => {
                    return Err(ProcessOperationError::RequestDoesNotExist);
                },
                Some(p) => p.clone(),
            };
            let new_local_pending_debt = match mutual_credit
                .state
                .balance
                .local_pending_debt
                .checked_sub(pending_request.dest_payment) {
                None => {
                    return Err(ProcessOperationError::InsufficientCredits);
                },
                Some(x) => x,
            };
            let m1 = TcMutation::RemoveLocalPendingRequest(fail.request_id);
            mutual_credit.mutate(&m1);
            let m2 = TcMutation::SetLocalPendingDebt(new_local_pending_debt);
            mutual_credit.mutate(&m2);
            let mut mc_mutations: Vec<TcMutation> = Vec::new();
            mc_mutations.push(m1);
            mc_mutations.push(m2);
            let incoming_message = Some(
                IncomingMessage::Failure(
                    IncomingFailureSendFunds { pending_request, incoming_failure: fail.clone() },
                ),
            );
            proof {
                assert(final(mutual_credit).snap() =~= incoming_op_result(
                    old(mutual_credit).snap(),
                    op@,
                )->Ok_0);
                assert(muts_view(mc_mutations@) =~= incoming_op_muts(
                    old(mutual_credit).snap(),
                    op@,
                ));
            }
            Ok(ProcessOperationOutput { incoming_message, mc_mutations })
        },
    }
}

/// Replay a received operation list, in order, against `mutual_credit`
/// (a throwaway clone of the real ledger). On success the ledger model equals
/// the model replay and each output carries the message and mutation log of
/// its operation; on the first failure the whole batch is rejected.
pub fn process_operations_list(mutual_credit: &mut TokenChannel, operations: Vec<FriendTcOp>) -> (r:
    Result<Vec<ProcessOperationOutput>, ProcessTransListError>)
    ensures
        match r {
            Ok(outputs) => {
                &&& incoming_ops_from(
                    old(mutual_credit).snap(),
                    crate::types::ops_view(operations@),
                    0,
                ) == Ok::<McSnap, ProcessTransListError>(final(mutual_credit).snap())
                &&& outputs@.len() == operations@.len()
                &&& forall|j: int|
                    #![trigger outputs@[j]]
                    0 <= j < outputs@.len() ==> {
                        let pre = incoming_prefix_snap(
                            old(mutual_credit).snap(),
                            crate::types::ops_view(operations@),
                            j,
                        );
                        &&& incoming_op_result(pre, operations@[j]@) is Ok
                        &&& msg_opt_view(&outputs@[j].incoming_message) == incoming_op_msg(
                            pre,
                            operations@[j]@,
                        )
                        &&& muts_view(outputs@[j].mc_mutations@) == incoming_op_muts(
                            pre,
                            operations@[j]@,
                        )
                    }
            },
            Err(e) => incoming_ops_from(
                old(mutual_credit).snap(),
                crate::types::ops_view(operations@),
                0,
            ) == Err::<McSnap, ProcessTransListError>(e),
        },
        final(mutual_credit).idents_wf() == old(mutual_credit).idents_wf(),
        final(mutual_credit).state.idents.local_public_key@ == old(
            mutual_credit,
        ).state.idents.local_public_key@,
        final(mutual_credit).state.idents.remote_public_key@ == old(
            mutual_credit,
        ).state.idents.remote_public_key@,
{
    let ghost s0 = mutual_credit.snap();
    let ghost opsv = crate::types::ops_view(operations@);
    let mut outputs: Vec<ProcessOperationOutput> = Vec::new();
    let mut i: usize = 0;
    while i < operations.len()
        invariant
            i <= operations@.len(),
            opsv == crate::types::ops_view(operations@),
            opsv.len() == operations@.len(),
            outputs@.len() == i,
            mutual_credit.snap() == incoming_prefix_snap(s0, opsv, i as int),
            forall|j: int|
                0 <= j < i ==> incoming_op_result(
                    #[trigger] incoming_prefix_snap(s0, opsv, j),
                    opsv[j],
                ) is Ok,
            forall|j: int|
                #![trigger outputs@[j]]
                0 <= j < i ==> {
                    let pre = incoming_prefix_snap(s0, opsv, j);
                    &&& msg_opt_view(&outputs@[j].incoming_message) == incoming_op_msg(
                        pre,
                        opsv[j],
                    )
                    &&& muts_view(outputs@[j].mc_mutations@) == incoming_op_muts(pre, opsv[j])
                },
            mutual_credit.idents_wf() == old(mutual_credit).idents_wf(),
            mutual_credit.state.idents.local_public_key@ == old(
                mutual_credit,
            ).state.idents.local_public_key@,
            mutual_credit.state.idents.remote_public_key@ == old(
                mutual_credit,
            ).state.idents.remote_public_key@,
            s0 == old(mutual_credit).snap(),
        decreases operations@.len() - i,
    {
        proof {
            assert(opsv[i as int] == operations@[i as int]@);
        }
        match process_operation(mutual_credit, &operations[i]) {
            Ok(out) => {
                outputs.push(out);
            },
            Err(e) => {
                proof {
                    lemma_incoming_from_prefix(s0, opsv, i as int);
                }
                return Err(ProcessTransListError { index: i, error: e });
            },
        }
        i = i + 1;
    }
    proof {
        lemma_incoming_from_prefix(s0, opsv, opsv.len() as int);
    }
    Ok(outputs)
}

} // verus!
