//! The outgoing operation processor: builds a batch of operations against a
//! cloned ledger, validating each before it is queued. Nothing is committed
//! to the real channel here; the mutation log is applied only when the
//! produced move-token message is accepted.

use vstd::prelude::*;

use crate::incoming::{neg_sum_le_bound, route_valid, sum_le_bound, ProcessOperationError};
use crate::ledger::{
    apply_mutation_snap, apply_mutations_snap, muts_view, McSnap, TcMutation, TcMutationV,
    TokenChannel, MAX_FUNDER_DEBT,
};
use crate::types::{ops_view, FriendTcOp, RequestsStatus, TcOpV};

verus! {

/// Why an operation could not be queued.
#[derive(Clone, Copy, Debug, PartialEq, Eq, Structural)]
pub enum QueueOperationError {
    /// The batch already holds as many operations as a message may carry.
    MaxOperationsReached,
    /// The operation is invalid against the current ledger state.
    InvalidOperation(ProcessOperationError),
}

/// The model transition of one outgoing operation, the mirror image of the
/// incoming transition: what we queue here, the peer replays there.
pub open spec fn outgoing_op_result(s: McSnap, op: TcOpV) -> Result<McSnap, ProcessOperationError> {
    match op {
        TcOpV::EnableRequests => Ok(McSnap { local_open: true, ..s }),
        TcOpV::DisableRequests => Ok(McSnap { local_open: false, ..s }),
        TcOpV::SetRemoteMaxDebt(n) => {
            if n > MAX_FUNDER_DEBT {
                Err(ProcessOperationError::MaxDebtTooHigh)
            } else if s.balance + s.remote_pending_debt > n {
                Err(ProcessOperationError::InsufficientTrust)
            } else {
                Ok(McSnap { remote_max_debt: n, ..s })
            }
        },
        TcOpV::RequestSendFunds(req) => {
            if !route_valid(req.route) {
                Err(ProcessOperationError::InvalidRoute)
            } else if !s.remote_open {
                Err(ProcessOperationError::RequestsClosed)
            } else if s.pending_local.dom().contains(req.request_id) {
                Err(ProcessOperationError::RequestAlreadyExists)
            } else if s.local_pending_debt + req.dest_payment > u128::MAX {
                Err(ProcessOperationError::CreditsCalcOverflow)
            } else if -(s.balance as int) + s.local_pending_debt + req.dest_payment
                > s.local_max_debt {
                Err(ProcessOperationError::InsufficientTrust)
            } else {
                Ok(
                    McSnap {
                        pending_local: s.pending_local.insert(
                            req.request_id,
                            crate::incoming::incoming_pending_record(req),
                        ),
                        local_pending_debt: (s.local_pending_debt + req.dest_payment) as u128,
                        ..s
                    },
                )
            }
        },
        TcOpV::ResponseSendFunds(resp) => {
            if !s.pending_remote.dom().contains(resp.request_id) {
                Err(ProcessOperationError::RequestDoesNotExist)
            } else {
                let rec = s.pending_remote[resp.request_id];
                if s.remote_pending_debt < rec.dest_payment {
                    Err(ProcessOperationError::InsufficientCredits)
                } else if s.balance + rec.dest_payment > i128::MAX {
                    Err(ProcessOperationError::CreditsCalcOverflow)
                } else {
                    Ok(
                        McSnap {
                            pending_remote: s.pending_remote.remove(resp.request_id),
                            remote_pending_debt: (s.remote_pending_debt - rec.dest_payment)
                                as u128,
                            balance: (s.balance + rec.dest_payment) as i128,
                            ..s
                        },
                    )
                }
            }
        },
        TcOpV::FailureSendFunds(fail) => {
            if !s.pending_remote.dom().contains(fail.request_id) {
                Err(ProcessOperationError::RequestDoesNotExist)
            } else {
                let rec = s.pending_remote[fail.request_id];
                if s.remote_pending_debt < rec.dest_payment {
                    Err(ProcessOperationError::InsufficientCredits)
                } else {
                    Ok(
                        McSnap {
                            pending_remote: s.pending_remote.remove(fail.request_id),
                            remote_pending_debt: (s.remote_pending_debt - rec.dest_payment)
                                as u128,
                            ..s
                        },
                    )
                }
            }
        },
    }
}

/// The mutation log of a successfully queued operation.
pub open spec fn outgoing_op_muts(s: McSnap, op: TcOpV) -> Seq<TcMutationV> {
    match op {
        TcOpV::EnableRequests => seq![TcMutationV::SetLocalRequestsStatus(RequestsStatus::Open)],
        TcOpV::DisableRequests => seq![
            TcMutationV::SetLocalRequestsStatus(RequestsStatus::Closed),
        ],
        TcOpV::SetRemoteMaxDebt(n) => seq![TcMutationV::SetRemoteMaxDebt(n)],
        TcOpV::RequestSendFunds(req) => seq![
            TcMutationV::InsertLocalPendingRequest(crate::incoming::incoming_pending_record(req)),
            TcMutationV::SetLocalPendingDebt((s.local_pending_debt + req.dest_payment) as u128),
        ],
        TcOpV::ResponseSendFunds(resp) => seq![
            TcMutationV::RemoveRemotePendingRequest(resp.request_id),
            TcMutationV::SetRemotePendingDebt(
                (s.remote_pending_debt - s.pending_remote[resp.request_id].dest_payment) as u128,
            ),
            TcMutationV::SetBalance(
                (s.balance + s.pending_remote[resp.request_id].dest_payment) as i128,
            ),
        ],
        TcOpV::FailureSendFunds(fail) => seq![
            TcMutationV::RemoveRemotePendingRequest(fail.request_id),
            TcMutationV::SetRemotePendingDebt(
                (s.remote_pending_debt - s.pending_remote[fail.request_id].dest_payment) as u128,
            ),
        ],
    }
}

/// Replaying the mutation log of a queued operation reproduces exactly the
/// model transition of that operation.
pub proof fn lemma_outgoing_muts_apply(s: McSnap, op: TcOpV)
    requires
        outgoing_op_result(s, op) is Ok,
    ensures
        apply_mutations_snap(s, outgoing_op_muts(s, op)) == outgoing_op_result(s, op)->Ok_0,
{
    let ms = outgoing_op_muts(s, op);
    match op {
        TcOpV::EnableRequests => {
            let s1 = apply_mutation_snap(s, ms[0]);
            crate::incoming::lemma_apply_muts_unfold(s, ms);
            crate::incoming::lemma_apply_muts_empty(s1, ms.skip(1));
            assert(s1 =~= outgoing_op_result(s, op)->Ok_0);
        },
        TcOpV::DisableRequests => {
            let s1 = apply_mutation_snap(s, ms[0]);
            crate::incoming::lemma_apply_muts_unfold(s, ms);
            crate::incoming::lemma_apply_muts_empty(s1, ms.skip(1));
            assert(s1 =~= outgoing_op_result(s, op)->Ok_0);
        },
        TcOpV::SetRemoteMaxDebt(n) => {
            let s1 = apply_mutation_snap(s, ms[0]);
            crate::incoming::lemma_apply_muts_unfold(s, ms);
            crate::incoming::lemma_apply_muts_empty(s1, ms.skip(1));
            assert(s1 =~= outgoing_op_result(s, op)->Ok_0);
        },
        TcOpV::RequestSendFunds(req) => {
            let s1 = apply_mutation_snap(s, ms[0]);
            assert(ms.skip(1)[0] == ms[1]);
            let s2 = apply_mutation_snap(s1, ms[1]);
            crate::incoming::lemma_apply_muts_unfold(s, ms);
            crate::incoming::lemma_apply_muts_unfold(s1, ms.skip(1));
            crate::incoming::lemma_apply_muts_empty(s2, ms.skip(1).skip(1));
            assert(s2 =~= outgoing_op_result(s, op)->Ok_0);
        },
        TcOpV::ResponseSendFunds(resp) => {
            let s1 = apply_mutation_snap(s, ms[0]);
            assert(ms.skip(1)[0] == ms[1]);
            assert(ms.skip(1).skip(1)[0] == ms[2]);
            let s2 = apply_mutation_snap(s1, ms[1]);
            let s3 = apply_mutation_snap(s2, ms[2]);
            crate::incoming::lemma_apply_muts_unfold(s, ms);
            crate::incoming::lemma_apply_muts_unfold(s1, ms.skip(1));
            crate::incoming::lemma_apply_muts_unfold(s2, ms.skip(1).skip(1));
            crate::incoming::lemma_apply_muts_empty(s3, ms.skip(1).skip(1).skip(1));
            assert(s3 =~= outgoing_op_result(s, op)->Ok_0);
        },
        TcOpV::FailureSendFunds(fail) => {
            let s1 = apply_mutation_snap(s, ms[0]);
            assert(ms.skip(1)[0] == ms[1]);
            let s2 = apply_mutation_snap(s1, ms[1]);
            crate::incoming::lemma_apply_muts_unfold(s, ms);
            crate::incoming::lemma_apply_muts_unfold(s1, ms.skip(1));
            crate::incoming::lemma_apply_muts_empty(s2, ms.skip(1).skip(1));
            assert(s2 =~= outgoing_op_result(s, op)->Ok_0);
        },
    }
}

/// The model transition of queueing a whole sequence, starting at `i`.
pub open spec fn outgoing_ops_from(s: McSnap, ops: Seq<TcOpV>, i: int) -> Result<
    McSnap,
    ProcessOperationError,
>
    decreases ops.len() - i,
{
    if i < 0 || i >= ops.len() {
        Ok(s)
    } else {
        match outgoing_op_result(s, ops[i]) {
            Err(e) => Err(e),
            Ok(s2) => outgoing_ops_from(s2, ops, i + 1),
        }
    }
}

/// An outgoing batch under construction: a throwaway ledger clone, the
/// operations queued so far and the mutation log that reproduces their
/// effect.
#[derive(Debug)]
pub struct OutgoingMc {
    pub mutual_credit: TokenChannel,
    pub operations: Vec<FriendTcOp>,
    pub mutations: Vec<TcMutation>,
    pub max_operations: usize,
}

impl OutgoingMc {
    pub fn new(mutual_credit: &TokenChannel, max_operations: usize) -> (r: OutgoingMc)
        ensures
            r.mutual_credit.snap() == mutual_credit.snap(),
            r.operations@.len() == 0,
            r.mutations@.len() == 0,
            r.max_operations == max_operations,
    {
        OutgoingMc {
            mutual_credit: mutual_credit.clone(),
            operations: Vec::new(),
            mutations: Vec::new(),
            max_operations,
        }
    }

    /// Validate `operation` against the speculative ledger and queue it, or
    /// reject it leaving the batch unchanged. A full batch rejects
    /// everything further.
    pub fn queue_operation(&mut self, operation: FriendTcOp) -> (r: Result<
        (),
        QueueOperationError,
    >)
        ensures
            match r {
                Ok(()) => {
                    &&& old(self).operations@.len() < old(self).max_operations
                    &&& outgoing_op_result(old(self).mutual_credit.snap(), operation@) == Ok::<
                        McSnap,
                        ProcessOperationError,
                    >(final(self).mutual_credit.snap())
                    &&& ops_view(final(self).operations@) == ops_view(old(self).operations@).push(
                        operation@,
                    )
                    &&& muts_view(final(self).mutations@) == muts_view(old(self).mutations@)
                        + crate::outgoing::outgoing_op_muts(
                        old(self).mutual_credit.snap(),
                        operation@,
                    )
                },
                Err(QueueOperationError::MaxOperationsReached) => {
                    &&& old(self).operations@.len() >= old(self).max_operations
                    &&& *final(self) == *old(self)
                },
                Err(QueueOperationError::InvalidOperation(e)) => {
                    &&& old(self).operations@.len() < old(self).max_operations
                    &&& outgoing_op_result(old(self).mutual_credit.snap(), operation@) == Err::<
                        McSnap,
                        ProcessOperationError,
                    >(e)
                    &&& final(self).mutual_credit.snap() == old(self).mutual_credit.snap()
                    &&& final(self).operations@ == old(self).operations@
                    &&& final(self).mutations@ == old(self).mutations@
                },
            },
            final(self).max_operations == old(self).max_operations,
            final(self).mutual_credit.idents_wf() == old(self).mutual_credit.idents_wf(),
    {
        if self.operations.len() >= self.max_operations {
            return Err(QueueOperationError::MaxOperationsReached);
        }
        let step = queue_step(&mut self.mutual_credit, &operation);
        match step {
            Err(e) => Err(QueueOperationError::InvalidOperation(e)),
            Ok(mut new_muts) => {
                proof {
                    assert(muts_view(self.mutations@ + new_muts@) =~= muts_view(self.mutations@)
                        + muts_view(new_muts@));
                }
                self.mutations.append(&mut new_muts);
                self.operations.push(operation);
                proof {
                    assert(ops_view(self.operations@) =~= ops_view(old(self).operations@).push(
                        self.operations@.last()@,
                    ));
                }
                Ok(())
            },
        }
    }

    /// Hand out the batch: the ordered operation list and the mutation log.
    /// The real mutation happens only when the caller later applies the
    /// produced move-token message.
    pub fn done(self) -> (r: (Vec<FriendTcOp>, Vec<TcMutation>))
        ensures
            r.0 == self.operations,
            r.1 == self.mutations,
    {
        (self.operations, self.mutations)
    }
}

/// Validate one outgoing operation against the ledger and apply it,
/// returning its mutation log; or reject it leaving the ledger untouched.
fn queue_step(mutual_credit: &mut TokenChannel, op: &FriendTcOp) -> (r: Result<
    Vec<TcMutation>,
    ProcessOperationError,
>)
    ensures
        match r {
            Ok(muts) => {
                &&& outgoing_op_result(old(mutual_credit).snap(), op@) == Ok::<
                    McSnap,
                    ProcessOperationError,
                >(final(mutual_credit).snap())
                &&& muts_view(muts@) == outgoing_op_muts(old(mutual_credit).snap(), op@)
            },
            Err(e) => {
                &&& outgoing_op_result(old(mutual_credit).snap(), op@) == Err::<
                    McSnap,
                    ProcessOperationError,
                >(e)
                &&& final(mutual_credit).snap() == old(mutual_credit).snap()
            },
        },
        final(mutual_credit).idents_wf() == old(mutual_credit).idents_wf(),
{
    match op {
        FriendTcOp::EnableRequests => {
            let m = TcMutation::SetLocalRequestsStatus(RequestsStatus::Open);
            mutual_credit.mutate(&m);
            let mut muts: Vec<TcMutation> = Vec::new();
            muts.push(m);
            proof {
                assert(muts_view(muts@) =~= outgoing_op_muts(old(mutual_credit).snap(), op@));
            }
            Ok(muts)
        },
        FriendTcOp::DisableRequests => {
            let m = TcMutation::SetLocalRequestsStatus(RequestsStatus::Closed);
            mutual_credit.mutate(&m);
            let mut muts: Vec<TcMutation> = Vec::new();
            muts.push(m);
            proof {
                assert(muts_view(muts@) =~= outgoing_op_muts(old(mutual_credit).snap(), op@));
            }
            Ok(muts)
        },
        FriendTcOp::SetRemoteMaxDebt(n) => {
            if *n > MAX_FUNDER_DEBT {
                return Err(ProcessOperationError::MaxDebtTooHigh);
            }
            if !sum_le_bound(
                mutual_credit.state.balance.balance,
                mutual_credit.state.balance.remote_pending_debt,
                *n,
            ) {
                return Err(ProcessOperationError::InsufficientTrust);
            }
            let m = TcMutation::SetRemoteMaxDebt(*n);
            mutual_credit.mutate(&m);
            let mut muts: Vec<TcMutation> = Vec::new();
            muts.push(m);
            proof {
                assert(muts_view(muts@) =~= outgoing_op_muts(old(mutual_credit).snap(), op@));
            }
            Ok(muts)
        },
        FriendTcOp::RequestSendFunds(req) => {
            if req.route.len() < 2 {
                return Err(ProcessOperationError::InvalidRoute);
            }
            if !matches!(mutual_credit.state.requests_status.remote, RequestsStatus::Open) {
                return Err(ProcessOperationError::RequestsClosed);
            }
            if crate::im_map::im_map_contains(
                &mutual_credit.state.pending_requests.pending_local_requests,
                req.request_id,
            ) {
                return Err(ProcessOperationError::RequestAlreadyExists);
            }
            let new_local_pending_debt = match mutual_credit
                .state
                .balance
                .local_pending_debt
                .checked_add(req.dest_payment) {
                None => {
                    return Err(ProcessOperationError::CreditsCalcOverflow);
                },
                Some(x) => x,
            };
            if !neg_sum_le_bound(
                mutual_credit.state.balance.balance,
                new_local_pending_debt,
                mutual_credit.state.balance.local_max_debt,
            ) {
                return Err(ProcessOperationError::InsufficientTrust);
            }
            let pending_request = crate::types::create_pending_request(req);
            let m1 = TcMutation::InsertLocalPendingRequest(pending_request);
            mutual_credit.mutate(&m1);
            let m2 = TcMutation::SetLocalPendingDebt(new_local_pending_debt);
            mutual_credit.mutate(&m2);
            let mut muts: Vec<TcMutation> = Vec::new();
            muts.push(m1);
            muts.push(m2);
            proof {
                assert(final(mutual_credit).snap() =~= outgoing_op_result(
                    old(mutual_credit).snap(),
                    op@,
                )->Ok_0);
                assert(muts_view(muts@) =~= outgoing_op_muts(old(mutual_credit).snap(), op@));
            }
            Ok(muts)
        },
        FriendTcOp::ResponseSendFunds(resp) => {
            let pending_request = match crate::im_map::im_map_get(
                &mutual_credit.state.pending_requests.pending_remote_requests,
                resp.request_id,
            ) {
                None => {
                    return Err(ProcessOperationError::RequestDoesNotExist);
                },
                Some(p) => p.clone(),
            };
            let new_remote_pending_debt = match mutual_credit
                .state
                .balance
                .remote_pending_debt
                .checked_sub(pending_request.dest_payment) {
                None => {
                    return Err(ProcessOperationError::InsufficientCredits);
                },
                Some(x) => x,
            };
            let new_balance = match mutual_credit.state.balance.balance.checked_add_unsigned(
                pending_request.dest_payment,
            ) {
                None => {
                    return Err(ProcessOperationError::CreditsCalcOverflow);
                },
                Some(x) => x,
            };
            let m1 = TcMutation::RemoveRemotePendingRequest(resp.request_id);
            mutual_credit.mutate(&m1);
            let m2 = TcMutation::SetRemotePendingDebt(new_remote_pending_debt);
            mutual_credit.mutate(&m2);
            let m3 = TcMutation::SetBalance(new_balance);
            mutual_credit.mutate(&m3);
            let mut muts: Vec<TcMutation> = Vec::new();
            muts.push(m1);
            muts.push(m2);
            muts.push(m3);
            proof {
                assert(final(mutual_credit).snap() =~= outgoing_op_result(
                    old(mutual_credit).snap(),
                    op@,
                )->Ok_0);
                assert(muts_view(muts@) =~= outgoing_op_muts(old(mutual_credit).snap(), op@));
            }
            Ok(muts)
        },
        FriendTcOp::FailureSendFunds(fail) => {
            let pending_request = match crate::im_map::im_map_get(
                &mutual_credit.state.pending_requests.pending_remote_requests,
                fail.request_id,
            ) {
                None => {
                    return Err(ProcessOperationError::RequestDoesNotExist);
                },
                Some(p) => p.clone(),
            };
            let new_remote_pending_debt = match mutual_credit
                .state
                .balance
                .remote_pending_debt
                .checked_sub(pending_request.dest_payment) {
                None => {
                    return Err(ProcessOperationError::InsufficientCredits);
                },
                Some(x) => x,
            };
            let m1 = TcMutation::RemoveRemotePendingRequest(fail.request_id);
            mutual_credit.mutate(&m1);
            let m2 = TcMutation::SetRemotePendingDebt(new_remote_pending_debt);
            mutual_credit.mutate(&m2);
            let mut muts: Vec<TcMutation> = Vec::new();
            muts.push(m1);
            muts.push(m2);
            proof {
                assert(final(mutual_credit).snap() =~= outgoing_op_result(
                    old(mutual_credit).snap(),
                    op@,
                )->Ok_0);
                assert(muts_view(muts@) =~= outgoing_op_muts(old(mutual_credit).snap(), op@));
            }
            Ok(muts)
        },
    }
}

} // verus!
