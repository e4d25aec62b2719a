//! The laws of the ledger: no accepted batch of operations can push a debt
//! past its granted ceiling, and a batch queued on one side replays on the
//! other side to the mirrored ledger, so the triple stated in a move-token
//! message is exactly what the receiver computes.

use vstd::prelude::*;

use crate::incoming::{incoming_op_result, incoming_ops_from};
use crate::ledger::{wf_snap, McSnap};
use crate::outgoing::{outgoing_op_result, outgoing_ops_from};
use crate::types::TcOpV;

verus! {

/// One accepted incoming operation preserves the ledger invariant.
pub proof fn lemma_incoming_op_preserves_wf(s: McSnap, op: TcOpV)
    requires
        wf_snap(s),
        incoming_op_result(s, op) is Ok,
    ensures
        wf_snap(incoming_op_result(s, op)->Ok_0),
{
}

/// One queued outgoing operation preserves the ledger invariant.
pub proof fn lemma_outgoing_op_preserves_wf(s: McSnap, op: TcOpV)
    requires
        wf_snap(s),
        outgoing_op_result(s, op) is Ok,
    ensures
        wf_snap(outgoing_op_result(s, op)->Ok_0),
{
}

/// For every sequence of operations that the incoming processor accepts,
/// the ledger invariant holds afterwards: neither side's possible future
/// debt passes the ceiling the other granted.
pub proof fn lemma_incoming_ops_preserve_wf(s: McSnap, ops: Seq<TcOpV>, i: int)
    requires
        wf_snap(s),
        incoming_ops_from(s, ops, i) is Ok,
    ensures
        wf_snap(incoming_ops_from(s, ops, i)->Ok_0),
    decreases ops.len() - i,
{
    if 0 <= i < ops.len() {
        lemma_incoming_op_preserves_wf(s, ops[i]);
        lemma_incoming_ops_preserve_wf(incoming_op_result(s, ops[i])->Ok_0, ops, i + 1);
    }
}

/// For every sequence of operations that the outgoing processor accepts,
/// the ledger invariant holds afterwards.
pub proof fn lemma_outgoing_ops_preserve_wf(s: McSnap, ops: Seq<TcOpV>, i: int)
    requires
        wf_snap(s),
        outgoing_ops_from(s, ops, i) is Ok,
    ensures
        wf_snap(outgoing_ops_from(s, ops, i)->Ok_0),
    decreases ops.len() - i,
{
    if 0 <= i < ops.len() {
        lemma_outgoing_op_preserves_wf(s, ops[i]);
        lemma_outgoing_ops_preserve_wf(outgoing_op_result(s, ops[i])->Ok_0, ops, i + 1);
    }
}

/// The same ledger as the peer sees it: the balance negated, every
/// local/remote pair swapped.
pub open spec fn mirror_snap(s: McSnap) -> McSnap {
    McSnap {
        local_public_key: s.remote_public_key,
        remote_public_key: s.local_public_key,
        balance: (-(s.balance as int)) as i128,
        local_max_debt: s.remote_max_debt,
        remote_max_debt: s.local_max_debt,
        local_pending_debt: s.remote_pending_debt,
        remote_pending_debt: s.local_pending_debt,
        local_open: s.remote_open,
        remote_open: s.local_open,
        pending_local: s.pending_remote,
        pending_remote: s.pending_local,
    }
}

/// One operation accepted by the outgoing processor is accepted by the
/// incoming processor on the mirrored ledger, and lands on the mirror of the
/// sender's result. The balance never decreases on the sender's side, so it
/// stays representable.
pub proof fn lemma_outgoing_incoming_mirror_op(s: McSnap, op: TcOpV)
    requires
        s.balance != i128::MIN,
        outgoing_op_result(s, op) is Ok,
    ensures
        incoming_op_result(mirror_snap(s), op) == Ok::<
            McSnap,
            crate::incoming::ProcessOperationError,
        >(mirror_snap(outgoing_op_result(s, op)->Ok_0)),
        outgoing_op_result(s, op)->Ok_0.balance >= s.balance,
{
    let m = mirror_snap(s);
    let post = outgoing_op_result(s, op)->Ok_0;
    match op {
        TcOpV::EnableRequests => {
            assert(incoming_op_result(m, op)->Ok_0 =~= mirror_snap(post));
        },
        TcOpV::DisableRequests => {
            assert(incoming_op_result(m, op)->Ok_0 =~= mirror_snap(post));
        },
        TcOpV::SetRemoteMaxDebt(n) => {
            assert(incoming_op_result(m, op)->Ok_0 =~= mirror_snap(post));
        },
        TcOpV::RequestSendFunds(req) => {
            assert(incoming_op_result(m, op)->Ok_0 =~= mirror_snap(post));
        },
        TcOpV::ResponseSendFunds(resp) => {
            assert(incoming_op_result(m, op)->Ok_0 =~= mirror_snap(post));
        },
        TcOpV::FailureSendFunds(fail) => {
            assert(incoming_op_result(m, op)->Ok_0 =~= mirror_snap(post));
        },
    }
}

/// Round trip: a whole batch accepted by the outgoing processor replays
/// through the incoming processor on the mirrored ledger and lands on the
/// mirror of the sender's result. Since a move-token message states the
/// sender's post-batch triple in the receiver's frame (balance negated,
/// pending debts swapped), the receiver's post-replay ledger carries exactly
/// the stated triple.
pub proof fn lemma_outgoing_batch_round_trip(s: McSnap, ops: Seq<TcOpV>, i: int)
    requires
        s.balance != i128::MIN,
        outgoing_ops_from(s, ops, i) is Ok,
    ensures
        incoming_ops_from(mirror_snap(s), ops, i) == Ok::<
            McSnap,
            crate::incoming::ProcessTransListError,
        >(mirror_snap(outgoing_ops_from(s, ops, i)->Ok_0)),
    decreases ops.len() - i,
{
    if 0 <= i < ops.len() {
        lemma_outgoing_incoming_mirror_op(s, ops[i]);
        lemma_outgoing_batch_round_trip(outgoing_op_result(s, ops[i])->Ok_0, ops, i + 1);
    }
}

} // verus!
