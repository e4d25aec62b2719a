//! The mutual-credit ledger: balance, debt ceilings, pending-request sets
//! and requests-open flags, together with the closed set of mutations that
//! can change it. Every mutation is a total function over the state; illegal
//! values are rejected one layer up, by the operation processors.

use vstd::prelude::*;

use crate::crypto::{PublicKey, RandValue, Signature};
use crate::im_map::{im_map_clone, im_map_contents, im_map_insert, im_map_new, im_map_remove};
use crate::types::{
    FriendTcOp, PendingFriendRequest, PendingFriendRequestV, RequestsStatus,
};

verus! {

/// The maximum debt either ceiling may grant. The full u128 range is not
/// used because the signed 128-bit balance cannot go beyond this value.
pub const MAX_FUNDER_DEBT: u128 = 170141183460469231731687303715884105727u128;

#[derive(Debug)]
pub struct TcIdents {
    /// My public key
    pub local_public_key: PublicKey,
    /// Friend's public key
    pub remote_public_key: PublicKey,
}

impl Clone for TcIdents {
    fn clone(&self) -> (r: TcIdents)
        ensures
            r.local_public_key@ == self.local_public_key@,
            r.remote_public_key@ == self.remote_public_key@,
    {
        TcIdents {
            local_public_key: self.local_public_key.clone(),
            remote_public_key: self.remote_public_key.clone(),
        }
    }
}

#[derive(Clone, Copy, Debug, PartialEq, Eq, Structural)]
pub struct TcBalance {
    /// Amount of credits this side has against the remote side.
    /// The other side keeps the negation of this value.
    pub balance: i128,
    /// Maximum possible remote debt
    pub remote_max_debt: u128,
    /// Maximum possible local debt
    pub local_max_debt: u128,
    /// Frozen credits by our side
    pub local_pending_debt: u128,
    /// Frozen credits by the remote side
    pub remote_pending_debt: u128,
}

impl TcBalance {
    /// Seed the ceilings from the sign of the initial balance: the side in
    /// debt starts with a ceiling that covers exactly that debt, the other
    /// side with zero.
    pub fn new(balance: i128) -> (r: TcBalance)
        requires
            balance != i128::MIN,
        ensures
            r.balance == balance,
            r.remote_max_debt == if balance >= 0 {
                balance as u128
            } else {
                0u128
            },
            r.local_max_debt == if balance <= 0 {
                (-balance) as u128
            } else {
                0u128
            },
            r.local_pending_debt == 0,
            r.remote_pending_debt == 0,
    {
        TcBalance {
            balance,
            remote_max_debt: if balance >= 0 {
                balance as u128
            } else {
                0
            },
            local_max_debt: if balance <= 0 {
                (-balance) as u128
            } else {
                0
            },
            local_pending_debt: 0,
            remote_pending_debt: 0,
        }
    }
}

#[derive(Debug)]
pub struct TcPendingRequests {
    /// Pending requests that were opened locally and not yet completed
    pub pending_local_requests: im::HashMap<u128, PendingFriendRequest>,
    /// Pending requests that were opened remotely and not yet completed
    pub pending_remote_requests: im::HashMap<u128, PendingFriendRequest>,
}

impl TcPendingRequests {
    fn new() -> (r: TcPendingRequests)
        ensures
            forall|k: u128| !im_map_contents(r.pending_local_requests).dom().contains(k),
            forall|k: u128| !im_map_contents(r.pending_remote_requests).dom().contains(k),
    {
        TcPendingRequests {
            pending_local_requests: im_map_new(),
            pending_remote_requests: im_map_new(),
        }
    }
}

impl Clone for TcPendingRequests {
    fn clone(&self) -> (r: TcPendingRequests)
        ensures
            im_map_contents(r.pending_local_requests) == im_map_contents(
                self.pending_local_requests,
            ),
            im_map_contents(r.pending_remote_requests) == im_map_contents(
                self.pending_remote_requests,
            ),
    {
        TcPendingRequests {
            pending_local_requests: im_map_clone(&self.pending_local_requests),
            pending_remote_requests: im_map_clone(&self.pending_remote_requests),
        }
    }
}

#[derive(Clone, Copy, Debug, PartialEq, Eq, Structural)]
pub struct TcRequestsStatus {
    /// Local is open/closed for incoming requests:
    pub local: RequestsStatus,
    /// Remote is open/closed for incoming requests:
    pub remote: RequestsStatus,
}

impl TcRequestsStatus {
    pub fn new() -> (r: TcRequestsStatus)
        ensures
            r.local == RequestsStatus::Closed,
            r.remote == RequestsStatus::Closed,
    {
        TcRequestsStatus { local: RequestsStatus::Closed, remote: RequestsStatus::Closed }
    }
}

#[derive(Debug)]
pub struct TokenChannelState {
    pub idents: TcIdents,
    pub balance: TcBalance,
    pub pending_requests: TcPendingRequests,
    pub requests_status: TcRequestsStatus,
}

impl Clone for TokenChannelState {
    fn clone(&self) -> (r: TokenChannelState)
        ensures
            r.idents.local_public_key@ == self.idents.local_public_key@,
            r.idents.remote_public_key@ == self.idents.remote_public_key@,
            r.balance == self.balance,
            im_map_contents(r.pending_requests.pending_local_requests) == im_map_contents(
                self.pending_requests.pending_local_requests,
            ),
            im_map_contents(r.pending_requests.pending_remote_requests) == im_map_contents(
                self.pending_requests.pending_remote_requests,
            ),
            r.requests_status == self.requests_status,
    {
        TokenChannelState {
            idents: self.idents.clone(),
            balance: self.balance,
            pending_requests: self.pending_requests.clone(),
            requests_status: self.requests_status,
        }
    }
}

/// The ledger of mutual credit between the two sides of a channel.
#[derive(Debug)]
pub struct TokenChannel {
    pub state: TokenChannelState,
}

/// A legacy form of the move-token message body, kept for compatibility:
/// operations with the chaining token and nonce, without the counters and
/// the balance snapshot.
#[derive(Debug)]
pub struct FriendMoveTokenInner {
    pub operations: Vec<FriendTcOp>,
    pub old_token: Signature,
    pub rand_nonce: RandValue,
}

/// One of the closed set of ledger mutations.
#[derive(Debug)]
pub enum TcMutation {
    SetLocalRequestsStatus(RequestsStatus),
    SetRemoteRequestsStatus(RequestsStatus),
    SetLocalMaxDebt(u128),
    SetRemoteMaxDebt(u128),
    SetBalance(i128),
    InsertLocalPendingRequest(PendingFriendRequest),
    RemoveLocalPendingRequest(u128),
    InsertRemotePendingRequest(PendingFriendRequest),
    RemoveRemotePendingRequest(u128),
    SetLocalPendingDebt(u128),
    SetRemotePendingDebt(u128),
}

pub enum TcMutationV {
    SetLocalRequestsStatus(RequestsStatus),
    SetRemoteRequestsStatus(RequestsStatus),
    SetLocalMaxDebt(u128),
    SetRemoteMaxDebt(u128),
    SetBalance(i128),
    InsertLocalPendingRequest(PendingFriendRequestV),
    RemoveLocalPendingRequest(u128),
    InsertRemotePendingRequest(PendingFriendRequestV),
    RemoveRemotePendingRequest(u128),
    SetLocalPendingDebt(u128),
    SetRemotePendingDebt(u128),
}

impl View for TcMutation {
    type V = TcMutationV;

    open spec fn view(&self) -> TcMutationV {
        match self {
            TcMutation::SetLocalRequestsStatus(s) => TcMutationV::SetLocalRequestsStatus(*s),
            TcMutation::SetRemoteRequestsStatus(s) => TcMutationV::SetRemoteRequestsStatus(*s),
            TcMutation::SetLocalMaxDebt(n) => TcMutationV::SetLocalMaxDebt(*n),
            TcMutation::SetRemoteMaxDebt(n) => TcMutationV::SetRemoteMaxDebt(*n),
            TcMutation::SetBalance(b) => TcMutationV::SetBalance(*b),
            TcMutation::InsertLocalPendingRequest(p) => TcMutationV::InsertLocalPendingRequest(p@),
            TcMutation::RemoveLocalPendingRequest(id) => TcMutationV::RemoveLocalPendingRequest(
                *id,
            ),
            TcMutation::InsertRemotePendingRequest(p) => TcMutationV::InsertRemotePendingRequest(
                p@,
            ),
            TcMutation::RemoveRemotePendingRequest(id) => TcMutationV::RemoveRemotePendingRequest(
                *id,
            ),
            TcMutation::SetLocalPendingDebt(n) => TcMutationV::SetLocalPendingDebt(*n),
            TcMutation::SetRemotePendingDebt(n) => TcMutationV::SetRemotePendingDebt(*n),
        }
    }
}

/// The mathematical model of the ledger.
#[verifier::ext_equal]
pub struct McSnap {
    pub local_public_key: Seq<u8>,
    pub remote_public_key: Seq<u8>,
    pub balance: i128,
    pub local_max_debt: u128,
    pub remote_max_debt: u128,
    pub local_pending_debt: u128,
    pub remote_pending_debt: u128,
    pub local_open: bool,
    pub remote_open: bool,
    pub pending_local: Map<u128, PendingFriendRequestV>,
    pub pending_remote: Map<u128, PendingFriendRequestV>,
}

pub open spec fn pending_view(m: Map<u128, PendingFriendRequest>) -> Map<
    u128,
    PendingFriendRequestV,
> {
    m.map_values(|p: PendingFriendRequest| p@)
}

impl TokenChannel {
    /// The ledger as a mathematical value.
    pub open spec fn snap(&self) -> McSnap {
        McSnap {
            local_public_key: self.state.idents.local_public_key@,
            remote_public_key: self.state.idents.remote_public_key@,
            balance: self.state.balance.balance,
            local_max_debt: self.state.balance.local_max_debt,
            remote_max_debt: self.state.balance.remote_max_debt,
            local_pending_debt: self.state.balance.local_pending_debt,
            remote_pending_debt: self.state.balance.remote_pending_debt,
            local_open: self.state.requests_status.local == RequestsStatus::Open,
            remote_open: self.state.requests_status.remote == RequestsStatus::Open,
            pending_local: pending_view(
                im_map_contents(self.state.pending_requests.pending_local_requests),
            ),
            pending_remote: pending_view(
                im_map_contents(self.state.pending_requests.pending_remote_requests),
            ),
        }
    }

    pub open spec fn idents_wf(&self) -> bool {
        &&& self.state.idents.local_public_key.wf()
        &&& self.state.idents.remote_public_key.wf()
    }
}

/// The ledger invariant: ceilings within range, and neither side's possible
/// future debt beyond the ceiling the other side granted. If every pending
/// request of ours resolved against us the balance would drop by our pending
/// debt; the result must stay above the negated ceiling granted to us, and
/// symmetrically for the remote side.
pub open spec fn wf_snap(s: McSnap) -> bool {
    &&& s.local_max_debt <= MAX_FUNDER_DEBT
    &&& s.remote_max_debt <= MAX_FUNDER_DEBT
    &&& (-s.balance) + s.local_pending_debt <= s.local_max_debt
    &&& s.balance + s.remote_pending_debt <= s.remote_max_debt
}

/// The effect of one mutation on the model: a total function.
pub open spec fn apply_mutation_snap(s: McSnap, m: TcMutationV) -> McSnap {
    match m {
        TcMutationV::SetLocalRequestsStatus(st) => McSnap {
            local_open: st == RequestsStatus::Open,
            ..s
        },
        TcMutationV::SetRemoteRequestsStatus(st) => McSnap {
            remote_open: st == RequestsStatus::Open,
            ..s
        },
        TcMutationV::SetLocalMaxDebt(n) => McSnap { local_max_debt: n, ..s },
        TcMutationV::SetRemoteMaxDebt(n) => McSnap { remote_max_debt: n, ..s },
        TcMutationV::SetBalance(b) => McSnap { balance: b, ..s },
        TcMutationV::InsertLocalPendingRequest(p) => McSnap {
            pending_local: s.pending_local.insert(p.request_id, p),
            ..s
        },
        TcMutationV::RemoveLocalPendingRequest(id) => McSnap {
            pending_local: s.pending_local.remove(id),
            ..s
        },
        TcMutationV::InsertRemotePendingRequest(p) => McSnap {
            pending_remote: s.pending_remote.insert(p.request_id, p),
            ..s
        },
        TcMutationV::RemoveRemotePendingRequest(id) => McSnap {
            pending_remote: s.pending_remote.remove(id),
            ..s
        },
        TcMutationV::SetLocalPendingDebt(n) => McSnap { local_pending_debt: n, ..s },
        TcMutationV::SetRemotePendingDebt(n) => McSnap { remote_pending_debt: n, ..s },
    }
}

/// The effect of a sequence of mutations, applied in order.
pub open spec fn apply_mutations_snap(s: McSnap, ms: Seq<TcMutationV>) -> McSnap
    decreases ms.len(),
{
    if ms.len() == 0 {
        s
    } else {
        apply_mutations_snap(apply_mutation_snap(s, ms[0]), ms.skip(1))
    }
}

pub open spec fn muts_view(ms: Seq<TcMutation>) -> Seq<TcMutationV> {
    ms.map_values(|m: TcMutation| m@)
}

/// The model after a fresh ledger is created at `balance`.
pub open spec fn mc_new_snap(local_pk: Seq<u8>, remote_pk: Seq<u8>, balance: i128) -> McSnap {
    McSnap {
        local_public_key: local_pk,
        remote_public_key: remote_pk,
        balance,
        local_max_debt: if balance <= 0 {
            (-balance) as u128
        } else {
            0u128
        },
        remote_max_debt: if balance >= 0 {
            balance as u128
        } else {
            0u128
        },
        local_pending_debt: 0,
        remote_pending_debt: 0,
        local_open: false,
        remote_open: false,
        pending_local: Map::empty(),
        pending_remote: Map::empty(),
    }
}

impl TokenChannel {
    pub fn new(local_public_key: &PublicKey, remote_public_key: &PublicKey, balance: i128) -> (r:
        TokenChannel)
        requires
            balance != i128::MIN,
        ensures
            r.snap() == mc_new_snap(local_public_key@, remote_public_key@, balance),
            r.idents_wf() == (local_public_key.wf() && remote_public_key.wf()),
            wf_snap(r.snap()),
    {
        let r = TokenChannel {
            state: TokenChannelState {
                idents: TcIdents {
                    local_public_key: local_public_key.clone(),
                    remote_public_key: remote_public_key.clone(),
                },
                balance: TcBalance::new(balance),
                pending_requests: TcPendingRequests::new(),
                requests_status: TcRequestsStatus::new(),
            },
        };
        proof {
            assert(pending_view(
                im_map_contents(r.state.pending_requests.pending_local_requests),
            ) =~= Map::<u128, PendingFriendRequestV>::empty());
            assert(pending_view(
                im_map_contents(r.state.pending_requests.pending_remote_requests),
            ) =~= Map::<u128, PendingFriendRequestV>::empty());
        }
        r
    }

    /// Calculate the balance required to rebuild the channel after a reset:
    /// the current balance plus what the remote side has frozen.
    pub fn balance_for_reset(&self) -> (r: i128)
        requires
            self.snap().balance + self.snap().remote_pending_debt <= i128::MAX,
        ensures
            r == self.snap().balance + self.snap().remote_pending_debt,
    {
        match self.state.balance.balance.checked_add_unsigned(
            self.state.balance.remote_pending_debt,
        ) {
            Some(r) => r,
            None => {
                // Unreachable: the precondition bounds the sum.
                assert(false);
                0
            },
        }
    }

    pub fn state(&self) -> (r: &TokenChannelState)
        ensures
            r == &self.state,
    {
        &self.state
    }

    pub fn mutate(&mut self, tc_mutation: &TcMutation)
        ensures
            final(self).snap() == apply_mutation_snap(old(self).snap(), tc_mutation@),
            final(self).idents_wf() == old(self).idents_wf(),
            final(self).state.idents.local_public_key@ == old(
                self,
            ).state.idents.local_public_key@,
            final(self).state.idents.remote_public_key@ == old(
                self,
            ).state.idents.remote_public_key@,
    {
        match tc_mutation {
            TcMutation::SetLocalRequestsStatus(requests_status) => self.set_local_requests_status(
                *requests_status,
            ),
            TcMutation::SetRemoteRequestsStatus(requests_status) => self
                .set_remote_requests_status(*requests_status),
            TcMutation::SetLocalMaxDebt(proposed_max_debt) => self.set_local_max_debt(
                *proposed_max_debt,
            ),
            TcMutation::SetRemoteMaxDebt(proposed_max_debt) => self.set_remote_max_debt(
                *proposed_max_debt,
            ),
            TcMutation::SetBalance(balance) => self.set_balance(*balance),
            TcMutation::InsertLocalPendingRequest(pending_friend_request) => self
                .insert_local_pending_request(pending_friend_request),
            TcMutation::RemoveLocalPendingRequest(request_id) => self.remove_local_pending_request(
                *request_id,
            ),
            TcMutation::InsertRemotePendingRequest(pending_friend_request) => self
                .insert_remote_pending_request(pending_friend_request),
            TcMutation::RemoveRemotePendingRequest(request_id) => self
                .remove_remote_pending_request(*request_id),
            TcMutation::SetLocalPendingDebt(local_pending_debt) => self.set_local_pending_debt(
                *local_pending_debt,
            ),
            TcMutation::SetRemotePendingDebt(remote_pending_debt) => self.set_remote_pending_debt(
                *remote_pending_debt,
            ),
        }
    }

    fn set_local_requests_status(&mut self, requests_status: RequestsStatus)
        ensures
            final(self).snap() == apply_mutation_snap(
                old(self).snap(),
                TcMutationV::SetLocalRequestsStatus(requests_status),
            ),
            final(self).state.idents == old(self).state.idents,
    {
        self.state.requests_status.local = requests_status;
    }

    fn set_remote_requests_status(&mut self, requests_status: RequestsStatus)
        ensures
            final(self).snap() == apply_mutation_snap(
                old(self).snap(),
                TcMutationV::SetRemoteRequestsStatus(requests_status),
            ),
            final(self).state.idents == old(self).state.idents,
    {
        self.state.requests_status.remote = requests_status;
    }

    fn set_remote_max_debt(&mut self, proposed_max_debt: u128)
        ensures
            final(self).snap() == apply_mutation_snap(
                old(self).snap(),
                TcMutationV::SetRemoteMaxDebt(proposed_max_debt),
            ),
            final(self).state.idents == old(self).state.idents,
    {
        self.state.balance.remote_max_debt = proposed_max_debt;
    }

    fn set_local_max_debt(&mut self, proposed_max_debt: u128)
        ensures
            final(self).snap() == apply_mutation_snap(
                old(self).snap(),
                TcMutationV::SetLocalMaxDebt(proposed_max_debt),
            ),
            final(self).state.idents == old(self).state.idents,
    {
        self.state.balance.local_max_debt = proposed_max_debt;
    }

    fn set_balance(&mut self, balance: i128)
        ensures
            final(self).snap() == apply_mutation_snap(
                old(self).snap(),
                TcMutationV::SetBalance(balance),
            ),
            final(self).state.idents == old(self).state.idents,
    {
        self.state.balance.balance = balance;
    }

    fn insert_remote_pending_request(&mut self, pending_friend_request: &PendingFriendRequest)
        ensures
            final(self).snap() == apply_mutation_snap(
                old(self).snap(),
                TcMutationV::InsertRemotePendingRequest(pending_friend_request@),
            ),
            final(self).state.idents == old(self).state.idents,
    {
        im_map_insert(
            &mut self.state.pending_requests.pending_remote_requests,
            pending_friend_request.request_id,
            pending_friend_request.clone(),
        );
        proof {
            assert(self.snap().pending_remote =~= old(self).snap().pending_remote.insert(
                pending_friend_request@.request_id,
                pending_friend_request@,
            ));
        }
    }

    fn remove_remote_pending_request(&mut self, request_id: u128)
        ensures
            final(self).snap() == apply_mutation_snap(
                old(self).snap(),
                TcMutationV::RemoveRemotePendingRequest(request_id),
            ),
            final(self).state.idents == old(self).state.idents,
    {
        im_map_remove(&mut self.state.pending_requests.pending_remote_requests, request_id);
        proof {
            assert(self.snap().pending_remote =~= old(self).snap().pending_remote.remove(
                request_id,
            ));
        }
    }

    fn insert_local_pending_request(&mut self, pending_friend_request: &PendingFriendRequest)
        ensures
            final(self).snap() == apply_mutation_snap(
                old(self).snap(),
                TcMutationV::InsertLocalPendingRequest(pending_friend_request@),
            ),
            final(self).state.idents == old(self).state.idents,
    {
        im_map_insert(
            &mut self.state.pending_requests.pending_local_requests,
            pending_friend_request.request_id,
            pending_friend_request.clone(),
        );
        proof {
            assert(self.snap().pending_local =~= old(self).snap().pending_local.insert(
                pending_friend_request@.request_id,
                pending_friend_request@,
            ));
        }
    }

    fn remove_local_pending_request(&mut self, request_id: u128)
        ensures
            final(self).snap() == apply_mutation_snap(
                old(self).snap(),
                TcMutationV::RemoveLocalPendingRequest(request_id),
            ),
            final(self).state.idents == old(self).state.idents,
    {
        im_map_remove(&mut self.state.pending_requests.pending_local_requests, request_id);
        proof {
            assert(self.snap().pending_local =~= old(self).snap().pending_local.remove(
                request_id,
            ));
        }
    }

    fn set_remote_pending_debt(&mut self, remote_pending_debt: u128)
        ensures
            final(self).snap() == apply_mutation_snap(
                old(self).snap(),
                TcMutationV::SetRemotePendingDebt(remote_pending_debt),
            ),
            final(self).state.idents == old(self).state.idents,
    {
        self.state.balance.remote_pending_debt = remote_pending_debt;
    }

    fn set_local_pending_debt(&mut self, local_pending_debt: u128)
        ensures
            final(self).snap() == apply_mutation_snap(
                old(self).snap(),
                TcMutationV::SetLocalPendingDebt(local_pending_debt),
            ),
            final(self).state.idents == old(self).state.idents,
    {
        self.state.balance.local_pending_debt = local_pending_debt;
    }
}

impl Clone for TcMutation {
    fn clone(&self) -> (r: TcMutation)
        ensures
            r@ == self@,
    {
        match self {
            TcMutation::SetLocalRequestsStatus(st) => TcMutation::SetLocalRequestsStatus(*st),
            TcMutation::SetRemoteRequestsStatus(st) => TcMutation::SetRemoteRequestsStatus(*st),
            TcMutation::SetLocalMaxDebt(n) => TcMutation::SetLocalMaxDebt(*n),
            TcMutation::SetRemoteMaxDebt(n) => TcMutation::SetRemoteMaxDebt(*n),
            TcMutation::SetBalance(b) => TcMutation::SetBalance(*b),
            TcMutation::InsertLocalPendingRequest(p) => TcMutation::InsertLocalPendingRequest(
                p.clone(),
            ),
            TcMutation::RemoveLocalPendingRequest(id) => TcMutation::RemoveLocalPendingRequest(
                *id,
            ),
            TcMutation::InsertRemotePendingRequest(p) => TcMutation::InsertRemotePendingRequest(
                p.clone(),
            ),
            TcMutation::RemoveRemotePendingRequest(id) => TcMutation::RemoveRemotePendingRequest(
                *id,
            ),
            TcMutation::SetLocalPendingDebt(n) => TcMutation::SetLocalPendingDebt(*n),
            TcMutation::SetRemotePendingDebt(n) => TcMutation::SetRemotePendingDebt(*n),
        }
    }
}

impl Clone for TokenChannel {
    fn clone(&self) -> (r: TokenChannel)
        ensures
            r.snap() == self.snap(),
            r.idents_wf() == self.idents_wf(),
    {
        TokenChannel { state: self.state.clone() }
    }
}

} // verus!
