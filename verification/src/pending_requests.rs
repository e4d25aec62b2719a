//! The pending-request book of the messenger: the requests opened locally
//! and remotely, keyed by their unique id, with a transactional layer that
//! can take back every change if a batch is abandoned.

use vstd::prelude::*;

use std::collections::HashMap;

use crate::credit_calc::{NeighborRouteLink, NeighborsRoute, NetworkerSendPrice,
    PaymentProposalPair};

verus! {

/// A view of one route hop.
pub struct NeighborRouteLinkV {
    pub node_public_key: Seq<u8>,
    pub payment_proposal_pair: PaymentProposalPair,
}

/// A view of a route.
pub struct NeighborsRouteV {
    pub route_links: Seq<NeighborRouteLinkV>,
    pub dest_response_proposal: NetworkerSendPrice,
}

impl View for NeighborRouteLink {
    type V = NeighborRouteLinkV;

    open spec fn view(&self) -> NeighborRouteLinkV {
        NeighborRouteLinkV {
            node_public_key: self.node_public_key@,
            payment_proposal_pair: self.payment_proposal_pair,
        }
    }
}

impl View for NeighborsRoute {
    type V = NeighborsRouteV;

    open spec fn view(&self) -> NeighborsRouteV {
        NeighborsRouteV {
            route_links: self.route_links@.map_values(|l: NeighborRouteLink| l@),
            dest_response_proposal: self.dest_response_proposal,
        }
    }
}

pub fn clone_neighbors_route(route: &NeighborsRoute) -> (r: NeighborsRoute)
    ensures
        r@ == route@,
{
    let mut route_links: Vec<NeighborRouteLink> = Vec::new();
    let mut i: usize = 0;
    while i < route.route_links.len()
        invariant
            i <= route.route_links@.len(),
            route_links@.len() == i,
            forall|j: int| 0 <= j < i ==> route_links@[j]@ == route.route_links@[j]@,
        decreases route.route_links@.len() - i,
    {
        let link = &route.route_links[i];
        route_links.push(
            NeighborRouteLink {
                node_public_key: link.node_public_key.clone(),
                payment_proposal_pair: link.payment_proposal_pair,
            },
        );
        i = i + 1;
    }
    proof {
        assert(route_links@.map_values(|l: NeighborRouteLink| l@)
            =~= route.route_links@.map_values(|l: NeighborRouteLink| l@));
    }
    NeighborsRoute { route_links, dest_response_proposal: route.dest_response_proposal }
}

/// A request awaiting its response or failure, with everything the credit
/// calculator needs to price it.
#[derive(Debug)]
pub struct PendingNeighborRequest {
    pub request_id: u128,
    pub route: NeighborsRoute,
    pub request_content_len: u32,
    pub max_response_len: u32,
    pub processing_fee_proposal: u64,
}

pub struct PendingNeighborRequestV {
    pub request_id: u128,
    pub route: NeighborsRouteV,
    pub request_content_len: u32,
    pub max_response_len: u32,
    pub processing_fee_proposal: u64,
}

impl View for PendingNeighborRequest {
    type V = PendingNeighborRequestV;

    open spec fn view(&self) -> PendingNeighborRequestV {
        PendingNeighborRequestV {
            request_id: self.request_id,
            route: self.route@,
            request_content_len: self.request_content_len,
            max_response_len: self.max_response_len,
            processing_fee_proposal: self.processing_fee_proposal,
        }
    }
}

impl Clone for PendingNeighborRequest {
    fn clone(&self) -> (r: PendingNeighborRequest)
        ensures
            r@ == self@,
    {
        PendingNeighborRequest {
            request_id: self.request_id,
            route: clone_neighbors_route(&self.route),
            request_content_len: self.request_content_len,
            max_response_len: self.max_response_len,
            processing_fee_proposal: self.processing_fee_proposal,
        }
    }
}

/// The deep view of a pending-request map.
pub open spec fn prs_view(m: Map<u128, PendingNeighborRequest>) -> Map<
    u128,
    PendingNeighborRequestV,
> {
    m.map_values(|p: PendingNeighborRequest| p@)
}

/// The book of pending requests, keyed by request id.
#[derive(Debug)]
pub struct PendingRequests {
    pub pending_local_requests: HashMap<u128, PendingNeighborRequest>,
    pub pending_remote_requests: HashMap<u128, PendingNeighborRequest>,
}

impl PendingRequests {
    pub fn new() -> (r: PendingRequests)
        ensures
            prs_view(r.pending_local_requests@) =~= Map::<u128, PendingNeighborRequestV>::empty(),
            prs_view(r.pending_remote_requests@) =~= Map::<u128, PendingNeighborRequestV>::empty(),
    {
        let r = PendingRequests {
            pending_local_requests: HashMap::new(),
            pending_remote_requests: HashMap::new(),
        };
        proof {
            assert(prs_view(r.pending_local_requests@) =~= Map::<
                u128,
                PendingNeighborRequestV,
            >::empty());
            assert(prs_view(r.pending_remote_requests@) =~= Map::<
                u128,
                PendingNeighborRequestV,
            >::empty());
        }
        r
    }
}

/// One recorded change: the key touched and the value it held before, or
/// nothing if the key was absent.
pub struct UndoEntry {
    pub key: u128,
    pub old_value: Option<PendingNeighborRequest>,
}

/// Taking back a journal of changes, newest first.
pub open spec fn undo_apply(
    m: Map<u128, PendingNeighborRequestV>,
    journal: Seq<UndoEntry>,
) -> Map<u128, PendingNeighborRequestV>
    decreases journal.len(),
{
    if journal.len() == 0 {
        m
    } else {
        let e = journal.last();
        let m2 = match e.old_value {
            None => m.remove(e.key),
            Some(p) => m.insert(e.key, p@),
        };
        undo_apply(m2, journal.drop_last())
    }
}

/// A transactional layer over a pending-request book: every change is
/// journalled, so the whole batch can be taken back with `cancel` or kept
/// with `commit`.
pub struct TransPendingRequests {
    pub pending_requests: PendingRequests,
    pub undo_local: Vec<UndoEntry>,
    pub undo_remote: Vec<UndoEntry>,
    pub orig_local: Ghost<Map<u128, PendingNeighborRequestV>>,
    pub orig_remote: Ghost<Map<u128, PendingNeighborRequestV>>,
}

impl TransPendingRequests {
    /// Undoing the journals from the current book restores the book this
    /// transaction started from.
    pub open spec fn wf(&self) -> bool {
        &&& undo_apply(prs_view(self.pending_requests.pending_local_requests@), self.undo_local@)
            == self.orig_local@
        &&& undo_apply(
            prs_view(self.pending_requests.pending_remote_requests@),
            self.undo_remote@,
        ) == self.orig_remote@
    }

    pub open spec fn local_view(&self) -> Map<u128, PendingNeighborRequestV> {
        prs_view(self.pending_requests.pending_local_requests@)
    }

    pub open spec fn remote_view(&self) -> Map<u128, PendingNeighborRequestV> {
        prs_view(self.pending_requests.pending_remote_requests@)
    }

    /// Start a transaction over `pending_requests`.
    pub fn new(pending_requests: PendingRequests) -> (r: TransPendingRequests)
        ensures
            r.wf(),
            r.local_view() == prs_view(pending_requests.pending_local_requests@),
            r.remote_view() == prs_view(pending_requests.pending_remote_requests@),
            r.orig_local@ == prs_view(pending_requests.pending_local_requests@),
            r.orig_remote@ == prs_view(pending_requests.pending_remote_requests@),
    {
        let r = TransPendingRequests {
            orig_local: Ghost(prs_view(pending_requests.pending_local_requests@)),
            orig_remote: Ghost(prs_view(pending_requests.pending_remote_requests@)),
            pending_requests,
            undo_local: Vec::new(),
            undo_remote: Vec::new(),
        };
        r
    }

    /// Abandon the transaction: take back every journalled change and hand
    /// the restored book out.
    pub fn cancel(self) -> (r: PendingRequests)
        requires
            self.wf(),
        ensures
            prs_view(r.pending_local_requests@) == self.orig_local@,
            prs_view(r.pending_remote_requests@) == self.orig_remote@,
    {
        let TransPendingRequests {
            mut pending_requests,
            mut undo_local,
            mut undo_remote,
            orig_local,
            orig_remote,
        } = self;
        undo_map(&mut pending_requests.pending_local_requests, &mut undo_local);
        undo_map(&mut pending_requests.pending_remote_requests, &mut undo_remote);
        pending_requests
    }

    /// Keep the transaction: hand the changed book out.
    pub fn commit(self) -> (r: PendingRequests)
        ensures
            prs_view(r.pending_local_requests@) == self.local_view(),
            prs_view(r.pending_remote_requests@) == self.remote_view(),
    {
        self.pending_requests
    }

    /// Record a request opened by the remote side; an id already pending is
    /// refused.
    pub fn add_pending_remote_request(&mut self, pending_request: PendingNeighborRequest) -> (r:
        bool)
        requires
            old(self).wf(),
        ensures
            final(self).wf(),
            r == !old(self).remote_view().dom().contains(pending_request.request_id),
            r ==> final(self).remote_view() == old(self).remote_view().insert(
                pending_request.request_id,
                pending_request@,
            ),
            !r ==> final(self).remote_view() == old(self).remote_view(),
            final(self).local_view() == old(self).local_view(),
            final(self).orig_local == old(self).orig_local,
            final(self).orig_remote == old(self).orig_remote,
    {
        if self.pending_requests.pending_remote_requests.contains_key(
            &pending_request.request_id,
        ) {
            proof {
                assert(self.remote_view().dom() =~= self
                    .pending_requests
                    .pending_remote_requests@.dom());
            }
            return false;
        }
        let key = pending_request.request_id;
        let old_value = self.pending_requests.pending_remote_requests.insert(
            key,
            pending_request,
        );
        self.undo_remote.push(UndoEntry { key, old_value });
        proof {
            assert(self.remote_view() =~= old(self).remote_view().insert(
                key,
                self.pending_requests.pending_remote_requests@[key]@,
            ));
            assert(self.undo_remote@.drop_last() =~= old(self).undo_remote@);
            assert(self.remote_view().remove(key) =~= old(self).remote_view());
        }
        true
    }

    /// Resolve a locally opened request: remove and return it, if it is
    /// pending.
    pub fn remove_local_pending_request(&mut self, request_id: u128) -> (r: Option<
        PendingNeighborRequest,
    >)
        requires
            old(self).wf(),
        ensures
            final(self).wf(),
            match r {
                Some(p) => old(self).local_view().dom().contains(request_id) && p@ == old(
                    self,
                ).local_view()[request_id] && final(self).local_view()
                    == old(self).local_view().remove(request_id),
                None => !old(self).local_view().dom().contains(request_id)
                    && final(self).local_view() == old(self).local_view(),
            },
            final(self).remote_view() == old(self).remote_view(),
            final(self).orig_local == old(self).orig_local,
            final(self).orig_remote == old(self).orig_remote,
    {
        match self.pending_requests.pending_local_requests.remove(&request_id) {
            None => {
                proof {
                    assert(self.pending_requests.pending_local_requests@ =~= old(
                        self,
                    ).pending_requests.pending_local_requests@);
                    assert(self.local_view().dom() =~= self
                        .pending_requests
                        .pending_local_requests@.dom());
                }
                None
            },
            Some(p) => {
                let returned = p.clone();
                self.undo_local.push(UndoEntry { key: request_id, old_value: Some(p) });
                proof {
                    assert(prs_view(old(self).pending_requests.pending_local_requests@)[request_id]
                        == old(self).pending_requests.pending_local_requests@[request_id]@);
                    assert(self.local_view() =~= old(self).local_view().remove(request_id));
                    assert(self.undo_local@.drop_last() =~= old(self).undo_local@);
                    assert(self.undo_local@.last().old_value->0@ == old(
                        self,
                    ).local_view()[request_id]);
                    assert(self.local_view().insert(
                        request_id,
                        old(self).local_view()[request_id],
                    ) =~= old(self).local_view());
                    assert(undo_apply(self.local_view(), self.undo_local@) == undo_apply(
                        old(self).local_view(),
                        old(self).undo_local@,
                    ));
                }
                Some(returned)
            },
        }
    }
}

/// Take back every change a journal records, newest first.
fn undo_map(m: &mut HashMap<u128, PendingNeighborRequest>, journal: &mut Vec<UndoEntry>)
    ensures
        prs_view(final(m)@) == undo_apply(prs_view(old(m)@), old(journal)@),
{
    while journal.len() > 0
        invariant
            undo_apply(prs_view(m@), journal@) == undo_apply(prs_view(old(m)@), old(journal)@),
        decreases journal@.len(),
    {
        let ghost journal_pre = journal@;
        let entry = match journal.pop() {
            Some(e) => e,
            None => {
                proof {
                    assert(false);
                }
                return ;
            },
        };
        let ghost m_pre = prs_view(m@);
        match entry.old_value {
            None => {
                m.remove(&entry.key);
                proof {
                    assert(prs_view(m@) =~= m_pre.remove(entry.key));
                }
            },
            Some(p) => {
                m.insert(entry.key, p);
                proof {
                    assert(prs_view(m@) =~= m_pre.insert(
                        entry.key,
                        journal_pre.last().old_value->0@,
                    ));
                }
            },
        }
        proof {
            assert(journal@ =~= journal_pre.drop_last());
        }
    }
}

} // verus!
