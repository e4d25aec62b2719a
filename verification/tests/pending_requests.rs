//! Tests of the transactional pending-request book: changes are visible
//! until cancelled, and cancelling restores the book exactly.

use offst::credit_calc::{LinearSendPrice, NeighborsRoute, NetworkerSendPrice};
use offst::pending_requests::{PendingNeighborRequest, PendingRequests, TransPendingRequests};

fn request(id: u128) -> PendingNeighborRequest {
    PendingNeighborRequest {
        request_id: id,
        route: NeighborsRoute {
            route_links: vec![],
            dest_response_proposal: NetworkerSendPrice(LinearSendPrice { base: 1, multiplier: 2 }),
        },
        request_content_len: 10,
        max_response_len: 20,
        processing_fee_proposal: 3,
    }
}

#[test]
fn test_add_and_duplicate_remote_request() {
    let mut trans = TransPendingRequests::new(PendingRequests::new());
    assert!(trans.add_pending_remote_request(request(1)));
    // The same id again is refused.
    assert!(!trans.add_pending_remote_request(request(1)));
    assert!(trans.add_pending_remote_request(request(2)));
    let book = trans.commit();
    assert!(book.pending_remote_requests.contains_key(&1));
    assert!(book.pending_remote_requests.contains_key(&2));
    assert!(book.pending_local_requests.is_empty());
}

#[test]
fn test_cancel_restores_the_book() {
    let mut book = PendingRequests::new();
    book.pending_local_requests.insert(5, request(5));
    let mut trans = TransPendingRequests::new(book);
    let removed = trans.remove_local_pending_request(5).unwrap();
    assert_eq!(removed.request_id, 5);
    assert!(trans.remove_local_pending_request(5).is_none());
    assert!(trans.add_pending_remote_request(request(6)));
    let book = trans.cancel();
    assert!(book.pending_local_requests.contains_key(&5));
    assert!(!book.pending_remote_requests.contains_key(&6));
}

#[test]
fn test_commit_keeps_the_changes() {
    let mut book = PendingRequests::new();
    book.pending_local_requests.insert(5, request(5));
    let mut trans = TransPendingRequests::new(book);
    trans.remove_local_pending_request(5).unwrap();
    let book = trans.commit();
    assert!(!book.pending_local_requests.contains_key(&5));
}
