//! The messages exchanged between the index client and the application
//! server: route queries and their results, and the reports that keep the
//! application's picture of the index client current. `ISA` is the address
//! type of an index server.

use vstd::prelude::*;

use crate::crypto::PublicKey;

verus! {

/// A friend as the index client tracks it: the capacities for sending and
/// receiving.
#[derive(Debug)]
pub struct FriendCapacities {
    pub public_key: PublicKey,
    pub send_capacity: u128,
    pub recv_capacity: u128,
}

/// What the index client knows of the local node's friends.
#[derive(Debug)]
pub struct IndexClientState {
    pub friends: Vec<FriendCapacities>,
}

/// A route found by an index server, with the capacity it can carry.
#[derive(Debug)]
pub struct RouteWithCapacity {
    pub route: Vec<PublicKey>,
    pub capacity: u128,
}

/// A request to find routes of at least `capacity` from `source` to
/// `destination`.
#[derive(Debug)]
pub struct RequestRoutes {
    pub request_id: u128,
    pub capacity: u128,
    pub source: PublicKey,
    pub destination: PublicKey,
}

/// An update to a friend's capacities, as sent to an index server.
#[derive(Debug)]
pub struct UpdateFriend {
    pub public_key: PublicKey,
    pub send_capacity: u128,
    pub recv_capacity: u128,
}

/// A change to the picture an index server keeps of the local node.
#[derive(Debug)]
pub enum IndexMutation {
    UpdateFriend(UpdateFriend),
    RemoveFriend(PublicKey),
}

/// A report of the index client's configuration.
#[derive(Debug)]
pub struct IndexClientReport<ISA> {
    /// A list of trusted index servers.
    pub index_servers: Vec<ISA>,
    /// The server currently connected to (None if not connected).
    pub connected_server: Option<ISA>,
}

/// A change to an `IndexClientReport`.
#[derive(Debug)]
pub enum IndexClientReportMutation<ISA> {
    AddIndexServer(ISA),
    RemoveIndexServer(ISA),
    SetConnectedServer(Option<ISA>),
}

/// The outcome of a route query.
#[derive(Debug)]
pub enum ResponseRoutesResult {
    Success(Vec<RouteWithCapacity>),
    Failure,
}

/// The answer to a route query, tied back to its request id.
#[derive(Debug)]
pub struct ClientResponseRoutes {
    pub request_id: u128,
    pub result: ResponseRoutesResult,
}

/// What the index client tells the application server.
#[derive(Debug)]
pub enum IndexClientToAppServer<ISA> {
    ReportMutations(Vec<IndexClientReportMutation<ISA>>),
    ResponseRoutes(ClientResponseRoutes),
}

/// What the application server asks of the index client.
#[derive(Debug)]
pub enum AppServerToIndexClient<ISA> {
    AddIndexServer(ISA),
    RemoveIndexServer(ISA),
    RequestRoutes(RequestRoutes),
    ApplyMutations(Vec<IndexMutation>),
}

} // verus!
