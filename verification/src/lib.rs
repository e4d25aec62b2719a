//! A bilateral credit-network payment channel: two parties keep a mutual
//! credit line and exchange an exclusive, alternating token that authorizes
//! one side at a time to append signed batches of operations to a
//! hash-chained ledger.

pub mod canonical_serialize;
pub mod credit_calc;
pub mod crypto;
pub mod im_map;
pub mod index_client;
pub mod incoming;
pub mod laws;
pub mod ledger;
pub mod outgoing;
pub mod pending_requests;
pub mod token_channel;
pub mod types;
