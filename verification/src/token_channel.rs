//! The token-channel state machine: wraps a mutual-credit ledger plus the
//! direction flag saying who currently holds the token; builds, verifies and
//! applies move-token messages; detects duplicate, retransmit and
//! inconsistency cases; and computes reset terms.

use vstd::prelude::*;

use crate::canonical_serialize::be_i128;
use crate::crypto::{
    lex_lt, lex_lt_bytes, rand_nonce_from_pk, rand_nonce_from_public_key, sha_512_256,
    sha_512_256_of, token_from_pk, token_from_public_key, PublicKey, RandValue, Signature,
};
use crate::incoming::{
    incoming_op_msg, incoming_op_muts, incoming_op_result, incoming_ops_from,
    incoming_prefix_snap, process_operations_list, IncomingMessage, IncomingMessageV,
    ProcessTransListError,
};
use crate::ledger;
use crate::ledger::{apply_mutation_snap, apply_mutations_snap, McSnap};
use crate::types::{
    clone_ops, ops_view, FriendMoveToken, FriendMoveTokenRequest, FriendMoveTokenV, FriendTcOp,
    ResetTerms, TcOpV, UnsignedFriendMoveToken,
};

verus! {

/// The most operations one move-token message may carry.
pub const MAX_OPERATIONS_IN_BATCH: usize = 16;

/// A move-token message we sent, kept for retransmission, together with the
/// last message received before it.
#[derive(Debug)]
pub struct OutgoingMoveToken {
    pub outgoing_move_token_request: FriendMoveTokenRequest,
    pub opt_prev_incoming_move_token: Option<FriendMoveToken>,
}

/// Indicates the direction of the channel: who holds the token.
#[derive(Debug)]
pub enum MoveTokenDirection {
    Incoming(FriendMoveToken),
    Outgoing(OutgoingMoveToken),
}

/// A request to turn the channel around.
#[derive(Debug)]
pub enum SetDirection {
    Incoming(FriendMoveToken),
    Outgoing(FriendMoveToken),
}

/// A mutation of the whole channel: a ledger mutation, a turn of the
/// direction, or marking that the remote side wants the token.
#[derive(Debug)]
pub enum TcMutation {
    McMutation(ledger::TcMutation),
    SetDirection(SetDirection),
    SetTokenWanted,
}

pub enum DirectionV {
    Incoming(FriendMoveTokenV),
    Outgoing { token: FriendMoveTokenV, token_wanted: bool, prev: Option<FriendMoveTokenV> },
}

pub enum SetDirectionV {
    Incoming(FriendMoveTokenV),
    Outgoing(FriendMoveTokenV),
}

pub enum TcMutationV {
    McMutation(ledger::TcMutationV),
    SetDirection(SetDirectionV),
    SetTokenWanted,
}

impl View for SetDirection {
    type V = SetDirectionV;

    open spec fn view(&self) -> SetDirectionV {
        match self {
            SetDirection::Incoming(t) => SetDirectionV::Incoming(t@),
            SetDirection::Outgoing(t) => SetDirectionV::Outgoing(t@),
        }
    }
}

impl View for TcMutation {
    type V = TcMutationV;

    open spec fn view(&self) -> TcMutationV {
        match self {
            TcMutation::McMutation(m) => TcMutationV::McMutation(m@),
            TcMutation::SetDirection(d) => TcMutationV::SetDirection(d@),
            TcMutation::SetTokenWanted => TcMutationV::SetTokenWanted,
        }
    }
}

/// The channel: the direction flag and the mutual-credit ledger it guards.
#[derive(Debug)]
pub struct TokenChannel {
    pub direction: MoveTokenDirection,
    pub mutual_credit: ledger::TokenChannel,
}

/// Why a received move-token message was rejected.
#[derive(Clone, Copy, Debug, PartialEq, Eq, Structural)]
pub enum ReceiveMoveTokenError {
    ChainInconsistency,
    InvalidTransaction(ProcessTransListError),
    InvalidSignature,
    InvalidStatedBalance,
    InvalidInconsistencyCounter,
    MoveTokenCounterOverflow,
    InvalidMoveTokenCounter,
}

/// What a successfully received move-token message carries: the messages for
/// the layer above and the mutation log whose application commits the
/// transition.
#[derive(Debug)]
pub struct MoveTokenReceived {
    pub incoming_messages: Vec<IncomingMessage>,
    pub mutations: Vec<TcMutation>,
}

/// The three benign outcomes of receiving a move-token message.
#[derive(Debug)]
pub enum ReceiveMoveTokenOutput {
    Duplicate,
    RetransmitOutgoing(FriendMoveToken),
    Received(MoveTokenReceived),
}

impl TokenChannel {
    pub open spec fn dir_view(&self) -> DirectionV {
        match self.direction {
            MoveTokenDirection::Incoming(t) => DirectionV::Incoming(t@),
            MoveTokenDirection::Outgoing(o) => DirectionV::Outgoing {
                token: o.outgoing_move_token_request.friend_move_token@,
                token_wanted: o.outgoing_move_token_request.token_wanted,
                prev: match o.opt_prev_incoming_move_token {
                    None => None,
                    Some(t) => Some(t@),
                },
            },
        }
    }

    pub open spec fn mc_snap(&self) -> McSnap {
        self.mutual_credit.snap()
    }
}

/// The token the channel currently chains from: the last received message
/// when the direction is incoming, the last sent one when it is outgoing.
pub open spec fn cur_token(d: DirectionV) -> FriendMoveTokenV {
    match d {
        DirectionV::Incoming(t) => t,
        DirectionV::Outgoing { token, .. } => token,
    }
}

/// The last message received from the peer, if any.
pub open spec fn last_incoming(d: DirectionV) -> Option<FriendMoveTokenV> {
    match d {
        DirectionV::Incoming(t) => Some(t),
        DirectionV::Outgoing { prev, .. } => prev,
    }
}

/// The effect of one channel mutation on the model: the new direction and
/// ledger model.
pub open spec fn apply_tc_mutation_snap(d: DirectionV, mc: McSnap, m: TcMutationV) -> (
    DirectionV,
    McSnap,
) {
    match m {
        TcMutationV::McMutation(mm) => (d, apply_mutation_snap(mc, mm)),
        TcMutationV::SetDirection(SetDirectionV::Incoming(t)) => (DirectionV::Incoming(t), mc),
        TcMutationV::SetDirection(SetDirectionV::Outgoing(t)) => (
            DirectionV::Outgoing { token: t, token_wanted: false, prev: last_incoming(d) },
            mc,
        ),
        TcMutationV::SetTokenWanted => (
            match d {
                DirectionV::Incoming(t) => DirectionV::Incoming(t),
                DirectionV::Outgoing { token, prev, .. } => DirectionV::Outgoing {
                    token,
                    token_wanted: true,
                    prev,
                },
            },
            mc,
        ),
    }
}

/// The effect of a sequence of channel mutations, applied in order.
pub open spec fn apply_tc_mutations_snap(d: DirectionV, mc: McSnap, ms: Seq<TcMutationV>) -> (
    DirectionV,
    McSnap,
)
    decreases ms.len(),
{
    if ms.len() == 0 {
        (d, mc)
    } else {
        let (d2, mc2) = apply_tc_mutation_snap(d, mc, ms[0]);
        apply_tc_mutations_snap(d2, mc2, ms.skip(1))
    }
}

pub open spec fn tc_muts_view(ms: Seq<TcMutation>) -> Seq<TcMutationV> {
    ms.map_values(|m: TcMutation| m@)
}

pub open spec fn msgs_view(ms: Seq<IncomingMessage>) -> Seq<IncomingMessageV> {
    ms.map_values(|m: IncomingMessage| m@)
}

/// The deterministic first move-token message of a fresh channel, computed
/// identically by both sides from the two public keys alone: the digest-lower
/// key plays the sender.
pub open spec fn genesis_first_token(pk_a: Seq<u8>, pk_b: Seq<u8>) -> FriendMoveTokenV {
    let low = if lex_lt(sha_512_256_of(pk_a), sha_512_256_of(pk_b)) {
        pk_a
    } else {
        pk_b
    };
    let high = if lex_lt(sha_512_256_of(pk_a), sha_512_256_of(pk_b)) {
        pk_b
    } else {
        pk_a
    };
    FriendMoveTokenV {
        operations: Seq::empty(),
        old_token: token_from_pk(low),
        inconsistency_counter: 0,
        move_token_counter: 0,
        balance: 0,
        local_pending_debt: 0,
        remote_pending_debt: 0,
        rand_nonce: rand_nonce_from_pk(high),
        new_token: token_from_pk(high),
    }
}

/// Whether `local` sends first at genesis: its key digest is the lower one.
pub open spec fn genesis_is_outgoing(local_pk: Seq<u8>, remote_pk: Seq<u8>) -> bool {
    lex_lt(sha_512_256_of(local_pk), sha_512_256_of(remote_pk))
}

/// Genesis determinism: built from the two public keys in either order, the
/// first move-token message is the same, and (when the key digests differ)
/// exactly one of the two sides starts in the outgoing direction.
pub proof fn lemma_genesis_complementary(pk_a: Seq<u8>, pk_b: Seq<u8>)
    requires
        pk_a.len() == pk_b.len(),
        sha_512_256_of(pk_a) != sha_512_256_of(pk_b),
        sha_512_256_of(pk_a).len() == sha_512_256_of(pk_b).len(),
    ensures
        genesis_first_token(pk_a, pk_b) == genesis_first_token(pk_b, pk_a),
        genesis_is_outgoing(pk_a, pk_b) == !genesis_is_outgoing(pk_b, pk_a),
{
    crate::crypto::lemma_lex_lt_trichotomy(sha_512_256_of(pk_a), sha_512_256_of(pk_b));
}

impl TokenChannel {
    /// Create a fresh channel at balance zero. Both sides compute the same
    /// placeholder first message; the side whose key digest is lower starts
    /// in the outgoing direction (it sends first), the other in the incoming
    /// one. The placeholder is the only message whose token is not a real
    /// signature: the peer could not produce one without a round trip.
    pub fn new(local_public_key: &PublicKey, remote_public_key: &PublicKey) -> (r: TokenChannel)
        requires
            local_public_key.wf(),
            remote_public_key.wf(),
        ensures
            r.mc_snap() == ledger::mc_new_snap(local_public_key@, remote_public_key@, 0),
            r.mutual_credit.idents_wf(),
            ledger::wf_snap(r.mc_snap()),
            r.dir_view() == (if genesis_is_outgoing(local_public_key@, remote_public_key@) {
                DirectionV::Outgoing {
                    token: genesis_first_token(local_public_key@, remote_public_key@),
                    token_wanted: false,
                    prev: None::<FriendMoveTokenV>,
                }
            } else {
                DirectionV::Incoming(genesis_first_token(local_public_key@, remote_public_key@))
            }),
    {
        let balance: i128 = 0;
        let mutual_credit = ledger::TokenChannel::new(local_public_key, remote_public_key, balance);

        let local_hash = sha_512_256(local_public_key.bytes.as_slice());
        let remote_hash = sha_512_256(remote_public_key.bytes.as_slice());
        let local_is_lower = lex_lt_bytes(&local_hash, &remote_hash);
        let lower = if local_is_lower {
            local_public_key
        } else {
            remote_public_key
        };
        let higher = if local_is_lower {
            remote_public_key
        } else {
            local_public_key
        };

        // The deterministic placeholder message, identical on both sides.
        let first_move_token_lower = FriendMoveToken {
            operations: Vec::new(),
            old_token: token_from_public_key(lower),
            inconsistency_counter: 0,
            move_token_counter: 0,
            balance: 0,
            local_pending_debt: 0,
            remote_pending_debt: 0,
            rand_nonce: rand_nonce_from_public_key(higher),
            new_token: token_from_public_key(higher),
        };
        proof {
            assert(ops_view(first_move_token_lower.operations@) =~= Seq::<TcOpV>::empty());
            assert(first_move_token_lower@ == genesis_first_token(
                local_public_key@,
                remote_public_key@,
            ));
        }

        if local_is_lower {
            // We are the first sender.
            let friend_move_token_request = FriendMoveTokenRequest {
                friend_move_token: first_move_token_lower,
                token_wanted: false,
            };
            let outgoing_move_token = OutgoingMoveToken {
                outgoing_move_token_request: friend_move_token_request,
                opt_prev_incoming_move_token: None,
            };
            TokenChannel {
                direction: MoveTokenDirection::Outgoing(outgoing_move_token),
                mutual_credit,
            }
        } else {
            // We are the second sender.
            TokenChannel {
                direction: MoveTokenDirection::Incoming(first_move_token_lower),
                mutual_credit,
            }
        }
    }

    /// Rebuild a channel from reset terms that the remote side proposed and
    /// we accepted: the peer's reset message plays the last incoming one.
    pub fn new_from_remote_reset(
        local_public_key: &PublicKey,
        remote_public_key: &PublicKey,
        reset_move_token: &FriendMoveToken,
        balance: i128,
    ) -> (r: TokenChannel)
        requires
            balance != i128::MIN,
        ensures
            r.mc_snap() == ledger::mc_new_snap(local_public_key@, remote_public_key@, balance),
            ledger::wf_snap(r.mc_snap()),
            r.mutual_credit.idents_wf() == (local_public_key.wf() && remote_public_key.wf()),
            r.dir_view() == DirectionV::Incoming(reset_move_token@),
    {
        TokenChannel {
            direction: MoveTokenDirection::Incoming(reset_move_token.clone()),
            mutual_credit: ledger::TokenChannel::new(local_public_key, remote_public_key, balance),
        }
    }

    /// Rebuild a channel from reset terms we proposed and the remote side
    /// accepted: our reset message plays the outgoing one, kept for
    /// retransmission.
    pub fn new_from_local_reset(
        local_public_key: &PublicKey,
        remote_public_key: &PublicKey,
        reset_move_token: &FriendMoveToken,
        balance: i128,
        opt_last_incoming_move_token: Option<FriendMoveToken>,
    ) -> (r: TokenChannel)
        requires
            balance != i128::MIN,
        ensures
            r.mc_snap() == ledger::mc_new_snap(local_public_key@, remote_public_key@, balance),
            ledger::wf_snap(r.mc_snap()),
            r.mutual_credit.idents_wf() == (local_public_key.wf() && remote_public_key.wf()),
            r.dir_view() == (DirectionV::Outgoing {
                token: reset_move_token@,
                token_wanted: false,
                prev: match opt_last_incoming_move_token {
                    None => None::<FriendMoveTokenV>,
                    Some(t) => Some(t@),
                },
            }),
    {
        let friend_move_token_request = FriendMoveTokenRequest {
            friend_move_token: reset_move_token.clone(),
            token_wanted: false,
        };
        let outgoing_move_token = OutgoingMoveToken {
            outgoing_move_token_request: friend_move_token_request,
            opt_prev_incoming_move_token: opt_last_incoming_move_token,
        };
        TokenChannel {
            direction: MoveTokenDirection::Outgoing(outgoing_move_token),
            mutual_credit: ledger::TokenChannel::new(local_public_key, remote_public_key, balance),
        }
    }

    fn get_cur_move_token(&self) -> (r: &FriendMoveToken)
        ensures
            r@ == cur_token(self.dir_view()),
    {
        match &self.direction {
            MoveTokenDirection::Incoming(friend_move_token) => friend_move_token,
            MoveTokenDirection::Outgoing(outgoing_move_token) => &outgoing_move_token
                .outgoing_move_token_request
                .friend_move_token,
        }
    }

    /// Get the last incoming move token. If no incoming move token was seen
    /// yet (the beginning of the relationship), returns None.
    pub fn get_last_incoming_move_token(&self) -> (r: Option<&FriendMoveToken>)
        ensures
            match r {
                None => last_incoming(self.dir_view()) is None,
                Some(t) => last_incoming(self.dir_view()) == Some(t@),
            },
    {
        match &self.direction {
            MoveTokenDirection::Incoming(friend_move_token) => Some(friend_move_token),
            MoveTokenDirection::Outgoing(outgoing_move_token) => {
                match &outgoing_move_token.opt_prev_incoming_move_token {
                    None => None,
                    Some(prev_incoming_move_token) => Some(prev_incoming_move_token),
                }
            },
        }
    }

    /// Get a reference to the internal mutual-credit ledger.
    pub fn get_mutual_credit(&self) -> (r: &ledger::TokenChannel)
        ensures
            r == &self.mutual_credit,
    {
        &self.mutual_credit
    }

    pub fn remote_max_debt(&self) -> (r: u128)
        ensures
            r == self.mc_snap().remote_max_debt,
    {
        self.get_mutual_credit().state().balance.remote_max_debt
    }

    pub fn get_inconsistency_counter(&self) -> (r: u64)
        ensures
            r == cur_token(self.dir_view()).inconsistency_counter,
    {
        self.get_cur_move_token().inconsistency_counter
    }

    pub fn get_move_token_counter(&self) -> (r: u128)
        ensures
            r == cur_token(self.dir_view()).move_token_counter,
    {
        self.get_cur_move_token().move_token_counter
    }

    pub fn is_outgoing(&self) -> (r: bool)
        ensures
            r == (self.dir_view() is Outgoing),
    {
        match self.direction {
            MoveTokenDirection::Incoming(_) => false,
            MoveTokenDirection::Outgoing(_) => true,
        }
    }

    /// Apply one channel mutation. Marking the token as wanted is only
    /// meaningful while the direction is outgoing; calling it otherwise is a
    /// caller error, so it is excluded here.
    pub fn mutate(&mut self, d_mutation: &TcMutation)
        requires
            d_mutation@ is SetTokenWanted ==> old(self).dir_view() is Outgoing,
        ensures
            (final(self).dir_view(), final(self).mc_snap()) == apply_tc_mutation_snap(
                old(self).dir_view(),
                old(self).mc_snap(),
                d_mutation@,
            ),
            final(self).mutual_credit.idents_wf() == old(self).mutual_credit.idents_wf(),
            final(self).mutual_credit.state.idents.local_public_key@ == old(
                self,
            ).mutual_credit.state.idents.local_public_key@,
            final(self).mutual_credit.state.idents.remote_public_key@ == old(
                self,
            ).mutual_credit.state.idents.remote_public_key@,
    {
        match d_mutation {
            TcMutation::McMutation(mc_mutation) => {
                self.mutual_credit.mutate(mc_mutation);
            },
            TcMutation::SetDirection(set_direction) => {
                let opt_prev = match self.get_last_incoming_move_token() {
                    None => None,
                    Some(t) => Some(t.clone()),
                };
                self.direction = match set_direction {
                    SetDirection::Incoming(new_token) => MoveTokenDirection::Incoming(
                        new_token.clone(),
                    ),
                    SetDirection::Outgoing(friend_move_token) => {
                        let friend_move_token_request = FriendMoveTokenRequest {
                            friend_move_token: friend_move_token.clone(),
                            token_wanted: false,
                        };
                        let outgoing_move_token = OutgoingMoveToken {
                            outgoing_move_token_request: friend_move_token_request,
                            opt_prev_incoming_move_token: opt_prev,
                        };
                        MoveTokenDirection::Outgoing(outgoing_move_token)
                    },
                };
            },
            TcMutation::SetTokenWanted => {
                match &mut self.direction {
                    MoveTokenDirection::Incoming(_) => {
                        proof {
                            assert(false);
                        }
                    },
                    MoveTokenDirection::Outgoing(outgoing_move_token) => {
                        outgoing_move_token.outgoing_move_token_request.token_wanted = true;
                    },
                }
            },
        }
    }

    /// Get the current outgoing move-token request. If the current direction
    /// is not outgoing, returns None.
    pub fn get_outgoing_move_token(&self) -> (r: Option<FriendMoveTokenRequest>)
        ensures
            match r {
                None => self.dir_view() is Incoming,
                Some(req) => ({
                    &&& self.dir_view() matches DirectionV::Outgoing { token, token_wanted, .. }
                    &&& req.friend_move_token@ == token
                    &&& req.token_wanted == token_wanted
                }),
            },
    {
        match &self.direction {
            MoveTokenDirection::Incoming(_) => None,
            MoveTokenDirection::Outgoing(outgoing_move_token) => Some(
                outgoing_move_token.outgoing_move_token_request.clone(),
            ),
        }
    }
}

/// The messages that replaying the first `i` operations hands to the layer
/// above, in order.
pub open spec fn incoming_flat_msgs(s0: McSnap, ops: Seq<TcOpV>, i: int) -> Seq<IncomingMessageV>
    decreases i,
{
    if i <= 0 {
        Seq::empty()
    } else {
        incoming_flat_msgs(s0, ops, i - 1) + (match incoming_op_msg(
            incoming_prefix_snap(s0, ops, i - 1),
            ops[i - 1],
        ) {
            None => Seq::<IncomingMessageV>::empty(),
            Some(m) => seq![m],
        })
    }
}

/// The concatenated ledger-mutation logs of the first `i` operations.
pub open spec fn incoming_flat_muts(s0: McSnap, ops: Seq<TcOpV>, i: int) -> Seq<
    ledger::TcMutationV,
>
    decreases i,
{
    if i <= 0 {
        Seq::empty()
    } else {
        incoming_flat_muts(s0, ops, i - 1) + incoming_op_muts(
            incoming_prefix_snap(s0, ops, i - 1),
            ops[i - 1],
        )
    }
}

/// Applying the concatenation of two mutation logs equals applying them one
/// after the other.
pub proof fn lemma_apply_muts_concat(s: McSnap, a: Seq<ledger::TcMutationV>, b: Seq<
    ledger::TcMutationV,
>)
    ensures
        apply_mutations_snap(s, a + b) == apply_mutations_snap(apply_mutations_snap(s, a), b),
    decreases a.len(),
{
    if a.len() == 0 {
        assert(a + b =~= b);
    } else {
        let s1 = apply_mutation_snap(s, a[0]);
        assert((a + b)[0] == a[0]);
        assert((a + b).skip(1) =~= a.skip(1) + b);
        crate::incoming::lemma_apply_muts_unfold(s, a + b);
        crate::incoming::lemma_apply_muts_unfold(s, a);
        lemma_apply_muts_concat(s1, a.skip(1), b);
    }
}

/// Atomicity of a received batch: replaying the concatenated mutation log of
/// the accepted operations takes the ledger model exactly to the replay
/// result.
pub proof fn lemma_incoming_flat_muts_apply(s0: McSnap, ops: Seq<TcOpV>, i: int)
    requires
        0 <= i <= ops.len(),
        forall|j: int|
            0 <= j < i ==> incoming_op_result(
                #[trigger] incoming_prefix_snap(s0, ops, j),
                ops[j],
            ) is Ok,
    ensures
        apply_mutations_snap(s0, incoming_flat_muts(s0, ops, i)) == incoming_prefix_snap(
            s0,
            ops,
            i,
        ),
    decreases i,
{
    if i == 0 {
        crate::incoming::lemma_apply_muts_empty(s0, incoming_flat_muts(s0, ops, 0));
    } else {
        lemma_incoming_flat_muts_apply(s0, ops, i - 1);
        lemma_apply_muts_concat(
            s0,
            incoming_flat_muts(s0, ops, i - 1),
            incoming_op_muts(incoming_prefix_snap(s0, ops, i - 1), ops[i - 1]),
        );
        crate::incoming::lemma_incoming_muts_apply(
            incoming_prefix_snap(s0, ops, i - 1),
            ops[i - 1],
        );
    }
}

/// Wrapping a ledger-mutation log into channel mutations and applying it
/// leaves the direction alone and applies the log to the ledger model.
pub proof fn lemma_apply_tc_mc_muts(d: DirectionV, mc: McSnap, ms: Seq<ledger::TcMutationV>)
    ensures
        apply_tc_mutations_snap(d, mc, wrap_mc_muts(ms)) == (d, apply_mutations_snap(mc, ms)),
    decreases ms.len(),
{
    let wrapped = wrap_mc_muts(ms);
    if ms.len() == 0 {
        assert(apply_tc_mutations_snap(d, mc, wrapped) == (d, mc));
        crate::incoming::lemma_apply_muts_empty(mc, ms);
    } else {
        let mc1 = apply_mutation_snap(mc, ms[0]);
        assert(wrapped[0] == TcMutationV::McMutation(ms[0]));
        assert(wrapped.skip(1) =~= wrap_mc_muts(ms.skip(1)));
        crate::incoming::lemma_apply_muts_unfold(mc, ms);
        lemma_apply_tc_mc_muts(d, mc1, ms.skip(1));
    }
}

/// Ledger mutations lifted into channel mutations.
pub open spec fn wrap_mc_muts(ms: Seq<ledger::TcMutationV>) -> Seq<TcMutationV> {
    ms.map_values(|m: ledger::TcMutationV| TcMutationV::McMutation(m))
}

/// The full mutation log of an accepted move-token message: the batch's
/// ledger mutations, then the turn of the direction.
pub open spec fn received_muts(s0: McSnap, ops: Seq<TcOpV>, new: FriendMoveTokenV) -> Seq<
    TcMutationV,
> {
    wrap_mc_muts(incoming_flat_muts(s0, ops, ops.len() as int)) + seq![
        TcMutationV::SetDirection(SetDirectionV::Incoming(new)),
    ]
}

/// Applying the full mutation log of an accepted message turns the channel
/// to incoming over the new message, with the ledger at the replay result:
/// the transition is committed exactly and atomically.
pub proof fn lemma_received_muts_apply(
    d: DirectionV,
    s0: McSnap,
    ops: Seq<TcOpV>,
    new: FriendMoveTokenV,
)
    requires
        forall|j: int|
            0 <= j < ops.len() ==> incoming_op_result(
                #[trigger] incoming_prefix_snap(s0, ops, j),
                ops[j],
            ) is Ok,
    ensures
        apply_tc_mutations_snap(d, s0, received_muts(s0, ops, new)) == (
            DirectionV::Incoming(new),
            incoming_prefix_snap(s0, ops, ops.len() as int),
        ),
{
    let flat = incoming_flat_muts(s0, ops, ops.len() as int);
    let wrapped = wrap_mc_muts(flat);
    let tail = seq![TcMutationV::SetDirection(SetDirectionV::Incoming(new))];
    lemma_incoming_flat_muts_apply(s0, ops, ops.len() as int);
    lemma_apply_tc_mc_muts(d, s0, flat);
    lemma_apply_tc_muts_concat(d, s0, wrapped, tail);
    let mid = apply_tc_mutations_snap(d, s0, wrapped);
    let step = apply_tc_mutation_snap(mid.0, mid.1, tail[0]);
    assert(tail.skip(1).len() == 0);
    assert(apply_tc_mutations_snap(step.0, step.1, tail.skip(1)) == step);
    assert(apply_tc_mutations_snap(mid.0, mid.1, tail) == step);
    assert(step == (DirectionV::Incoming(new), mid.1));
}

/// Applying the concatenation of two channel-mutation logs equals applying
/// them one after the other.
pub proof fn lemma_apply_tc_muts_concat(
    d: DirectionV,
    mc: McSnap,
    a: Seq<TcMutationV>,
    b: Seq<TcMutationV>,
)
    ensures
        apply_tc_mutations_snap(d, mc, a + b) == {
            let (d2, mc2) = apply_tc_mutations_snap(d, mc, a);
            apply_tc_mutations_snap(d2, mc2, b)
        },
    decreases a.len(),
{
    if a.len() == 0 {
        assert(a + b =~= b);
    } else {
        let (d1, mc1) = apply_tc_mutation_snap(d, mc, a[0]);
        assert((a + b)[0] == a[0]);
        assert((a + b).skip(1) =~= a.skip(1) + b);
        lemma_apply_tc_muts_concat(d1, mc1, a.skip(1), b);
    }
}

/// Whether the ledger triple stated in a message equals the ledger model.
pub open spec fn stated_triple_matches(s: McSnap, new: FriendMoveTokenV) -> bool {
    &&& s.balance == new.balance
    &&& s.local_pending_debt == new.local_pending_debt
    &&& s.remote_pending_debt == new.remote_pending_debt
}

/// The exact outcome of receiving the next message in sequence (its
/// `old_token` chains from the current one): each error with the condition
/// that raises it, in the order the checks run, and the content of a
/// successful receipt.
pub open spec fn receive_next_outcome(
    s0: McSnap,
    cur: FriendMoveTokenV,
    new_move_token: &FriendMoveToken,
    r: Result<ReceiveMoveTokenOutput, ReceiveMoveTokenError>,
) -> bool {
    let ops = ops_view(new_move_token.operations@);
    if new_move_token.inconsistency_counter != cur.inconsistency_counter {
        r == Err::<ReceiveMoveTokenOutput, ReceiveMoveTokenError>(
            ReceiveMoveTokenError::InvalidInconsistencyCounter,
        )
    } else if cur.move_token_counter == u128::MAX {
        r == Err::<ReceiveMoveTokenOutput, ReceiveMoveTokenError>(
            ReceiveMoveTokenError::MoveTokenCounterOverflow,
        )
    } else if new_move_token.move_token_counter != cur.move_token_counter + 1 {
        r == Err::<ReceiveMoveTokenOutput, ReceiveMoveTokenError>(
            ReceiveMoveTokenError::InvalidMoveTokenCounter,
        )
    } else {
        match incoming_ops_from(s0, ops, 0) {
            Err(e) => r == Err::<ReceiveMoveTokenOutput, ReceiveMoveTokenError>(
                ReceiveMoveTokenError::InvalidTransaction(e),
            ),
            Ok(s1) => {
                if !stated_triple_matches(s1, new_move_token@) {
                    r == Err::<ReceiveMoveTokenOutput, ReceiveMoveTokenError>(
                        ReceiveMoveTokenError::InvalidStatedBalance,
                    )
                } else {
                    {
                        &&& r matches Ok(ReceiveMoveTokenOutput::Received(mtr))
                        &&& msgs_view(mtr.incoming_messages@) == incoming_flat_msgs(
                            s0,
                            ops,
                            ops.len() as int,
                        )
                        &&& tc_muts_view(mtr.mutations@) == received_muts(
                            s0,
                            ops,
                            new_move_token@,
                        )
                    }
                }
            },
        }
    }
}

impl TokenChannel {
    /// Deal with the next message in sequence: check the counters, replay
    /// its operations on a throwaway clone of the ledger, verify the stated
    /// triple, and hand back the messages and the mutation log that commits
    /// the transition.
    fn outgoing_to_incoming(&self, new_move_token: FriendMoveToken) -> (r: Result<
        ReceiveMoveTokenOutput,
        ReceiveMoveTokenError,
    >)
        ensures
            receive_next_outcome(
                self.mc_snap(),
                cur_token(self.dir_view()),
                &new_move_token,
                r,
            ),
    {
        let old_move_token = self.get_cur_move_token();

        // Verify the counters:
        if new_move_token.inconsistency_counter != old_move_token.inconsistency_counter {
            return Err(ReceiveMoveTokenError::InvalidInconsistencyCounter);
        }
        let expected_move_token_counter = match old_move_token.move_token_counter.checked_add(1) {
            None => {
                return Err(ReceiveMoveTokenError::MoveTokenCounterOverflow);
            },
            Some(x) => x,
        };
        if new_move_token.move_token_counter != expected_move_token_counter {
            return Err(ReceiveMoveTokenError::InvalidMoveTokenCounter);
        }

        // Replay the operations on a throwaway clone:
        let ghost s0 = self.mc_snap();
        let ghost ops = ops_view(new_move_token.operations@);
        let mut mutual_credit = self.mutual_credit.clone();
        let operations = clone_ops(&new_move_token.operations);
        let outputs = match process_operations_list(&mut mutual_credit, operations) {
            Err(e) => {
                return Err(ReceiveMoveTokenError::InvalidTransaction(e));
            },
            Ok(outputs) => outputs,
        };

        // Verify the stated triple against the post-replay ledger:
        if mutual_credit.state().balance.balance != new_move_token.balance
            || mutual_credit.state().balance.local_pending_debt
            != new_move_token.local_pending_debt
            || mutual_credit.state().balance.remote_pending_debt
            != new_move_token.remote_pending_debt {
            return Err(ReceiveMoveTokenError::InvalidStatedBalance);
        }

        // Collect the messages and wrap the mutation logs:
        let ghost outs0 = outputs@;
        let mut rest = outputs;
        let total_outputs: usize = rest.len();
        let mut incoming_messages: Vec<IncomingMessage> = Vec::new();
        let mut mutations: Vec<TcMutation> = Vec::new();
        let mut j: usize = 0;
        proof {
            assert(rest@ =~= outs0.skip(0));
            assert(msgs_view(incoming_messages@) =~= incoming_flat_msgs(s0, ops, 0));
            assert(tc_muts_view(mutations@) =~= wrap_mc_muts(incoming_flat_muts(s0, ops, 0)));
        }
        while rest.len() > 0
            invariant
                outs0.len() == total_outputs,
                j + rest@.len() == outs0.len(),
                j <= outs0.len(),
                outs0.len() == ops.len(),
                rest@ == outs0.skip(j as int),
                msgs_view(incoming_messages@) == incoming_flat_msgs(s0, ops, j as int),
                tc_muts_view(mutations@) == wrap_mc_muts(incoming_flat_muts(s0, ops, j as int)),
                forall|k: int|
                    #![trigger outs0[k]]
                    0 <= k < outs0.len() ==> {
                        let pre = incoming_prefix_snap(s0, ops, k);
                        &&& crate::incoming::msg_opt_view(&outs0[k].incoming_message)
                            == incoming_op_msg(pre, ops[k])
                        &&& ledger::muts_view(outs0[k].mc_mutations@) == incoming_op_muts(
                            pre,
                            ops[k],
                        )
                    },
            decreases rest@.len(),
        {
            let ghost rest_pre = rest@;
            let output = rest.remove(0);
            proof {
                assert(rest_pre[0] == outs0.skip(j as int)[0]);
                assert(output == outs0[j as int]);
                assert(rest@ =~= outs0.skip(j as int + 1));
            }
            let ghost pre = incoming_prefix_snap(s0, ops, j as int);
            match output.incoming_message {
                Some(funds) => {
                    incoming_messages.push(funds);
                },
                None => {},
            }
            proof {
                assert(msgs_view(incoming_messages@) =~= incoming_flat_msgs(
                    s0,
                    ops,
                    j as int + 1,
                ));
            }
            let mut mm = output.mc_mutations;
            let chunk_size: usize = mm.len();
            let ghost chunk = ledger::muts_view(mm@);
            let ghost done = incoming_flat_muts(s0, ops, j as int);
            let mut k: usize = 0;
            while mm.len() > 0
                invariant
                    chunk.len() == chunk_size,
                    k + mm@.len() == chunk.len(),
                    k <= chunk.len(),
                    ledger::muts_view(mm@) == chunk.skip(k as int),
                    tc_muts_view(mutations@) == wrap_mc_muts(done + chunk.take(k as int)),
                decreases mm@.len(),
            {
                let ghost mm_pre = mm@;
                let m = mm.remove(0);
                proof {
                    assert(ledger::muts_view(mm_pre)[0] == mm_pre[0]@);
                    assert(m@ == chunk[k as int]);
                    assert(mm@ =~= mm_pre.skip(1));
                    assert forall|t: int| 0 <= t < mm@.len() implies #[trigger] ledger::muts_view(
                        mm@,
                    )[t] == chunk.skip(k as int + 1)[t] by {
                        assert(ledger::muts_view(mm@)[t] == mm@[t]@);
                        assert(ledger::muts_view(mm_pre)[t + 1] == mm_pre[t + 1]@);
                    }
                    assert(ledger::muts_view(mm@) =~= chunk.skip(k as int + 1));
                }
                let ghost muts_pre = mutations@;
                mutations.push(TcMutation::McMutation(m));
                proof {
                    assert(done + chunk.take(k as int + 1) =~= (done + chunk.take(k as int)).push(
                        chunk[k as int],
                    ));
                    let lhs = tc_muts_view(mutations@);
                    let rhs = wrap_mc_muts(done + chunk.take(k as int + 1));
                    assert(chunk.take(k as int + 1).len() == k + 1);
                    assert(chunk.take(k as int).len() == k as int);
                    assert(lhs.len() == muts_pre.len() + 1);
                    assert(tc_muts_view(muts_pre).len() == muts_pre.len());
                    assert(muts_pre.len() == done.len() + k);
                    assert(rhs.len() == done.len() + k + 1);
                    assert forall|t: int| 0 <= t < lhs.len() implies lhs[t] == rhs[t] by {
                        assert(lhs[t] == mutations@[t]@);
                        assert(rhs[t] == TcMutationV::McMutation(
                            (done + chunk.take(k as int + 1))[t],
                        ));
                        if t < muts_pre.len() {
                            assert(tc_muts_view(muts_pre)[t] == muts_pre[t]@);
                            assert(wrap_mc_muts(done + chunk.take(k as int))[t]
                                == TcMutationV::McMutation((done + chunk.take(k as int))[t]));
                        }
                    }
                    assert(lhs =~= rhs);
                }
                k = k + 1;
            }
            proof {
                assert(chunk.take(chunk.len() as int) =~= chunk);
                assert(incoming_flat_muts(s0, ops, j as int + 1) == done + incoming_op_muts(
                    pre,
                    ops[j as int],
                ));
                assert(tc_muts_view(mutations@) == wrap_mc_muts(
                    incoming_flat_muts(s0, ops, j as int + 1),
                ));
            }
            j = j + 1;
        }
        proof {
            assert(j == ops.len());
        }
        mutations.push(TcMutation::SetDirection(SetDirection::Incoming(new_move_token)));
        proof {
            assert(tc_muts_view(mutations@) =~= received_muts(s0, ops, new_move_token@));
        }
        let move_token_received = MoveTokenReceived { incoming_messages, mutations };
        Ok(ReceiveMoveTokenOutput::Received(move_token_received))
    }

    /// Receive a move-token message without touching the channel: decide
    /// whether it is a duplicate, the next message in sequence, a
    /// retransmission of the peer's previous message, or evidence of an
    /// inconsistent chain. Only the returned mutation log, applied by the
    /// caller, commits a transition.
    pub fn simulate_receive_move_token(&self, new_move_token: FriendMoveToken) -> (r: Result<
        ReceiveMoveTokenOutput,
        ReceiveMoveTokenError,
    >)
        ensures
            ({
                let sb = new_move_token.signed_bytes();
                match self.dir_view() {
                    DirectionV::Incoming(cur) => {
                        if cur == new_move_token@ {
                            r matches Ok(ReceiveMoveTokenOutput::Duplicate)
                        } else {
                            r == Err::<ReceiveMoveTokenOutput, ReceiveMoveTokenError>(
                                ReceiveMoveTokenError::ChainInconsistency,
                            )
                        }
                    },
                    DirectionV::Outgoing { token: cur, .. } => {
                        if !crate::crypto::ed25519_verifies(
                            sb,
                            new_move_token@.new_token,
                            self.mc_snap().remote_public_key,
                        ) {
                            r == Err::<ReceiveMoveTokenOutput, ReceiveMoveTokenError>(
                                ReceiveMoveTokenError::InvalidSignature,
                            )
                        } else if new_move_token@.old_token == cur.new_token {
                            receive_next_outcome(self.mc_snap(), cur, &new_move_token, r)
                        } else if cur.old_token == new_move_token@.new_token {
                            {
                                &&& r matches Ok(ReceiveMoveTokenOutput::RetransmitOutgoing(t))
                                &&& t@ == cur
                            }
                        } else {
                            r == Err::<ReceiveMoveTokenOutput, ReceiveMoveTokenError>(
                                ReceiveMoveTokenError::ChainInconsistency,
                            )
                        }
                    },
                }
            }),
    {
        match &self.direction {
            MoveTokenDirection::Incoming(friend_move_token) => {
                if friend_move_token.deep_eq(&new_move_token) {
                    // Duplicate
                    Ok(ReceiveMoveTokenOutput::Duplicate)
                } else {
                    // Inconsistency
                    Err(ReceiveMoveTokenError::ChainInconsistency)
                }
            },
            MoveTokenDirection::Outgoing(outgoing_move_token) => {
                // Verify the signature. It is checked only here, not in the
                // incoming branch above: the genesis move token carries a
                // placeholder instead of a real signature, and it is only
                // ever held, never received through this path.
                let remote_public_key = &self.mutual_credit.state.idents.remote_public_key;
                if !new_move_token.verify(remote_public_key) {
                    return Err(ReceiveMoveTokenError::InvalidSignature);
                }
                let friend_move_token =
                    &outgoing_move_token.outgoing_move_token_request.friend_move_token;
                if new_move_token.old_token == friend_move_token.new_token {
                    // The next message in sequence.
                    self.outgoing_to_incoming(new_move_token)
                } else if friend_move_token.old_token == new_move_token.new_token {
                    // The peer is replaying its own previous message: it
                    // never received ours, so we must retransmit it.
                    Ok(ReceiveMoveTokenOutput::RetransmitOutgoing(friend_move_token.clone()))
                } else {
                    Err(ReceiveMoveTokenError::ChainInconsistency)
                }
            },
        }
    }

    /// Build the next unsigned move-token message from the queued operations:
    /// chained to the last received message, with the counter advanced and
    /// the ledger triple stated as the receiver will see it. The caller signs
    /// the buffer through the identity oracle and attaches the signature with
    /// `FriendMoveToken::from_unsigned`. Returns None while the direction is
    /// outgoing: only the side that received last may send.
    pub fn create_friend_move_token(
        &self,
        operations: Vec<FriendTcOp>,
        rand_nonce: RandValue,
    ) -> (r: Option<UnsignedFriendMoveToken>)
        requires
            self.mc_snap().balance != i128::MIN,
        ensures
            match r {
                None => self.dir_view() is Outgoing,
                Some(u) => {
                    &&& self.dir_view() is Incoming
                    &&& ops_view(u.operations@) == ops_view(operations@)
                    &&& u.old_token@ == cur_token(self.dir_view()).new_token
                    &&& u.inconsistency_counter == cur_token(
                        self.dir_view(),
                    ).inconsistency_counter
                    &&& u.move_token_counter == (if cur_token(self.dir_view()).move_token_counter
                        == u128::MAX {
                        0u128
                    } else {
                        (cur_token(self.dir_view()).move_token_counter + 1) as u128
                    })
                    &&& u.balance == -self.mc_snap().balance
                    &&& u.local_pending_debt == self.mc_snap().remote_pending_debt
                    &&& u.remote_pending_debt == self.mc_snap().local_pending_debt
                    &&& u.rand_nonce@ == rand_nonce@
                },
            },
    {
        let friend_move_token = match &self.direction {
            MoveTokenDirection::Incoming(friend_move_token) => friend_move_token,
            MoveTokenDirection::Outgoing(_) => {
                return None;
            },
        };
        // The triple is stated in the receiver's frame: its balance is the
        // negation of ours, and the two pending debts swap sides.
        Some(
            UnsignedFriendMoveToken {
                operations,
                old_token: friend_move_token.new_token.clone(),
                inconsistency_counter: friend_move_token.inconsistency_counter,
                move_token_counter: friend_move_token.move_token_counter.wrapping_add(1),
                balance: -self.mutual_credit.state.balance.balance,
                local_pending_debt: self.mutual_credit.state.balance.remote_pending_debt,
                remote_pending_debt: self.mutual_credit.state.balance.local_pending_debt,
                rand_nonce,
            },
        )
    }

    /// Start collecting an outgoing batch against a throwaway clone of the
    /// ledger. Returns None while the direction is already outgoing.
    pub fn begin_outgoing_move_token(&self) -> (r: Option<crate::outgoing::OutgoingMc>)
        ensures
            match r {
                None => self.dir_view() is Outgoing,
                Some(o) => {
                    &&& self.dir_view() is Incoming
                    &&& o.mutual_credit.snap() == self.mc_snap()
                    &&& o.operations@.len() == 0
                    &&& o.mutations@.len() == 0
                    &&& o.max_operations == MAX_OPERATIONS_IN_BATCH
                },
            },
    {
        if let MoveTokenDirection::Outgoing(_) = self.direction {
            return None;
        }
        Some(crate::outgoing::OutgoingMc::new(&self.mutual_credit, MAX_OPERATIONS_IN_BATCH))
    }

    /// The buffer whose signature becomes the reset token for this channel.
    pub fn reset_token_sign_buffer(&self) -> (r: Vec<u8>)
        requires
            self.mc_snap().balance + self.mc_snap().remote_pending_debt <= i128::MAX,
        ensures
            r@ == reset_token_bytes(
                cur_token(self.dir_view()).new_token,
                (self.mc_snap().balance + self.mc_snap().remote_pending_debt) as i128,
            ),
    {
        let balance_for_reset = self.get_mutual_credit().balance_for_reset();
        calc_channel_reset_token_buffer(&self.get_cur_move_token().new_token, balance_for_reset)
    }

    /// Assemble the reset terms around a reset token signed by the identity
    /// oracle over `reset_token_sign_buffer`. The inconsistency counter is
    /// advanced by one, wrapping: two to the sixty-fourth inconsistencies
    /// would be needed for a wrap.
    pub fn get_reset_terms(&self, reset_token: Signature) -> (r: ResetTerms)
        requires
            self.mc_snap().balance + self.mc_snap().remote_pending_debt <= i128::MAX,
        ensures
            r.reset_token == reset_token,
            r.inconsistency_counter == (if cur_token(self.dir_view()).inconsistency_counter
                == u64::MAX {
                0u64
            } else {
                (cur_token(self.dir_view()).inconsistency_counter + 1) as u64
            }),
            r.balance_for_reset == self.mc_snap().balance + self.mc_snap().remote_pending_debt,
    {
        let balance_for_reset = self.get_mutual_credit().balance_for_reset();
        ResetTerms {
            reset_token,
            inconsistency_counter: self.get_inconsistency_counter().wrapping_add(1),
            balance_for_reset,
        }
    }
}

pub open spec fn reset_token_prefix() -> Seq<u8> {
    seq![82u8, 69u8, 83u8, 69u8, 84u8]
}

/// The bytes whose signature becomes a reset token: a domain-separating
/// digest, the token being reset past, and the balance to rebuild at.
pub open spec fn reset_token_bytes(new_token: Seq<u8>, balance_for_reset: i128) -> Seq<u8> {
    sha_512_256_of(reset_token_prefix()) + new_token + be_i128(balance_for_reset)
}

/// Calculate the buffer whose signature is the token for resetting a
/// channel: a hash of a domain-separation tag, then the current token, then
/// the balance the channel would be rebuilt at.
pub fn calc_channel_reset_token_buffer(new_token: &Signature, balance_for_reset: i128) -> (r: Vec<
    u8,
>)
    ensures
        r@ == reset_token_bytes(new_token@, balance_for_reset),
{
    // The domain-separation tag: the bytes of "RESET".
    let mut tag: Vec<u8> = Vec::new();
    tag.push(82);
    tag.push(69);
    tag.push(83);
    tag.push(69);
    tag.push(84);
    proof {
        assert(tag@ =~= reset_token_prefix());
    }
    let mut sig_buffer = sha_512_256(tag.as_slice());
    let mut token_bytes = new_token.bytes.clone();
    proof {
        assert(token_bytes@ =~= new_token.bytes@);
    }
    sig_buffer.append(&mut token_bytes);
    crate::canonical_serialize::write_i128_be(&mut sig_buffer, balance_for_reset);
    proof {
        assert(sig_buffer@ =~= reset_token_bytes(new_token@, balance_for_reset));
    }
    sig_buffer
}

} // verus!
