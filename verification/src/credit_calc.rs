//! The credit calculator: pure, overflow-checked functions computing, for a
//! route of per-hop linear price proposals (cost = base + multiplier *
//! length), how many credits a hop must freeze before forwarding a request
//! and how many it earns when a response or a failure comes back. Every
//! arithmetic step that could overflow returns no result instead.

use vstd::prelude::*;

use crate::crypto::PublicKey;

verus! {

/// A linear price: `base + multiplier * length`.
#[derive(Clone, Copy, Debug, PartialEq, Eq, Structural)]
pub struct LinearSendPrice {
    pub base: u32,
    pub multiplier: u32,
}

/// The price a node asks for carrying one message.
#[derive(Clone, Copy, Debug, PartialEq, Eq, Structural)]
pub struct NetworkerSendPrice(pub LinearSendPrice);

/// The prices a middle node asks for the request and the response legs.
#[derive(Clone, Copy, Debug, PartialEq, Eq, Structural)]
pub struct PaymentProposalPair {
    pub request: NetworkerSendPrice,
    pub response: NetworkerSendPrice,
}

/// One hop of a route: the node and its price pair.
#[derive(Debug)]
pub struct NeighborRouteLink {
    pub node_public_key: PublicKey,
    pub payment_proposal_pair: PaymentProposalPair,
}

/// A full route: the middle hops and the destination's response price.
#[derive(Debug)]
pub struct NeighborsRoute {
    pub route_links: Vec<NeighborRouteLink>,
    pub dest_response_proposal: NetworkerSendPrice,
}

/// The price proposals a request travels under: one pair per middle node,
/// and the destination's response proposal.
#[derive(Debug)]
pub struct PaymentProposals {
    pub middle_props: Vec<PaymentProposalPair>,
    pub dest_response_proposal: NetworkerSendPrice,
}

pub open spec fn cost_spec(price: NetworkerSendPrice, length: int) -> int {
    price.0.base + price.0.multiplier * length
}

impl NetworkerSendPrice {
    /// The cost of carrying a message of `length` bytes under this price.
    /// Two 32-bit factors never overflow the 64-bit result.
    pub fn calc_cost(&self, length: u32) -> (r: Option<u64>)
        ensures
            r is Some,
            r->0 == cost_spec(*self, length as int),
    {
        proof {
            assert(self.0.multiplier * length <= 0xffff_ffffu64 * 0xffff_ffffu64) by (nonlinear_arith)
                requires
                    self.0.multiplier <= 0xffff_ffffu64,
                    length <= 0xffff_ffffu64,
            ;
        }
        Some((self.0.base as u64) + (self.0.multiplier as u64) * (length as u64))
    }
}

// The byte sizes the message-length formulas are built from.
pub const UID_LEN: u32 = 16;

pub const RAND_VALUE_LEN: u32 = 16;

pub const SIGNATURE_LEN: u32 = 64;

pub const PUBLIC_KEY_LEN: u32 = 32;

pub const SEND_PRICE_LEN: u32 = 8;

pub const ROUTE_LINK_LEN: u32 = 48;

pub const FREEZE_LINK_LEN: u32 = 16;

/// The bytes of a request message: a fixed overhead (request id, maximum
/// response length, processing fee), the route encoding, the content, and
/// one freeze link per node still to pass.
pub open spec fn request_len_spec(
    request_content_len: int,
    route_len: int,
    nodes_to_dest: int,
) -> int {
    (UID_LEN + 4 + 8) + (2 * PUBLIC_KEY_LEN + (route_len - 2) * ROUTE_LINK_LEN + 2
        * SEND_PRICE_LEN) + request_content_len + (route_len - nodes_to_dest) * FREEZE_LINK_LEN
}

/// The bytes of a response message: request id, nonce, a fixed word, the
/// content and a signature.
pub open spec fn response_len_spec(response_content_len: int) -> int {
    UID_LEN + RAND_VALUE_LEN + 8 + response_content_len + SIGNATURE_LEN
}

/// The bytes of a failure message: request id, a fixed word, and one
/// nonce-and-signature pair per node up to the reporting one.
pub open spec fn failure_len_spec(nodes_to_reporting: int) -> int {
    UID_LEN + 2 + (RAND_VALUE_LEN + SIGNATURE_LEN) * nodes_to_reporting
}

/// Compute the length of a request message, if the route makes sense
/// (`route_len >= 2`, the destination within it) and the length fits.
pub fn calc_request_len(request_content_len: u32, route_len: u32, nodes_to_dest: u32) -> (r:
    Option<u32>)
    ensures
        r is Some <==> (route_len >= 2 && nodes_to_dest <= route_len && request_len_spec(
            request_content_len as int,
            route_len as int,
            nodes_to_dest as int,
        ) <= u32::MAX),
        r is Some ==> r->0 == request_len_spec(
            request_content_len as int,
            route_len as int,
            nodes_to_dest as int,
        ),
{
    let middle_links = match route_len.checked_sub(2) {
        None => {
            return None;
        },
        Some(x) => x,
    };
    let route_bytes_count = match middle_links.checked_mul(ROUTE_LINK_LEN) {
        None => {
            return None;
        },
        Some(x) => match (2 * PUBLIC_KEY_LEN).checked_add(x) {
            None => {
                return None;
            },
            Some(y) => match y.checked_add(2 * SEND_PRICE_LEN) {
                None => {
                    return None;
                },
                Some(z) => z,
            },
        },
    };
    let remaining_nodes = match route_len.checked_sub(nodes_to_dest) {
        None => {
            return None;
        },
        Some(x) => x,
    };
    let freeze_links_len = match remaining_nodes.checked_mul(FREEZE_LINK_LEN) {
        None => {
            return None;
        },
        Some(x) => x,
    };
    let request_overhead = UID_LEN + 4 + 8;
    let sum1 = match request_overhead.checked_add(route_bytes_count) {
        None => {
            return None;
        },
        Some(x) => x,
    };
    let sum2 = match sum1.checked_add(request_content_len) {
        None => {
            return None;
        },
        Some(x) => x,
    };
    match sum2.checked_add(freeze_links_len) {
        None => None,
        Some(x) => Some(x),
    }
}

/// Compute the length of a response message, if it fits.
pub fn calc_response_len(response_content_len: u32) -> (r: Option<u32>)
    ensures
        r is Some <==> response_len_spec(response_content_len as int) <= u32::MAX,
        r is Some ==> r->0 == response_len_spec(response_content_len as int),
{
    match (UID_LEN + RAND_VALUE_LEN + 8).checked_add(response_content_len) {
        None => None,
        Some(x) => x.checked_add(SIGNATURE_LEN),
    }
}

/// Compute the length of a failure message, if it fits.
pub fn calc_failure_len(nodes_to_reporting: u32) -> (r: Option<u32>)
    ensures
        r is Some <==> failure_len_spec(nodes_to_reporting as int) <= u32::MAX,
        r is Some ==> r->0 == failure_len_spec(nodes_to_reporting as int),
{
    let rand_nonce_sig_len = RAND_VALUE_LEN + SIGNATURE_LEN;
    match rand_nonce_sig_len.checked_mul(nodes_to_reporting) {
        None => None,
        Some(x) => (UID_LEN + 2).checked_add(x),
    }
}

/// The sum of the response multipliers of the middle nodes from position `i`
/// on.
pub open spec fn sum_mult_from(props: Seq<PaymentProposalPair>, i: int) -> int
    decreases props.len() - i,
{
    if i < 0 || i >= props.len() {
        0
    } else {
        props[i].response.0.multiplier + sum_mult_from(props, i + 1)
    }
}

pub proof fn lemma_sum_mult_from_nonneg(props: Seq<PaymentProposalPair>, i: int)
    ensures
        sum_mult_from(props, i) >= 0,
    decreases props.len() - i,
{
    if 0 <= i < props.len() {
        lemma_sum_mult_from_nonneg(props, i + 1);
    }
}

/// Summing from an earlier position can only add non-negative terms.
pub proof fn lemma_sum_mult_from_le(props: Seq<PaymentProposalPair>, i: int, j: int)
    requires
        i <= j,
        0 <= i,
    ensures
        sum_mult_from(props, j) <= sum_mult_from(props, i),
    decreases j - i,
{
    if i < j {
        if i < props.len() {
            lemma_sum_mult_from_le(props, i + 1, j);
        } else {
            lemma_sum_mult_from_nonneg(props, j);
        }
    }
}

/// The credits paid to the destination node upon a signed response: the
/// processing fee, the destination's price for the longest allowed response,
/// and a refund share for the unused response length.
pub open spec fn success_dest_spec(
    props: Seq<PaymentProposalPair>,
    dest_response_proposal: NetworkerSendPrice,
    processing_fee_proposal: int,
    response_content_len: int,
    max_response_content_len: int,
) -> int {
    processing_fee_proposal + cost_spec(
        dest_response_proposal,
        response_len_spec(max_response_content_len),
    ) + (max_response_content_len - response_content_len) * sum_mult_from(props, 0)
}

/// When the destination payout is computable: the lengths representable, the
/// response within its allowed maximum, and the sums within 64 bits.
pub open spec fn success_dest_ok(
    props: Seq<PaymentProposalPair>,
    dest_response_proposal: NetworkerSendPrice,
    processing_fee_proposal: int,
    response_content_len: int,
    max_response_content_len: int,
) -> bool {
    &&& response_len_spec(response_content_len) <= u32::MAX
    &&& response_len_spec(max_response_content_len) <= u32::MAX
    &&& response_content_len <= max_response_content_len
    &&& sum_mult_from(props, 0) <= u64::MAX
    &&& success_dest_spec(
        props,
        dest_response_proposal,
        processing_fee_proposal,
        response_content_len,
        max_response_content_len,
    ) <= u64::MAX
}

/// Amount of credits paid to the destination node upon issuing a signed
/// response. The destination is the last node along the route of a request.
/// On any 64-bit overflow the function returns None.
pub fn credits_on_success_dest(
    payment_proposals: &PaymentProposals,
    processing_fee_proposal: u64,
    response_content_len: u32,
    max_response_content_len: u32,
) -> (r: Option<u64>)
    ensures
        r is Some <==> success_dest_ok(
            payment_proposals.middle_props@,
            payment_proposals.dest_response_proposal,
            processing_fee_proposal as int,
            response_content_len as int,
            max_response_content_len as int,
        ),
        r is Some ==> r->0 == success_dest_spec(
            payment_proposals.middle_props@,
            payment_proposals.dest_response_proposal,
            processing_fee_proposal as int,
            response_content_len as int,
            max_response_content_len as int,
        ),
{
    let response_len = match calc_response_len(response_content_len) {
        None => {
            return None;
        },
        Some(x) => x,
    };
    let max_response_len = match calc_response_len(max_response_content_len) {
        None => {
            return None;
        },
        Some(x) => x,
    };

    // Find out the refund multiplier: the sum over all middle nodes.
    let mut sum_resp_multiplier: u64 = 0;
    let mut i: usize = 0;
    while i < payment_proposals.middle_props.len()
        invariant
            0 <= i <= payment_proposals.middle_props@.len(),
            sum_resp_multiplier == sum_mult_from(payment_proposals.middle_props@, 0) - sum_mult_from(payment_proposals.middle_props@, i as int),
        decreases payment_proposals.middle_props@.len() - i,
    {
        sum_resp_multiplier = match sum_resp_multiplier.checked_add(
            payment_proposals.middle_props[i].response.0.multiplier as u64,
        ) {
            None => {
                // The total is at least this partial sum, so it overflows
                // too.
                proof {
                    lemma_sum_mult_from_nonneg(payment_proposals.middle_props@, i as int + 1);
                    assert(sum_mult_from(payment_proposals.middle_props@, i as int) == payment_proposals.middle_props@[i as int].response.0.multiplier
                        + sum_mult_from(payment_proposals.middle_props@, i as int + 1));
                    assert(sum_mult_from(payment_proposals.middle_props@, 0) > u64::MAX);
                }
                return None;
            },
            Some(x) => x,
        };
        i = i + 1;
    }
    proof {
        lemma_sum_mult_from_nonneg(payment_proposals.middle_props@, payment_proposals.middle_props@.len() as int);
        assert(sum_mult_from(payment_proposals.middle_props@, payment_proposals.middle_props@.len() as int) == 0);
    }

    let resp_prop = &payment_proposals.dest_response_proposal;
    let dest_cost = match resp_prop.calc_cost(max_response_len) {
        None => {
            return None;
        },
        Some(x) => x,
    };
    let unused = match (max_response_len as u64).checked_sub(response_len as u64) {
        None => {
            return None;
        },
        Some(x) => x,
    };
    let refund = match unused.checked_mul(sum_resp_multiplier) {
        None => {
            proof {
                lemma_refund_le_total(
                    payment_proposals.middle_props@,
                    *resp_prop,
                    processing_fee_proposal as int,
                    response_content_len as int,
                    max_response_content_len as int,
                );
            }
            return None;
        },
        Some(x) => x,
    };
    let sum1 = match processing_fee_proposal.checked_add(dest_cost) {
        None => {
            proof {
                lemma_refund_le_total(
                    payment_proposals.middle_props@,
                    *resp_prop,
                    processing_fee_proposal as int,
                    response_content_len as int,
                    max_response_content_len as int,
                );
            }
            return None;
        },
        Some(x) => x,
    };
    match sum1.checked_add(refund) {
        None => None,
        Some(credits) => Some(credits),
    }
}

/// Every part of the destination payout is within the whole: the parts are
/// non-negative.
proof fn lemma_refund_le_total(
    props: Seq<PaymentProposalPair>,
    dest_response_proposal: NetworkerSendPrice,
    processing_fee_proposal: int,
    response_content_len: int,
    max_response_content_len: int,
)
    requires
        0 <= processing_fee_proposal,
        0 <= response_content_len <= max_response_content_len,
    ensures
        (max_response_content_len - response_content_len) * sum_mult_from(props, 0)
            <= success_dest_spec(
            props,
            dest_response_proposal,
            processing_fee_proposal,
            response_content_len,
            max_response_content_len,
        ),
        0 <= (max_response_content_len - response_content_len) * sum_mult_from(props, 0),
        cost_spec(dest_response_proposal, response_len_spec(max_response_content_len)) >= 0,
{
    lemma_sum_mult_from_nonneg(props, 0);
    vstd::arithmetic::mul::lemma_mul_nonnegative(
        max_response_content_len - response_content_len,
        sum_mult_from(props, 0),
    );
    vstd::arithmetic::mul::lemma_mul_nonnegative(
        dest_response_proposal.0.multiplier as int,
        response_len_spec(max_response_content_len),
    );
}

/// Convert a count to 32 bits, if it fits.
pub fn usize_to_u32(x: usize) -> (r: Option<u32>)
    ensures
        r is Some <==> x <= u32::MAX,
        r is Some ==> r->0 == x,
{
    if x <= 0xffff_ffffusize {
        Some(x as u32)
    } else {
        None
    }
}

/// What middle node `i` earns when a response comes back through it: its
/// request price for the request message, and its response price for the
/// response padded with the worst-case failure report.
pub open spec fn success_term(
    props: Seq<PaymentProposalPair>,
    request_content_len: int,
    response_content_len: int,
    i: int,
) -> int {
    cost_spec(
        props[i].request,
        request_len_spec(request_content_len, props.len() as int, props.len() - i),
    ) + cost_spec(
        props[i].response,
        response_len_spec(response_content_len) + failure_len_spec(props.len() - i),
    )
}

pub open spec fn success_terms_from(
    props: Seq<PaymentProposalPair>,
    request_content_len: int,
    response_content_len: int,
    i: int,
) -> int
    decreases props.len() - i,
{
    if i < 0 || i >= props.len() {
        0
    } else {
        success_term(props, request_content_len, response_content_len, i) + success_terms_from(
            props,
            request_content_len,
            response_content_len,
            i + 1,
        )
    }
}

/// When the earnings of middle node `i` are computable: the message lengths
/// representable.
pub open spec fn success_term_ok(
    props: Seq<PaymentProposalPair>,
    request_content_len: int,
    response_content_len: int,
    i: int,
) -> bool {
    &&& props.len() >= 2
    &&& request_len_spec(request_content_len, props.len() as int, props.len() - i) <= u32::MAX
    &&& failure_len_spec(props.len() - i) <= u32::MAX
    &&& response_len_spec(response_content_len) + failure_len_spec(props.len() - i) <= u32::MAX
}

/// The total payout when a response comes back to a node `nodes_to_dest`
/// hops from the destination: the destination's payout plus what every
/// middle node between here and the destination earns.
pub open spec fn success_spec(
    props: Seq<PaymentProposalPair>,
    dest_response_proposal: NetworkerSendPrice,
    processing_fee_proposal: int,
    request_content_len: int,
    response_content_len: int,
    max_response_content_len: int,
    nodes_to_dest: int,
) -> int {
    success_dest_spec(
        props,
        dest_response_proposal,
        processing_fee_proposal,
        response_content_len,
        max_response_content_len,
    ) + success_terms_from(
        props,
        request_content_len,
        response_content_len,
        props.len() - nodes_to_dest,
    )
}

pub open spec fn success_ok(
    props: Seq<PaymentProposalPair>,
    dest_response_proposal: NetworkerSendPrice,
    processing_fee_proposal: int,
    request_content_len: int,
    response_content_len: int,
    max_response_content_len: int,
    nodes_to_dest: int,
) -> bool {
    &&& success_dest_ok(
        props,
        dest_response_proposal,
        processing_fee_proposal,
        response_content_len,
        max_response_content_len,
    )
    &&& nodes_to_dest <= props.len()
    &&& props.len() <= u32::MAX
    &&& forall|i: int|
        props.len() - nodes_to_dest <= i < props.len() ==> success_term_ok(
            props,
            request_content_len,
            response_content_len,
            i,
        )
    &&& success_spec(
        props,
        dest_response_proposal,
        processing_fee_proposal,
        request_content_len,
        response_content_len,
        max_response_content_len,
        nodes_to_dest,
    ) <= u64::MAX
}

/// A computable middle-node term is non-negative.
pub proof fn lemma_success_term_nonneg(
    props: Seq<PaymentProposalPair>,
    request_content_len: int,
    response_content_len: int,
    i: int,
)
    requires
        0 <= request_content_len,
        0 <= response_content_len,
        0 <= i < props.len(),
        props.len() >= 2,
    ensures
        success_term(props, request_content_len, response_content_len, i) >= 0,
{
    vstd::arithmetic::mul::lemma_mul_nonnegative(
        (props.len() - 2) as int,
        ROUTE_LINK_LEN as int,
    );
    vstd::arithmetic::mul::lemma_mul_nonnegative(i, FREEZE_LINK_LEN as int);
    vstd::arithmetic::mul::lemma_mul_nonnegative(
        (RAND_VALUE_LEN + SIGNATURE_LEN) as int,
        props.len() - i,
    );
    vstd::arithmetic::mul::lemma_mul_nonnegative(
        props[i].request.0.multiplier as int,
        request_len_spec(request_content_len, props.len() as int, props.len() - i),
    );
    vstd::arithmetic::mul::lemma_mul_nonnegative(
        props[i].response.0.multiplier as int,
        response_len_spec(response_content_len) + failure_len_spec(props.len() - i),
    );
}

pub proof fn lemma_success_terms_from_nonneg(
    props: Seq<PaymentProposalPair>,
    request_content_len: int,
    response_content_len: int,
    i: int,
)
    requires
        0 <= request_content_len,
        0 <= response_content_len,
        props.len() >= 2 || i >= props.len() || i < 0,
    ensures
        success_terms_from(props, request_content_len, response_content_len, i) >= 0,
    decreases props.len() - i,
{
    if 0 <= i < props.len() {
        lemma_success_term_nonneg(props, request_content_len, response_content_len, i);
        lemma_success_terms_from_nonneg(props, request_content_len, response_content_len, i + 1);
    }
}

/// Amount of credit paid to a node that sent a valid response, `nodes_to_dest`
/// hops from the destination. On any 64-bit overflow the function returns
/// None.
pub fn credits_on_success(
    payment_proposals: &PaymentProposals,
    processing_fee_proposal: u64,
    request_content_len: u32,
    response_content_len: u32,
    max_response_content_len: u32,
    nodes_to_dest: u32,
) -> (r: Option<u64>)
    ensures
        r is Some <==> success_ok(
            payment_proposals.middle_props@,
            payment_proposals.dest_response_proposal,
            processing_fee_proposal as int,
            request_content_len as int,
            response_content_len as int,
            max_response_content_len as int,
            nodes_to_dest as int,
        ),
        r is Some ==> r->0 == success_spec(
            payment_proposals.middle_props@,
            payment_proposals.dest_response_proposal,
            processing_fee_proposal as int,
            request_content_len as int,
            response_content_len as int,
            max_response_content_len as int,
            nodes_to_dest as int,
        ),
{
    let ghost propsv = payment_proposals.middle_props@;
    let middle_props_len = match usize_to_u32(payment_proposals.middle_props.len()) {
        None => {
            return None;
        },
        Some(x) => x,
    };
    let mut sum_credits: u64 = match credits_on_success_dest(
        payment_proposals,
        processing_fee_proposal,
        response_content_len,
        max_response_content_len,
    ) {
        None => {
            return None;
        },
        Some(x) => x,
    };
    let start = match middle_props_len.checked_sub(nodes_to_dest) {
        None => {
            return None;
        },
        Some(x) => x,
    };
    let mut i: u32 = start;
    while i < middle_props_len
        invariant
            start <= i <= middle_props_len,
            middle_props_len == propsv.len(),
            propsv == payment_proposals.middle_props@,
            nodes_to_dest <= middle_props_len,
            start == middle_props_len - nodes_to_dest,
            success_dest_ok(
                propsv,
                payment_proposals.dest_response_proposal,
                processing_fee_proposal as int,
                response_content_len as int,
                max_response_content_len as int,
            ),
            forall|j: int|
                start <= j < i ==> success_term_ok(
                    propsv,
                    request_content_len as int,
                    response_content_len as int,
                    j,
                ),
            sum_credits == success_dest_spec(
                propsv,
                payment_proposals.dest_response_proposal,
                processing_fee_proposal as int,
                response_content_len as int,
                max_response_content_len as int,
            ) + success_terms_from(
                propsv,
                request_content_len as int,
                response_content_len as int,
                start as int,
            ) - success_terms_from(
                propsv,
                request_content_len as int,
                response_content_len as int,
                i as int,
            ),
        decreases middle_props_len - i,
    {
        let request_len = match calc_request_len(
            request_content_len,
            middle_props_len,
            middle_props_len - i,
        ) {
            None => {
                proof {
                    assert(!success_term_ok(
                        propsv,
                        request_content_len as int,
                        response_content_len as int,
                        i as int,
                    ));
                }
                return None;
            },
            Some(x) => x,
        };
        let response_len = match calc_response_len(response_content_len) {
            None => {
                return None;
            },
            Some(x) => x,
        };
        // The worst case is the reporting node being as far as possible.
        let max_failure_len = match calc_failure_len(middle_props_len - i) {
            None => {
                proof {
                    assert(!success_term_ok(
                        propsv,
                        request_content_len as int,
                        response_content_len as int,
                        i as int,
                    ));
                }
                return None;
            },
            Some(x) => x,
        };
        let resp_msg_len = match response_len.checked_add(max_failure_len) {
            None => {
                proof {
                    assert(!success_term_ok(
                        propsv,
                        request_content_len as int,
                        response_content_len as int,
                        i as int,
                    ));
                }
                return None;
            },
            Some(x) => x,
        };
        let middle_prop = &payment_proposals.middle_props[i as usize];
        let req_cost = match middle_prop.request.calc_cost(request_len) {
            None => {
                return None;
            },
            Some(x) => x,
        };
        let resp_cost = match middle_prop.response.calc_cost(resp_msg_len) {
            None => {
                return None;
            },
            Some(x) => x,
        };
        let credits_earned = match req_cost.checked_add(resp_cost) {
            None => {
                proof {
                    lemma_overflow_refutes_success_ok(
                        propsv,
                        payment_proposals.dest_response_proposal,
                        processing_fee_proposal as int,
                        request_content_len as int,
                        response_content_len as int,
                        max_response_content_len as int,
                        nodes_to_dest as int,
                        i as int,
                        sum_credits as int,
                    );
                }
                return None;
            },
            Some(x) => x,
        };
        sum_credits = match sum_credits.checked_add(credits_earned) {
            None => {
                proof {
                    lemma_overflow_refutes_success_ok(
                        propsv,
                        payment_proposals.dest_response_proposal,
                        processing_fee_proposal as int,
                        request_content_len as int,
                        response_content_len as int,
                        max_response_content_len as int,
                        nodes_to_dest as int,
                        i as int,
                        sum_credits as int,
                    );
                }
                return None;
            },
            Some(x) => x,
        };
        i = i + 1;
    }
    Some(sum_credits)
}

/// If the running total plus the current term passes 64 bits, no computable
/// total exists: either a later term is itself not computable, or the whole
/// sum passes 64 bits.
proof fn lemma_overflow_refutes_success_ok(
    props: Seq<PaymentProposalPair>,
    dest_response_proposal: NetworkerSendPrice,
    processing_fee_proposal: int,
    request_content_len: int,
    response_content_len: int,
    max_response_content_len: int,
    nodes_to_dest: int,
    i: int,
    sum_credits: int,
)
    requires
        0 <= processing_fee_proposal,
        0 <= request_content_len,
        0 <= response_content_len,
        nodes_to_dest <= props.len(),
        props.len() - nodes_to_dest <= i < props.len(),
        props.len() >= 2,
        sum_credits + success_term(props, request_content_len, response_content_len, i)
            > u64::MAX,
        sum_credits == success_dest_spec(
            props,
            dest_response_proposal,
            processing_fee_proposal,
            response_content_len,
            max_response_content_len,
        ) + success_terms_from(
            props,
            request_content_len,
            response_content_len,
            props.len() - nodes_to_dest,
        ) - success_terms_from(props, request_content_len, response_content_len, i),
    ensures
        !success_ok(
            props,
            dest_response_proposal,
            processing_fee_proposal,
            request_content_len,
            response_content_len,
            max_response_content_len,
            nodes_to_dest,
        ),
{
    if success_ok(
        props,
        dest_response_proposal,
        processing_fee_proposal,
        request_content_len,
        response_content_len,
        max_response_content_len,
        nodes_to_dest,
    ) {
        lemma_success_terms_from_nonneg(props, request_content_len, response_content_len, i + 1);
        assert(success_terms_from(props, request_content_len, response_content_len, i)
            == success_term(props, request_content_len, response_content_len, i)
            + success_terms_from(props, request_content_len, response_content_len, i + 1));
    }
}

/// Compute the amount of credits to freeze when sending a request to a node
/// `nodes_to_dest` hops from the destination: the maximum possible payout,
/// obtained when the response carries no content.
pub fn credits_to_freeze(
    payment_proposals: &PaymentProposals,
    processing_fee_proposal: u64,
    request_content_len: u32,
    max_response_content_len: u32,
    nodes_to_dest: u32,
) -> (r: Option<u64>)
    ensures
        r is Some <==> success_ok(
            payment_proposals.middle_props@,
            payment_proposals.dest_response_proposal,
            processing_fee_proposal as int,
            request_content_len as int,
            0,
            max_response_content_len as int,
            nodes_to_dest as int,
        ),
        r is Some ==> r->0 == success_spec(
            payment_proposals.middle_props@,
            payment_proposals.dest_response_proposal,
            processing_fee_proposal as int,
            request_content_len as int,
            0,
            max_response_content_len as int,
            nodes_to_dest as int,
        ),
{
    // The maximum payout is obtained when the response content is empty.
    credits_on_success(
        payment_proposals,
        processing_fee_proposal,
        request_content_len,
        0,
        max_response_content_len,
        nodes_to_dest,
    )
}

/// What middle node `i` earns when a failure is reported by node `end`: its
/// request price for the request message, and its response price for the
/// failure report it carries back.
pub open spec fn failure_term(
    props: Seq<PaymentProposalPair>,
    request_content_len: int,
    end: int,
    i: int,
) -> int {
    cost_spec(
        props[i].request,
        request_len_spec(request_content_len, props.len() as int, props.len() - i),
    ) + cost_spec(props[i].response, failure_len_spec(end - i))
}

pub open spec fn failure_terms_from(
    props: Seq<PaymentProposalPair>,
    request_content_len: int,
    end: int,
    i: int,
) -> int
    decreases end - i,
{
    if i < 0 || i >= end {
        0
    } else {
        failure_term(props, request_content_len, end, i) + failure_terms_from(
            props,
            request_content_len,
            end,
            i + 1,
        )
    }
}

pub open spec fn failure_term_ok(
    props: Seq<PaymentProposalPair>,
    request_content_len: int,
    end: int,
    i: int,
) -> bool {
    &&& props.len() >= 2
    &&& request_len_spec(request_content_len, props.len() as int, props.len() - i) <= u32::MAX
    &&& failure_len_spec(end - i) <= u32::MAX
}

/// The total payout when node `end` reports a failure: what every node
/// between the earner and the reporter earns for carrying the report, plus
/// the reporting node's own price for issuing it.
pub open spec fn failure_spec(
    props: Seq<PaymentProposalPair>,
    request_content_len: int,
    nodes_to_reporting: int,
    reporting_to_dest: int,
) -> int {
    let end = props.len() - reporting_to_dest;
    failure_terms_from(props, request_content_len, end, end - nodes_to_reporting) + cost_spec(
        props[end].response,
        failure_len_spec(0),
    )
}

pub open spec fn failure_ok(
    props: Seq<PaymentProposalPair>,
    request_content_len: int,
    nodes_to_reporting: int,
    reporting_to_dest: int,
) -> bool {
    let end = props.len() - reporting_to_dest;
    &&& reporting_to_dest <= props.len()
    &&& nodes_to_reporting <= end
    &&& props.len() <= u32::MAX
    &&& forall|i: int|
        end - nodes_to_reporting <= i < end ==> failure_term_ok(props, request_content_len, end, i)
    &&& failure_spec(props, request_content_len, nodes_to_reporting, reporting_to_dest)
        <= u64::MAX
}

pub proof fn lemma_failure_term_nonneg(
    props: Seq<PaymentProposalPair>,
    request_content_len: int,
    end: int,
    i: int,
)
    requires
        0 <= request_content_len,
        0 <= i < end <= props.len(),
        props.len() >= 2,
    ensures
        failure_term(props, request_content_len, end, i) >= 0,
{
    vstd::arithmetic::mul::lemma_mul_nonnegative(
        (props.len() - 2) as int,
        ROUTE_LINK_LEN as int,
    );
    vstd::arithmetic::mul::lemma_mul_nonnegative(i, FREEZE_LINK_LEN as int);
    vstd::arithmetic::mul::lemma_mul_nonnegative(
        (RAND_VALUE_LEN + SIGNATURE_LEN) as int,
        end - i,
    );
    vstd::arithmetic::mul::lemma_mul_nonnegative(
        props[i].request.0.multiplier as int,
        request_len_spec(request_content_len, props.len() as int, props.len() - i),
    );
    vstd::arithmetic::mul::lemma_mul_nonnegative(
        props[i].response.0.multiplier as int,
        failure_len_spec(end - i),
    );
}

pub proof fn lemma_failure_terms_from_nonneg(
    props: Seq<PaymentProposalPair>,
    request_content_len: int,
    end: int,
    i: int,
)
    requires
        0 <= request_content_len,
        end <= props.len(),
        props.len() >= 2 || i >= end || i < 0,
    ensures
        failure_terms_from(props, request_content_len, end, i) >= 0,
    decreases end - i,
{
    if 0 <= i < end {
        lemma_failure_term_nonneg(props, request_content_len, end, i);
        lemma_failure_terms_from_nonneg(props, request_content_len, end, i + 1);
    }
}

/// The amount of credits paid to a node `nodes_to_reporting` hops before the
/// node that reported the failure. The destination node can never report a
/// failure, so the reporting node lies at least two hops before it. On any
/// 64-bit overflow the function returns None.
pub fn credits_on_failure(
    payment_proposals: &PaymentProposals,
    request_content_len: u32,
    nodes_to_reporting: u32,
    reporting_to_dest: u32,
) -> (r: Option<u64>)
    requires
        reporting_to_dest > 1,
    ensures
        r is Some <==> failure_ok(
            payment_proposals.middle_props@,
            request_content_len as int,
            nodes_to_reporting as int,
            reporting_to_dest as int,
        ),
        r is Some ==> r->0 == failure_spec(
            payment_proposals.middle_props@,
            request_content_len as int,
            nodes_to_reporting as int,
            reporting_to_dest as int,
        ),
{
    let ghost propsv = payment_proposals.middle_props@;
    let middle_props_len = match usize_to_u32(payment_proposals.middle_props.len()) {
        None => {
            return None;
        },
        Some(x) => x,
    };
    let end_index = match middle_props_len.checked_sub(reporting_to_dest) {
        None => {
            return None;
        },
        Some(x) => x,
    };
    let start_index = match end_index.checked_sub(nodes_to_reporting) {
        None => {
            return None;
        },
        Some(x) => x,
    };

    let mut sum_credits: u64 = 0;
    let mut i: u32 = start_index;
    while i < end_index
        invariant
            start_index <= i <= end_index,
            end_index == middle_props_len - reporting_to_dest,
            start_index == end_index - nodes_to_reporting,
            reporting_to_dest > 1,
            middle_props_len == propsv.len(),
            propsv == payment_proposals.middle_props@,
            forall|j: int|
                start_index <= j < i ==> failure_term_ok(
                    propsv,
                    request_content_len as int,
                    end_index as int,
                    j,
                ),
            sum_credits == failure_terms_from(
                propsv,
                request_content_len as int,
                end_index as int,
                start_index as int,
            ) - failure_terms_from(
                propsv,
                request_content_len as int,
                end_index as int,
                i as int,
            ),
        decreases end_index - i,
    {
        let request_len = match calc_request_len(
            request_content_len,
            middle_props_len,
            middle_props_len - i,
        ) {
            None => {
                proof {
                    assert(!failure_term_ok(
                        propsv,
                        request_content_len as int,
                        end_index as int,
                        i as int,
                    ));
                }
                return None;
            },
            Some(x) => x,
        };
        let failure_len = match calc_failure_len(end_index - i) {
            None => {
                proof {
                    assert(!failure_term_ok(
                        propsv,
                        request_content_len as int,
                        end_index as int,
                        i as int,
                    ));
                }
                return None;
            },
            Some(x) => x,
        };
        let middle_prop = &payment_proposals.middle_props[i as usize];
        let req_cost = match middle_prop.request.calc_cost(request_len) {
            None => {
                return None;
            },
            Some(x) => x,
        };
        let resp_cost = match middle_prop.response.calc_cost(failure_len) {
            None => {
                return None;
            },
            Some(x) => x,
        };
        let credits_earned = match req_cost.checked_add(resp_cost) {
            None => {
                proof {
                    lemma_overflow_refutes_failure_ok(
                        propsv,
                        request_content_len as int,
                        nodes_to_reporting as int,
                        reporting_to_dest as int,
                        i as int,
                        sum_credits as int,
                    );
                }
                return None;
            },
            Some(x) => x,
        };
        sum_credits = match sum_credits.checked_add(credits_earned) {
            None => {
                proof {
                    lemma_overflow_refutes_failure_ok(
                        propsv,
                        request_content_len as int,
                        nodes_to_reporting as int,
                        reporting_to_dest as int,
                        i as int,
                        sum_credits as int,
                    );
                }
                return None;
            },
            Some(x) => x,
        };
        i = i + 1;
    }

    // Add the payment for the reporting node: the special case of the end
    // position, which carries the report but did not pass the request on.
    let failure_len_reporting = match calc_failure_len(0) {
        None => {
            return None;
        },
        Some(x) => x,
    };
    let reporting_node_credits = match payment_proposals.middle_props[end_index
        as usize].response.calc_cost(failure_len_reporting) {
        None => {
            return None;
        },
        Some(x) => x,
    };
    match sum_credits.checked_add(reporting_node_credits) {
        None => None,
        Some(total) => Some(total),
    }
}

/// If the running failure total plus the current term passes 64 bits, no
/// computable total exists.
proof fn lemma_overflow_refutes_failure_ok(
    props: Seq<PaymentProposalPair>,
    request_content_len: int,
    nodes_to_reporting: int,
    reporting_to_dest: int,
    i: int,
    sum_credits: int,
)
    requires
        0 <= request_content_len,
        1 < reporting_to_dest <= props.len(),
        nodes_to_reporting <= props.len() - reporting_to_dest,
        props.len() - reporting_to_dest - nodes_to_reporting <= i < props.len()
            - reporting_to_dest,
        sum_credits + failure_term(props, request_content_len, props.len() - reporting_to_dest, i)
            > u64::MAX,
        sum_credits == failure_terms_from(
            props,
            request_content_len,
            props.len() - reporting_to_dest,
            props.len() - reporting_to_dest - nodes_to_reporting,
        ) - failure_terms_from(props, request_content_len, props.len() - reporting_to_dest, i),
        0 <= sum_credits,
    ensures
        !failure_ok(props, request_content_len, nodes_to_reporting, reporting_to_dest),
{
    let end = props.len() - reporting_to_dest;
    if failure_ok(props, request_content_len, nodes_to_reporting, reporting_to_dest) {
        lemma_failure_terms_from_nonneg(props, request_content_len, end, i + 1);
        assert(failure_terms_from(props, request_content_len, end, i) == failure_term(
            props,
            request_content_len,
            end,
            i,
        ) + failure_terms_from(props, request_content_len, end, i + 1));
        vstd::arithmetic::mul::lemma_mul_nonnegative(
            props[end].response.0.multiplier as int,
            failure_len_spec(0),
        );
    }
}

/// A credit calculator wired to work with one specific request.
#[derive(Debug)]
pub struct CreditCalculator {
    pub payment_proposals: PaymentProposals,
    pub route_len: u32,
    pub request_content_len: u32,
    pub processing_fee_proposal: u64,
    pub max_response_len: u32,
}

impl CreditCalculator {
    pub fn new(
        route: &NeighborsRoute,
        request_content_len: u32,
        processing_fee_proposal: u64,
        max_response_len: u32,
    ) -> (r: Option<CreditCalculator>)
        ensures
            r is Some <==> route.route_links@.len() + 2 <= u32::MAX,
            r is Some ==> {
                let c = r->0;
                &&& c.payment_proposals.middle_props@ == route.route_links@.map_values(
                    |l: NeighborRouteLink| l.payment_proposal_pair,
                )
                &&& c.payment_proposals.dest_response_proposal == route.dest_response_proposal
                &&& c.route_len == route.route_links@.len() + 2
                &&& c.request_content_len == request_content_len
                &&& c.processing_fee_proposal == processing_fee_proposal
                &&& c.max_response_len == max_response_len
            },
    {
        let mut middle_props: Vec<PaymentProposalPair> = Vec::new();
        let mut i: usize = 0;
        while i < route.route_links.len()
            invariant
                i <= route.route_links@.len(),
                middle_props@.len() == i,
                forall|j: int|
                    0 <= j < i ==> middle_props@[j] == route.route_links@[j].payment_proposal_pair,
            decreases route.route_links@.len() - i,
        {
            middle_props.push(route.route_links[i].payment_proposal_pair);
            i = i + 1;
        }
        proof {
            assert(middle_props@ =~= route.route_links@.map_values(
                |l: NeighborRouteLink| l.payment_proposal_pair,
            ));
        }

        let links_plus_two = match route.route_links.len().checked_add(2) {
            None => {
                return None;
            },
            Some(x) => x,
        };
        let route_len = match usize_to_u32(links_plus_two) {
            None => {
                return None;
            },
            Some(x) => x,
        };
        let payment_proposals = PaymentProposals {
            middle_props,
            dest_response_proposal: route.dest_response_proposal,
        };
        Some(
            CreditCalculator {
                payment_proposals,
                route_len,
                request_content_len,
                processing_fee_proposal,
                max_response_len,
            },
        )
    }

    /// Convert a node index to its distance from the destination. The source
    /// node has index 0; the destination node has index `route_len - 1`.
    fn freeze_index_to_nodes_to_dest(&self, index: usize) -> (r: Option<u32>)
        ensures
            r is Some <==> (index <= u32::MAX && index + 1 <= self.route_len),
            r is Some ==> r->0 == self.route_len - index - 1,
    {
        let index32 = match usize_to_u32(index) {
            None => {
                return None;
            },
            Some(x) => x,
        };
        match self.route_len.checked_sub(index32) {
            None => None,
            Some(x) => x.checked_sub(1),
        }
    }

    /// Amount of credits node `index - 1` should freeze when sending a
    /// request message to node `index`.
    pub fn credits_to_freeze(&self, index: usize) -> (r: Option<u64>)
        ensures
            r is Some <==> (index <= u32::MAX && index + 1 <= self.route_len && success_ok(
                self.payment_proposals.middle_props@,
                self.payment_proposals.dest_response_proposal,
                self.processing_fee_proposal as int,
                self.request_content_len as int,
                0,
                self.max_response_len as int,
                self.route_len - index - 1,
            )),
            r is Some ==> r->0 == success_spec(
                self.payment_proposals.middle_props@,
                self.payment_proposals.dest_response_proposal,
                self.processing_fee_proposal as int,
                self.request_content_len as int,
                0,
                self.max_response_len as int,
                self.route_len - index - 1,
            ),
    {
        let nodes_to_dest = match self.freeze_index_to_nodes_to_dest(index) {
            None => {
                return None;
            },
            Some(x) => x,
        };
        credits_to_freeze(
            &self.payment_proposals,
            self.processing_fee_proposal,
            self.request_content_len,
            self.max_response_len,
            nodes_to_dest,
        )
    }

    /// Amount of credits paid to node `index` when it hands a valid response
    /// back to node `index - 1`.
    pub fn credits_on_success(&self, index: usize, response_content_len: u32) -> (r: Option<u64>)
        ensures
            r is Some <==> (index <= u32::MAX && index + 1 <= self.route_len && success_ok(
                self.payment_proposals.middle_props@,
                self.payment_proposals.dest_response_proposal,
                self.processing_fee_proposal as int,
                self.request_content_len as int,
                response_content_len as int,
                self.max_response_len as int,
                self.route_len - index - 1,
            )),
            r is Some ==> r->0 == success_spec(
                self.payment_proposals.middle_props@,
                self.payment_proposals.dest_response_proposal,
                self.processing_fee_proposal as int,
                self.request_content_len as int,
                response_content_len as int,
                self.max_response_len as int,
                self.route_len - index - 1,
            ),
    {
        let nodes_to_dest = match self.freeze_index_to_nodes_to_dest(index) {
            None => {
                return None;
            },
            Some(x) => x,
        };
        credits_on_success(
            &self.payment_proposals,
            self.processing_fee_proposal,
            self.request_content_len,
            response_content_len,
            self.max_response_len,
            nodes_to_dest,
        )
    }

    /// Amount of credits paid to node `index` when node `reporting_index`
    /// reports a failure. The reporting node must lie strictly between
    /// `index` and two short of the route's end: the destination never
    /// reports a failure.
    pub fn credits_on_failure(&self, index: usize, reporting_index: usize) -> (r: Option<u64>)
        requires
            self.route_len != reporting_index + 1,
            self.route_len != reporting_index + 2,
        ensures
            r is Some <==> (reporting_index <= u32::MAX && index <= reporting_index
                && reporting_index + 1 <= self.route_len && failure_ok(
                self.payment_proposals.middle_props@,
                self.request_content_len as int,
                reporting_index - index,
                self.route_len - reporting_index - 1,
            )),
            r is Some ==> r->0 == failure_spec(
                self.payment_proposals.middle_props@,
                self.request_content_len as int,
                reporting_index - index,
                self.route_len - reporting_index - 1,
            ),
    {
        let diff = match reporting_index.checked_sub(index) {
            None => {
                return None;
            },
            Some(x) => x,
        };
        let nodes_to_reporting = match usize_to_u32(diff) {
            None => {
                return None;
            },
            Some(x) => x,
        };
        let reporting_to_dest = match self.freeze_index_to_nodes_to_dest(reporting_index) {
            None => {
                return None;
            },
            Some(x) => x,
        };
        credits_on_failure(
            &self.payment_proposals,
            self.request_content_len,
            nodes_to_reporting,
            reporting_to_dest,
        )
    }
}

/// The destination payout is affine in the processing fee, with slope one.
pub proof fn lemma_success_dest_affine_in_fee(
    props: Seq<PaymentProposalPair>,
    dest_response_proposal: NetworkerSendPrice,
    fee1: int,
    fee2: int,
    response_content_len: int,
    max_response_content_len: int,
)
    ensures
        success_dest_spec(
            props,
            dest_response_proposal,
            fee2,
            response_content_len,
            max_response_content_len,
        ) - success_dest_spec(
            props,
            dest_response_proposal,
            fee1,
            response_content_len,
            max_response_content_len,
        ) == fee2 - fee1,
{
}

/// The destination payout is affine in the response content length, with
/// slope the negated sum of the middle response multipliers: each unused
/// byte of allowance is refunded at that rate.
pub proof fn lemma_success_dest_affine_in_response_len(
    props: Seq<PaymentProposalPair>,
    dest_response_proposal: NetworkerSendPrice,
    processing_fee_proposal: int,
    rcl1: int,
    rcl2: int,
    max_response_content_len: int,
)
    ensures
        success_dest_spec(
            props,
            dest_response_proposal,
            processing_fee_proposal,
            rcl1,
            max_response_content_len,
        ) - success_dest_spec(
            props,
            dest_response_proposal,
            processing_fee_proposal,
            rcl2,
            max_response_content_len,
        ) == (rcl2 - rcl1) * sum_mult_from(props, 0),
{
    let s = sum_mult_from(props, 0);
    assert((max_response_content_len - rcl1) * s - (max_response_content_len - rcl2) * s == (rcl2
        - rcl1) * s) by (nonlinear_arith);
}

/// The middle-node payouts grow with the response content length at exactly
/// the rate of the response multipliers still between here and the
/// destination.
pub proof fn lemma_success_terms_affine_in_response_len(
    props: Seq<PaymentProposalPair>,
    request_content_len: int,
    rcl1: int,
    rcl2: int,
    i: int,
)
    ensures
        success_terms_from(props, request_content_len, rcl2, i) - success_terms_from(
            props,
            request_content_len,
            rcl1,
            i,
        ) == (rcl2 - rcl1) * sum_mult_from(props, i),
    decreases props.len() - i,
{
    if i < 0 || i >= props.len() {
        assert((rcl2 - rcl1) * sum_mult_from(props, i) == 0) by (nonlinear_arith)
            requires
                sum_mult_from(props, i) == 0,
        ;
    } else {
        lemma_success_terms_affine_in_response_len(props, request_content_len, rcl1, rcl2, i + 1);
        let m = props[i].response.0.multiplier as int;
        let base = props[i].response.0.base as int;
        let fixed = failure_len_spec(props.len() - i);
        assert(success_term(props, request_content_len, rcl2, i) - success_term(
            props,
            request_content_len,
            rcl1,
            i,
        ) == m * (rcl2 - rcl1)) by (nonlinear_arith)
            requires
                success_term(props, request_content_len, rcl2, i) - success_term(
                    props,
                    request_content_len,
                    rcl1,
                    i,
                ) == m * (response_len_spec(rcl2) + fixed) - m * (response_len_spec(rcl1) + fixed),
                response_len_spec(rcl2) - response_len_spec(rcl1) == rcl2 - rcl1,
        ;
        assert(m * (rcl2 - rcl1) + (rcl2 - rcl1) * sum_mult_from(props, i + 1) == (rcl2 - rcl1)
            * sum_mult_from(props, i)) by (nonlinear_arith)
            requires
                sum_mult_from(props, i) == m + sum_mult_from(props, i + 1),
        ;
    }
}

/// The payout on success never grows with the response content length: every
/// extra byte costs the earner at least as much in refunds as it brings in
/// carriage fees.
pub proof fn lemma_success_nonincreasing_in_response_len(
    props: Seq<PaymentProposalPair>,
    dest_response_proposal: NetworkerSendPrice,
    processing_fee_proposal: int,
    request_content_len: int,
    rcl1: int,
    rcl2: int,
    max_response_content_len: int,
    nodes_to_dest: int,
)
    requires
        rcl1 <= rcl2,
        0 <= nodes_to_dest <= props.len(),
    ensures
        success_spec(
            props,
            dest_response_proposal,
            processing_fee_proposal,
            request_content_len,
            rcl1,
            max_response_content_len,
            nodes_to_dest,
        ) >= success_spec(
            props,
            dest_response_proposal,
            processing_fee_proposal,
            request_content_len,
            rcl2,
            max_response_content_len,
            nodes_to_dest,
        ),
{
    let start = props.len() - nodes_to_dest;
    lemma_success_dest_affine_in_response_len(
        props,
        dest_response_proposal,
        processing_fee_proposal,
        rcl1,
        rcl2,
        max_response_content_len,
    );
    lemma_success_terms_affine_in_response_len(
        props,
        request_content_len,
        rcl1,
        rcl2,
        start as int,
    );
    lemma_sum_mult_from_le(props, 0, start as int);
    assert((rcl2 - rcl1) * sum_mult_from(props, 0) >= (rcl2 - rcl1) * sum_mult_from(
        props,
        start as int,
    )) by (nonlinear_arith)
        requires
            rcl2 - rcl1 >= 0,
            sum_mult_from(props, 0) >= sum_mult_from(props, start as int),
    ;
}

/// The credits frozen for a request bound the payout of any success: the
/// freeze is the payout at response length zero, and the payout never grows
/// with the response length.
pub proof fn lemma_freeze_ge_success(
    props: Seq<PaymentProposalPair>,
    dest_response_proposal: NetworkerSendPrice,
    processing_fee_proposal: int,
    request_content_len: int,
    response_content_len: int,
    max_response_content_len: int,
    nodes_to_dest: int,
)
    requires
        0 <= response_content_len,
        0 <= nodes_to_dest <= props.len(),
    ensures
        success_spec(
            props,
            dest_response_proposal,
            processing_fee_proposal,
            request_content_len,
            0,
            max_response_content_len,
            nodes_to_dest,
        ) >= success_spec(
            props,
            dest_response_proposal,
            processing_fee_proposal,
            request_content_len,
            response_content_len,
            max_response_content_len,
            nodes_to_dest,
        ),
{
    lemma_success_nonincreasing_in_response_len(
        props,
        dest_response_proposal,
        processing_fee_proposal,
        request_content_len,
        0,
        response_content_len,
        max_response_content_len,
        nodes_to_dest,
    );
}

/// Every middle node earns at least as much from carrying a response as from
/// carrying a failure report over the same leg.
proof fn lemma_terms_window_ge_failure(
    props: Seq<PaymentProposalPair>,
    request_content_len: int,
    response_content_len: int,
    end: int,
    i: int,
)
    requires
        0 <= request_content_len,
        0 <= response_content_len,
        0 <= i <= end <= props.len(),
        props.len() >= 2,
    ensures
        success_terms_from(props, request_content_len, response_content_len, i)
            >= failure_terms_from(props, request_content_len, end, i) + success_terms_from(
            props,
            request_content_len,
            response_content_len,
            end,
        ),
    decreases end - i,
{
    if i < end {
        lemma_terms_window_ge_failure(props, request_content_len, response_content_len, end, i + 1);
        let m = props[i].response.0.multiplier as int;
        let l_success = response_len_spec(response_content_len) + failure_len_spec(props.len() - i);
        let l_failure = failure_len_spec(end - i);
        vstd::arithmetic::mul::lemma_mul_nonnegative(
            (RAND_VALUE_LEN + SIGNATURE_LEN) as int,
            props.len() - end,
        );
        assert(failure_len_spec(props.len() - i) - failure_len_spec(end - i) == (RAND_VALUE_LEN
            + SIGNATURE_LEN) * (props.len() - i) - (RAND_VALUE_LEN + SIGNATURE_LEN) * (end - i));
        assert((RAND_VALUE_LEN + SIGNATURE_LEN) * (props.len() - i) - (RAND_VALUE_LEN
            + SIGNATURE_LEN) * (end - i) == (RAND_VALUE_LEN + SIGNATURE_LEN) * (props.len()
            - end)) by (nonlinear_arith);
        vstd::arithmetic::mul::lemma_mul_inequality(l_failure, l_success, m);
    }
}

/// Successes pay better than failures: for every hop and every reporting
/// hop, the credits a node earns when a response comes back are at least the
/// credits it earns when that reporting hop sends back a failure instead.
pub proof fn lemma_success_ge_failure(
    props: Seq<PaymentProposalPair>,
    dest_response_proposal: NetworkerSendPrice,
    processing_fee_proposal: int,
    request_content_len: int,
    response_content_len: int,
    max_response_content_len: int,
    nodes_to_reporting: int,
    reporting_to_dest: int,
)
    requires
        0 <= processing_fee_proposal,
        0 <= request_content_len,
        0 <= response_content_len <= max_response_content_len,
        0 <= nodes_to_reporting,
        2 <= reporting_to_dest,
        nodes_to_reporting + reporting_to_dest <= props.len(),
    ensures
        success_spec(
            props,
            dest_response_proposal,
            processing_fee_proposal,
            request_content_len,
            response_content_len,
            max_response_content_len,
            nodes_to_reporting + reporting_to_dest,
        ) >= failure_spec(props, request_content_len, nodes_to_reporting, reporting_to_dest),
{
    let n = props.len() as int;
    let end = n - reporting_to_dest;
    let start = n - (nodes_to_reporting + reporting_to_dest);

    // The destination payout is non-negative.
    lemma_refund_le_total(
        props,
        dest_response_proposal,
        processing_fee_proposal,
        response_content_len,
        max_response_content_len,
    );

    // Every shared middle hop earns at least as much on success.
    lemma_terms_window_ge_failure(props, request_content_len, response_content_len, end, start);

    // The node at the reporting position earns at least its failure price
    // when a response passes instead, and the hops past it earn something
    // non-negative.
    let m_end = props[end].response.0.multiplier as int;
    let l_success_end = response_len_spec(response_content_len) + failure_len_spec(n - end);
    vstd::arithmetic::mul::lemma_mul_nonnegative(
        (RAND_VALUE_LEN + SIGNATURE_LEN) as int,
        n - end,
    );
    vstd::arithmetic::mul::lemma_mul_inequality(failure_len_spec(0), l_success_end, m_end);
    vstd::arithmetic::mul::lemma_mul_nonnegative(
        props[end].request.0.multiplier as int,
        request_len_spec(request_content_len, n, n - end),
    );
    vstd::arithmetic::mul::lemma_mul_nonnegative((n - 2) as int, ROUTE_LINK_LEN as int);
    vstd::arithmetic::mul::lemma_mul_nonnegative(end, FREEZE_LINK_LEN as int);
    lemma_success_terms_from_nonneg(props, request_content_len, response_content_len, end + 1);
    assert(success_terms_from(props, request_content_len, response_content_len, end)
        == success_term(props, request_content_len, response_content_len, end)
        + success_terms_from(props, request_content_len, response_content_len, end + 1));
}

} // verus!
