//! Tests of the credit calculator: the message-length formulas, the
//! linearity of the payouts, and the ordering between freezes, successes and
//! failures.

use offst::credit_calc::{
    calc_failure_len, calc_request_len, calc_response_len, credits_on_failure, credits_on_success,
    credits_on_success_dest, credits_to_freeze, LinearSendPrice, NetworkerSendPrice,
    PaymentProposalPair, PaymentProposals,
};

fn is_linear_u32<F>(f: F, begin: u32, end: u32) -> bool
where
    F: Fn(u32) -> u32,
{
    assert!(end >= begin + 2);
    let mut x = begin;
    while x < end - 2 {
        if f(x + 2) + f(x) != f(x + 1) + f(x + 1) {
            return false;
        }
        x = x + 1;
    }
    true
}

fn is_linear_u64<F>(f: F, begin: u64, end: u64) -> bool
where
    F: Fn(u64) -> u64,
{
    assert!(end >= begin + 2);
    let mut x = begin;
    while x < end - 2 {
        if f(x + 2) + f(x) != f(x + 1) + f(x + 1) {
            return false;
        }
        x = x + 1;
    }
    true
}

fn is_linear_u32_to_u64<F>(f: F, begin: u32, end: u32) -> bool
where
    F: Fn(u32) -> u64,
{
    assert!(end >= begin + 2);
    let mut x = begin;
    while x < end - 2 {
        if f(x + 2) + f(x) != f(x + 1) + f(x + 1) {
            return false;
        }
        x = x + 1;
    }
    true
}

#[test]
fn test_calc_request_len_basic() {
    // B -- C
    let request_content_len = 4u32;
    let route_len = 2;
    let nodes_to_dest = 1;
    let opt_request_len = calc_request_len(request_content_len, route_len, nodes_to_dest);

    // Two end keys, no middle links, two send prices:
    let neighbors_route_len = 2 * 32 /* public keys */ + 2 * 8 /* send prices */;
    let freeze_link_len = 16;
    let expected_request_len = 16  // request id
        + 4   // max response length
        + 8   // processing fee proposal
        + neighbors_route_len
        + request_content_len
        + freeze_link_len /* * 1 */;

    assert_eq!(opt_request_len, Some(expected_request_len));
}

#[test]
fn test_calc_request_len_linearity() {
    let num_iters = 15;

    for nodes_to_dest in 0..num_iters {
        for route_len in std::cmp::max(2, nodes_to_dest + 1)..nodes_to_dest + num_iters {
            let f = |request_content_len| {
                calc_request_len(request_content_len, route_len, nodes_to_dest).unwrap()
            };
            assert!(is_linear_u32(f, 0, num_iters));
        }
    }
    for request_content_len in 0..num_iters {
        for nodes_to_dest in 0..num_iters {
            let f =
                |route_len| calc_request_len(request_content_len, route_len, nodes_to_dest).unwrap();
            assert!(is_linear_u32(
                f,
                std::cmp::max(2, nodes_to_dest + 1),
                nodes_to_dest + num_iters + 1
            ));
        }
    }
    for request_content_len in 0..num_iters {
        for route_len in 3..num_iters {
            let f = |nodes_to_dest| {
                calc_request_len(request_content_len, route_len, nodes_to_dest).unwrap()
            };
            assert!(is_linear_u32(f, 0, route_len - 1));
        }
    }
}

#[test]
fn test_calc_response_len_basic() {
    let response_content_len = 5;
    let opt_response_len = calc_response_len(response_content_len);

    let expected_response_len = 16  // request id
        + 16  // nonce
        + 8   // a fixed word
        + response_content_len
        + 64;  // signature

    assert_eq!(opt_response_len, Some(expected_response_len));
}

#[test]
fn test_calc_response_len_linearity() {
    let f = |response_content_len| calc_response_len(response_content_len).unwrap();
    assert!(is_linear_u32(f, 0, 100));
}

#[test]
fn test_calc_failure_len_basic() {
    // We are B; D, two nodes away, is the reporting node.
    let nodes_to_rep = 2;
    let opt_failure_len = calc_failure_len(nodes_to_rep);

    let rand_nonce_sig_len = 16 + 64;
    let expected_failure_len = 16  // request id
        + 2  // a fixed word
        + rand_nonce_sig_len * nodes_to_rep;

    assert_eq!(opt_failure_len, Some(expected_failure_len));
}

#[test]
fn test_calc_failure_len_linearity() {
    let f = |nodes_to_rep| calc_failure_len(nodes_to_rep).unwrap();
    assert!(is_linear_u32(f, 0, 100));
}

/// Short function for generating a NetworkerSendPrice (base, multiplier)
fn send_price(base: u32, multiplier: u32) -> NetworkerSendPrice {
    NetworkerSendPrice(LinearSendPrice { base, multiplier })
}

fn example_payment_proposals() -> PaymentProposals {
    PaymentProposals {
        middle_props: vec![
            PaymentProposalPair { request: send_price(1, 2), response: send_price(4, 3) },
            PaymentProposalPair { request: send_price(2, 3), response: send_price(1, 5) },
            PaymentProposalPair { request: send_price(3, 2), response: send_price(2, 5) },
            PaymentProposalPair { request: send_price(6, 7), response: send_price(9, 6) },
            PaymentProposalPair { request: send_price(3, 4), response: send_price(3, 4) },
        ],
        dest_response_proposal: send_price(2, 3),
    }
}

/// credits_on_success() with nodes_to_dest = 0 should have the same result as
/// credits_on_success_dest().
#[test]
fn test_credits_on_success_nodes_to_dest_zero() {
    let payment_proposals = example_payment_proposals();
    let processing_fee_proposal = 10u64;
    let request_content_len = 30u32;
    let response_content_len = 20u32;
    let max_response_content_len = 40u32;
    let c_on_success = credits_on_success(
        &payment_proposals,
        processing_fee_proposal,
        request_content_len,
        response_content_len,
        max_response_content_len,
        0,
    )
    .unwrap();

    let c_on_success_dest = credits_on_success_dest(
        &payment_proposals,
        processing_fee_proposal,
        response_content_len,
        max_response_content_len,
    )
    .unwrap();
    assert_eq!(c_on_success, c_on_success_dest);
}

#[test]
fn credits_on_success_dest_linearity() {
    let payment_proposals = example_payment_proposals();
    for response_content_len in 0..20 {
        for max_response_content_len in response_content_len..response_content_len + 20 {
            let f = |processing_fee_proposal| {
                credits_on_success_dest(
                    &payment_proposals,
                    processing_fee_proposal,
                    response_content_len,
                    max_response_content_len,
                )
                .unwrap()
            };
            assert!(is_linear_u64(f, 0, 20));
        }
    }

    for processing_fee_proposal in 0..20 {
        for max_response_content_len in 2..20 {
            let f = |response_content_len| {
                credits_on_success_dest(
                    &payment_proposals,
                    processing_fee_proposal,
                    response_content_len,
                    max_response_content_len,
                )
                .unwrap()
            };
            assert!(is_linear_u32_to_u64(f, 0, max_response_content_len));
        }
    }

    for processing_fee_proposal in 0..20 {
        for response_content_len in 0..20 {
            let f = |max_response_content_len| {
                credits_on_success_dest(
                    &payment_proposals,
                    processing_fee_proposal,
                    response_content_len,
                    max_response_content_len,
                )
                .unwrap()
            };
            assert!(is_linear_u32_to_u64(
                f,
                response_content_len,
                response_content_len + 20
            ));
        }
    }
}

#[test]
fn tests_credits_on_success_dest_basic() {
    let payment_proposals = example_payment_proposals();
    let processing_fee_proposal = 10u64;
    let response_content_len = 20u32;
    let max_response_content_len = 40u32;
    let opt_credits = credits_on_success_dest(
        &payment_proposals,
        processing_fee_proposal,
        response_content_len,
        max_response_content_len,
    );
    assert!(!opt_credits.is_none());
}

#[test]
fn test_credits_on_success_linearity() {
    let payment_proposals = example_payment_proposals();
    let route_len = (payment_proposals.middle_props.len() + 2) as u32;

    // ... processing_fee_proposal ...
    for request_content_len in 0..5 {
        for max_response_content_len in 2..5 {
            for response_content_len in 0..max_response_content_len {
                for nodes_to_dest in 0..route_len - 1 {
                    let f = |processing_fee_proposal| {
                        credits_on_success(
                            &payment_proposals,
                            processing_fee_proposal,
                            request_content_len,
                            response_content_len,
                            max_response_content_len,
                            nodes_to_dest,
                        )
                        .unwrap()
                    };
                    assert!(is_linear_u64(f, 0, 20));
                }
            }
        }
    }

    for processing_fee_proposal in 0..5 {
        // ... request_content_len ...
        for max_response_content_len in 2..5 {
            for response_content_len in 0..max_response_content_len {
                for nodes_to_dest in 0..route_len - 1 {
                    let f = |request_content_len| {
                        credits_on_success(
                            &payment_proposals,
                            processing_fee_proposal,
                            request_content_len,
                            response_content_len,
                            max_response_content_len,
                            nodes_to_dest,
                        )
                        .unwrap()
                    };
                    assert!(is_linear_u32_to_u64(f, 0, 15));
                }
            }
        }
    }

    for processing_fee_proposal in 0..8 {
        for request_content_len in 0..8 {
            // ... response_content_len ...
            for max_response_content_len in 2..5 {
                for nodes_to_dest in 0..route_len - 1 {
                    let f = |response_content_len| {
                        credits_on_success(
                            &payment_proposals,
                            processing_fee_proposal,
                            request_content_len,
                            response_content_len,
                            max_response_content_len,
                            nodes_to_dest,
                        )
                        .unwrap()
                    };
                    assert!(is_linear_u32_to_u64(f, 0, max_response_content_len));
                }
            }
        }
    }

    for processing_fee_proposal in 0..6 {
        for request_content_len in 0..6 {
            for response_content_len in 0..6 {
                // ... max_response_content_len ...
                for nodes_to_dest in 0..route_len - 1 {
                    let f = |max_response_content_len| {
                        credits_on_success(
                            &payment_proposals,
                            processing_fee_proposal,
                            request_content_len,
                            response_content_len,
                            max_response_content_len,
                            nodes_to_dest,
                        )
                        .unwrap()
                    };
                    assert!(is_linear_u32_to_u64(
                        f,
                        response_content_len,
                        response_content_len + 15
                    ));
                }
            }
        }
    }
    // credits_on_success is not guaranteed to be linear in nodes_to_dest,
    // so that is not tested here.
}

#[test]
fn test_credits_on_success_decreasing_by_response_content_len() {
    let payment_proposals = example_payment_proposals();
    let processing_fee_proposal = 10u64;
    let request_content_len = 10u32;
    let max_response_content_len = 40u32;

    let route_len = (payment_proposals.middle_props.len() + 2) as u32;

    for nodes_to_dest in 0..route_len - 2 {
        let f = |response_content_len| {
            credits_on_success(
                &payment_proposals,
                processing_fee_proposal,
                request_content_len,
                response_content_len,
                max_response_content_len,
                nodes_to_dest,
            )
            .unwrap()
        };

        let mut prev_credits = f(0);
        for response_content_len in 1..=max_response_content_len {
            let cur_credits = f(response_content_len);
            assert!(cur_credits < prev_credits);
            prev_credits = cur_credits;
        }
    }
}

#[test]
fn test_credits_on_success_unaffected_by_response_content_len() {
    let payment_proposals = example_payment_proposals();
    let processing_fee_proposal = 10u64;
    let request_content_len = 10u32;
    let max_response_content_len = 40u32;

    let route_len = (payment_proposals.middle_props.len() + 2) as u32;
    let nodes_to_dest = route_len - 2;

    let f = |response_content_len| {
        credits_on_success(
            &payment_proposals,
            processing_fee_proposal,
            request_content_len,
            response_content_len,
            max_response_content_len,
            nodes_to_dest,
        )
        .unwrap()
    };

    let mut prev_credits = f(0);
    for response_content_len in 1..=max_response_content_len {
        let cur_credits = f(response_content_len);
        assert!(cur_credits == prev_credits);
        prev_credits = cur_credits;
    }
}

// Make sure that credits on success are always more than credits on failure.
#[test]
fn test_credits_on_success_ge_credits_on_failure() {
    let payment_proposals = example_payment_proposals();
    let route_len = (payment_proposals.middle_props.len() + 2) as u32;

    let processing_fee_proposal = 10u64;
    let request_content_len = 300u32;
    let response_content_len = 20u32;
    let max_response_content_len = 40u32;

    let nodes_to_dest = route_len.checked_sub(2).unwrap();

    let c_on_success = credits_on_success(
        &payment_proposals,
        processing_fee_proposal,
        request_content_len,
        response_content_len,
        max_response_content_len,
        nodes_to_dest,
    )
    .unwrap();

    for nodes_to_reporting in 0..nodes_to_dest - 1 {
        let reporting_to_dest = nodes_to_dest - nodes_to_reporting;
        let c_on_failure = credits_on_failure(
            &payment_proposals,
            request_content_len,
            nodes_to_reporting,
            reporting_to_dest,
        )
        .unwrap();

        assert!(c_on_success > c_on_failure);
    }
}

#[test]
fn test_credits_on_failure_reporting() {
    // In the case of nodes_to_reporting = 0, we are the reporting node.

    let payment_proposals = example_payment_proposals();
    let route_len = (payment_proposals.middle_props.len() + 2) as u32;

    let request_content_len = 300u32;
    let nodes_to_reporting = 0;
    let reporting_to_dest = 3;

    let c_on_failure = credits_on_failure(
        &payment_proposals,
        request_content_len,
        nodes_to_reporting,
        reporting_to_dest,
    )
    .unwrap();

    let end_index = route_len - reporting_to_dest - 2;
    let expected_credits = payment_proposals.middle_props[end_index as usize]
        .response
        .calc_cost(calc_failure_len(0).unwrap())
        .unwrap();

    assert_eq!(expected_credits, c_on_failure);
}

#[test]
fn test_credits_to_freeze_is_max() {
    let payment_proposals = example_payment_proposals();
    let route_len = (payment_proposals.middle_props.len() + 2) as u32;

    let processing_fee_proposal = 10u64;
    let request_content_len = 70u32;
    let max_response_content_len = 40u32;

    for nodes_to_dest in 0..route_len - 1 {
        let c_to_freeze = credits_to_freeze(
            &payment_proposals,
            processing_fee_proposal,
            request_content_len,
            max_response_content_len,
            nodes_to_dest,
        )
        .unwrap();

        for response_content_len in 0..=max_response_content_len {
            let c_on_success = credits_on_success(
                &payment_proposals,
                processing_fee_proposal,
                request_content_len,
                response_content_len,
                max_response_content_len,
                nodes_to_dest,
            )
            .unwrap();

            // The credits frozen must be the maximum possible value for the
            // credits obtained.
            assert!(c_on_success <= c_to_freeze);
        }
    }
}
