use qpspin_mc::moves::MoveType;
use qpspin_mc::proposal::{proposal_count, MAX_COUNTED_LEN};

fn ratio(beta: f64, two_l: u64, move_type: MoveType) -> f64 {
    let c = proposal_count(two_l, move_type) as f64;
    match move_type {
        MoveType::Add => beta.powi(2) / c,
        MoveType::Remove => c / beta.powi(2),
    }
}

#[test]
fn proposal_counts_match_the_table() {
    assert_eq!(proposal_count(0, MoveType::Add), 4);
    assert_eq!(proposal_count(2, MoveType::Add), 12);
    assert_eq!(proposal_count(4, MoveType::Add), 30);
    assert_eq!(proposal_count(6, MoveType::Add), 56);
    assert_eq!(proposal_count(2, MoveType::Remove), 4);
    assert_eq!(proposal_count(4, MoveType::Remove), 12);
    assert_eq!(proposal_count(6, MoveType::Remove), 30);
}

#[test]
fn proposal_ratios_match_the_closed_forms() {
    let beta = 1.5_f64;
    let b2 = beta * beta;
    assert_eq!(ratio(beta, 0, MoveType::Add), b2 / 4.0);
    assert_eq!(ratio(beta, 2, MoveType::Add), b2 / 12.0);
    assert_eq!(ratio(beta, 4, MoveType::Add), b2 / 30.0);
    assert_eq!(ratio(beta, 6, MoveType::Add), b2 / 56.0);
    assert_eq!(ratio(beta, 2, MoveType::Remove), 4.0 / b2);
    assert_eq!(ratio(beta, 4, MoveType::Remove), 12.0 / b2);
    assert_eq!(ratio(beta, 6, MoveType::Remove), 30.0 / b2);
}

#[test]
fn insertion_and_removal_counts_balance() {
    for n in (0..40u64).step_by(2) {
        assert_eq!(proposal_count(n, MoveType::Add), proposal_count(n + 2, MoveType::Remove));
    }
}

#[test]
fn proposal_count_of_a_large_state() {
    let n: u64 = 1 << 20;
    assert_eq!(proposal_count(n, MoveType::Add), (n + 2) * (n + 1));
    assert_eq!(proposal_count(n, MoveType::Remove), n * (n - 1));
}

#[test]
fn proposal_count_at_the_largest_size() {
    let n = MAX_COUNTED_LEN;
    let expected = (n as u128 + 2) * (n as u128 + 1);
    assert_eq!(proposal_count(n, MoveType::Add) as u128, expected);
    assert_eq!(proposal_count(n, MoveType::Remove) as u128, n as u128 * (n as u128 - 1));
}
