use qpspin_mc::joe_test;
use qpspin_mc::moves::{choose_move, needs_selection_draw, remove_pair, MoveType};
use rand::SeedableRng;

#[test]
fn joe_test_returns_its_argument() {
    assert_eq!(joe_test(0), 0);
    assert_eq!(joe_test(7), 7);
    assert_eq!(joe_test(u64::MAX), u64::MAX);
}

#[test]
fn empty_state_always_grows() {
    assert!(!needs_selection_draw(0));
    assert_eq!(choose_move(0, false), MoveType::Add);
    assert_eq!(choose_move(0, true), MoveType::Add);
}

#[test]
fn non_empty_state_follows_the_draw() {
    assert!(needs_selection_draw(2));
    assert_eq!(choose_move(2, true), MoveType::Add);
    assert_eq!(choose_move(2, false), MoveType::Remove);
    assert_eq!(choose_move(6, false), MoveType::Remove);
}

fn is_subsequence(small: &[u32], big: &[u32]) -> bool {
    let mut it = big.iter();
    small.iter().all(|x| it.any(|y| y == x))
}

#[test]
fn remove_pair_deletes_two_present_times() {
    let before: Vec<u32> = vec![10, 20, 30, 40, 50, 60];
    let mut rng = rand_pcg::Pcg64::seed_from_u64(3);
    let mut state = before.clone();
    remove_pair(&mut state, &mut rng);
    assert_eq!(state.len(), before.len() - 2);
    assert!(is_subsequence(&state, &before));
}

#[test]
fn remove_pair_from_two_times_gives_the_empty_state() {
    let mut rng = rand_pcg::Pcg64::seed_from_u64(0);
    let mut state: Vec<u32> = vec![1, 2];
    remove_pair(&mut state, &mut rng);
    assert!(state.is_empty());
}

#[test]
fn remove_pair_is_reproducible_for_a_seed() {
    for seed in 0..20u64 {
        let mut rng_a = rand_pcg::Pcg64::seed_from_u64(seed);
        let mut rng_b = rand_pcg::Pcg64::seed_from_u64(seed);
        let mut a: Vec<u32> = (0..10).collect();
        let mut b: Vec<u32> = (0..10).collect();
        for _ in 0..4 {
            remove_pair(&mut a, &mut rng_a);
            remove_pair(&mut b, &mut rng_b);
            assert_eq!(a, b);
        }
        assert_eq!(a.len(), 2);
    }
}

#[test]
fn remove_pair_reaches_every_position() {
    let mut seen = [false; 4];
    let mut rng = rand_pcg::Pcg64::seed_from_u64(11);
    for _ in 0..200 {
        let mut state: Vec<usize> = vec![0, 1, 2, 3];
        remove_pair(&mut state, &mut rng);
        for k in 0..4 {
            if !state.contains(&k) {
                seen[k] = true;
            }
        }
    }
    assert!(seen.iter().all(|s| *s));
}
