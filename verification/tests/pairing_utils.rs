use proof_system::backend::rng_from_seed;
use proof_system::iter::{
    pair_valid_pairs_with_slice, pair_with_slice, pluck_missed, skip_up_to_n,
    take_while_pairs_satisfy, Ascending, CheckLeft, CheckRight, IndexIsOutOfBounds,
    PairSliceError,
};

#[test]
fn pair_with_slice_pairs_by_index() {
    let iter: Vec<(usize, char)> = vec![(2, 'a'), (0, 'b'), (1, 'c')];
    let pairs: Vec<i32> = vec![10, 20, 30];
    let r = pair_with_slice(&iter, &pairs).unwrap();
    assert_eq!(r, vec![(30, 'a'), (10, 'b'), (20, 'c')]);
}

#[test]
fn pair_with_slice_reports_first_bad_index() {
    let iter: Vec<(usize, char)> = vec![(1, 'a'), (7, 'b'), (9, 'c')];
    let pairs: Vec<i32> = vec![10, 20, 30];
    let e = pair_with_slice(&iter, &pairs).unwrap_err();
    assert_eq!(e, IndexIsOutOfBounds { index: 7, length: 3 });
}

#[test]
fn take_while_pairs_stops_at_first_violation() {
    let items: Vec<(usize, char)> = vec![(1, 'a'), (3, 'b'), (2, 'c'), (5, 'd')];
    let mut invalid: Option<(usize, usize)> = None;
    let r = take_while_pairs_satisfy(&items, &CheckLeft(Ascending), &mut invalid);
    assert_eq!(r, vec![(1, 'a'), (3, 'b')]);
    assert_eq!(invalid, Some((3, 2)));
}

#[test]
fn take_while_pairs_keeps_valid_input_whole() {
    let items: Vec<(char, usize)> = vec![('a', 1), ('b', 2), ('c', 4)];
    let mut invalid: Option<(usize, usize)> = None;
    let r = take_while_pairs_satisfy(&items, &CheckRight(Ascending), &mut invalid);
    assert_eq!(r.len(), 3);
    assert_eq!(invalid, None);
}

#[test]
fn pair_valid_pairs_combines_both_checks() {
    let iter: Vec<(usize, char)> = vec![(0, 'a'), (1, 'b'), (2, 'c')];
    let pairs: Vec<i32> = vec![10, 20, 30];
    let r = pair_valid_pairs_with_slice(&iter, &CheckLeft(Ascending), &pairs).unwrap();
    assert_eq!(r, vec![(10, 'a'), (20, 'b'), (30, 'c')]);

    let bad_order: Vec<(usize, char)> = vec![(1, 'a'), (1, 'b')];
    match pair_valid_pairs_with_slice(&bad_order, &CheckLeft(Ascending), &pairs) {
        Err(PairSliceError::InvalidPair(p, c)) => {
            assert_eq!((p, c), (1, 1));
        },
        _ => panic!("expected an invalid pair"),
    }

    let bad_index: Vec<(usize, char)> = vec![(0, 'a'), (8, 'b')];
    match pair_valid_pairs_with_slice(&bad_index, &CheckLeft(Ascending), &pairs) {
        Err(PairSliceError::IndexIsOutOfBounds(e)) => {
            assert_eq!(e, IndexIsOutOfBounds { index: 8, length: 3 });
        },
        _ => panic!("expected an out-of-bounds index"),
    }
}

#[test]
fn pluck_missed_drops_listed_positions() {
    let indices: Vec<usize> = vec![1, 3];
    let items: Vec<char> = vec!['a', 'b', 'c', 'd', 'e'];
    assert_eq!(pluck_missed(&indices, &items), vec!['a', 'c', 'e']);
    let none: Vec<usize> = Vec::new();
    assert_eq!(pluck_missed(&none, &items).len(), 5);
}

#[test]
fn skip_up_to_n_bounds_the_losses() {
    let mut rng = rng_from_seed(5);
    let items: Vec<u32> = (0..50).collect();
    let kept = skip_up_to_n(&mut rng, &items, 10);
    assert!(kept.len() >= 40);
    assert!(kept.len() <= 50);
    let all = skip_up_to_n(&mut rng, &items, 0);
    assert_eq!(all.len(), 50);
}
