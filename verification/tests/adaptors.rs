use intrusive::capability::{
    Below, Duplicate, EvenOnly, HalfEvens, Negate, Probe, ScaleWrap, TalliedScale,
};
use intrusive::ext::IntrusiveIteratorExt;

#[test]
fn filter_then_map_scenario() {
    let s: Vec<i64> = vec![1, 2, 3, 4, 5];
    let r: Vec<i64> = s.filter(EvenOnly).map(ScaleWrap { factor: 10 }).collect();
    assert_eq!(r, vec![20, 40]);
}

#[test]
fn skip_while_swallows_boundary() {
    let s: Vec<i64> = vec![1, 2, 3, 4, 5];
    let r: Vec<i64> = s.skip_while(Below { bound: 3 }).collect();
    assert_eq!(r, vec![4, 5]);
}

#[test]
fn skip_while_boundary_first() {
    // The very first element fails the predicate: it is swallowed too.
    let s: Vec<i64> = vec![1, 2, 3];
    let r: Vec<i64> = s.skip_while(Below { bound: 0 }).collect();
    assert_eq!(r, vec![2, 3]);
}

#[test]
fn skip_while_everything_held() {
    let s: Vec<i64> = vec![1, 2, 3];
    let r: Vec<i64> = s.skip_while(Below { bound: 10 }).collect();
    assert_eq!(r, Vec::<i64>::new());
}

#[test]
fn chain_of_chars() {
    let s: Vec<char> = "abc".chars().collect();
    let two: Vec<char> = "de".chars().collect();
    let r: Vec<char> = s.chain(two).collect();
    let want: Vec<char> = "abcde".chars().collect();
    assert_eq!(r, want);
}

#[test]
fn map_preserves_count() {
    let s: Vec<i64> = vec![7, -3, 0, 12];
    assert_eq!(s.clone().map(ScaleWrap { factor: -2 }).count(), s.count());
}

#[test]
fn filter_partitions_count() {
    let s: Vec<i64> = vec![1, 2, 3, 4, 5, 6, 7];
    let kept = s.clone().filter(EvenOnly).count();
    let culled = s.clone().filter(Negate { inner: EvenOnly }).count();
    assert_eq!(kept + culled, s.count());
}

#[test]
fn take_counts_min() {
    let s: Vec<i64> = vec![1, 2, 3, 4, 5];
    assert_eq!(s.clone().take(3).count(), 3);
    assert_eq!(s.clone().take(5).count(), 5);
    assert_eq!(s.clone().take(9).count(), 5);
    assert_eq!(s.take(0).count(), 0);
}

#[test]
fn skip_counts_difference() {
    let s: Vec<i64> = vec![1, 2, 3, 4, 5];
    assert_eq!(s.clone().skip(2).count(), 3);
    assert_eq!(s.clone().skip(5).count(), 0);
    assert_eq!(s.clone().skip(9).count(), 0);
    assert_eq!(s.skip(0).count(), 5);
}

#[test]
fn skip_forwards_the_tail() {
    let s: Vec<i64> = vec![10, 20, 30, 40];
    let r: Vec<i64> = s.skip(2).collect();
    assert_eq!(r, vec![30, 40]);
}

#[test]
fn take_forwards_the_front() {
    let s: Vec<i64> = vec![10, 20, 30, 40];
    let r: Vec<i64> = s.take(2).collect();
    assert_eq!(r, vec![10, 20]);
}

#[test]
fn split_and_rejoin() {
    let s: Vec<i64> = vec![9, 8, 7, 6, 5];
    for n in 0..7usize {
        let front = s.clone().take(n);
        let back = s.clone().skip(n);
        let r: Vec<i64> = front.chain(back).collect();
        assert_eq!(r, s);
    }
}

#[test]
fn enumerate_pairs_in_order() {
    let s: Vec<i64> = vec![5, 6, 7];
    let r: Vec<(usize, i64)> = s.enumerate().collect();
    assert_eq!(r, vec![(0, 5), (1, 6), (2, 7)]);
}

#[test]
fn enumerate_empty() {
    let s: Vec<i64> = Vec::new();
    let r: Vec<(usize, i64)> = s.enumerate().collect();
    assert_eq!(r, Vec::<(usize, i64)>::new());
}

#[test]
fn filter_map_sifts_and_maps() {
    let s: Vec<i64> = vec![1, 2, 3, 4, 5, 6];
    let r: Vec<i64> = s.filter_map(HalfEvens).collect();
    assert_eq!(r, vec![1, 2, 3]);
}

#[test]
fn take_while_stops_at_boundary() {
    let s: Vec<i64> = vec![1, 2, 3, 4, 1];
    let r: Vec<i64> = s.take_while(Below { bound: 3 }).collect();
    assert_eq!(r, vec![1, 2]);
}

#[test]
fn take_while_of_everything() {
    let s: Vec<i64> = vec![1, 2, 3];
    let r: Vec<i64> = s.take_while(Below { bound: 10 }).collect();
    assert_eq!(r, vec![1, 2, 3]);
}

#[test]
fn inspect_forwards_unchanged() {
    let s: Vec<i64> = vec![4, 5, 6];
    let r: Vec<i64> = s.clone().inspect(Probe::new()).collect();
    assert_eq!(r, s);
}

#[test]
fn flat_map_splices_in_order() {
    let s: Vec<i64> = vec![1, 2, 3];
    let r: Vec<i64> = s.flat_map(Duplicate).collect();
    assert_eq!(r, vec![1, 1, 2, 2, 3, 3]);
}

#[test]
fn flat_map_then_take_stops_inside_a_sub_sequence() {
    let s: Vec<i64> = vec![1, 2, 3];
    let r: Vec<i64> = s.flat_map(Duplicate).take(3).collect();
    assert_eq!(r, vec![1, 1, 2]);
}

#[test]
fn chain_take_stops_in_second_phase() {
    let one: Vec<i64> = vec![1, 2];
    let two: Vec<i64> = vec![3, 4];
    let r: Vec<i64> = one.chain(two).take(3).collect();
    assert_eq!(r, vec![1, 2, 3]);
}

#[test]
fn chain_with_empty_halves() {
    let empty: Vec<i64> = Vec::new();
    let s: Vec<i64> = vec![1, 2];
    let r: Vec<i64> = empty.clone().chain(s.clone()).collect();
    assert_eq!(r, vec![1, 2]);
    let r: Vec<i64> = s.chain(empty).collect();
    assert_eq!(r, vec![1, 2]);
}

#[test]
fn count_and_collect_of_empty() {
    let s: Vec<i64> = Vec::new();
    assert_eq!(s.clone().count(), 0);
    let r: Vec<i64> = s.collect();
    assert_eq!(r, Vec::<i64>::new());
}

#[test]
fn map_wraps_at_the_edge() {
    let s: Vec<i64> = vec![i64::MAX];
    let r: Vec<i64> = s.map(ScaleWrap { factor: 2 }).collect();
    assert_eq!(r, vec![i64::MAX.wrapping_mul(2)]);
}

#[test]
fn stateful_transform_maps_like_a_stateless_one() {
    let s: Vec<i64> = vec![3, -1, 4];
    let tallied: Vec<i64> = s.clone().map(TalliedScale { factor: 5, calls: 0 }).collect();
    let plain: Vec<i64> = s.map(ScaleWrap { factor: 5 }).collect();
    assert_eq!(tallied, plain);
    assert_eq!(tallied, vec![15, -5, 20]);
}

#[test]
fn adaptors_compose_deeply() {
    let s: Vec<i64> = vec![1, 2, 3, 4, 5, 6, 7, 8];
    let r: Vec<i64> = s
        .skip(1)
        .filter(EvenOnly)
        .map(ScaleWrap { factor: 3 })
        .take(2)
        .collect();
    assert_eq!(r, vec![6, 12]);
}
