use raytracer::closest::ClosestHit;

fn search(range: std::ops::Range<i64>, hits: &[Option<i64>]) -> (std::ops::Range<i64>, Option<usize>) {
    let mut closest = ClosestHit::new(&range);
    let mut kept = None;
    for (index, hit) in hits.iter().enumerate() {
        let asked = closest.range();
        // A member answers with its nearest hit when it lies in the range it is asked with.
        if let Some(t) = hit.filter(|t| asked.contains(t)) {
            if closest.record(t) {
                kept = Some(index);
            }
        }
    }
    (closest.range(), kept)
}

#[test]
fn new_search_spans_the_whole_range() {
    let closest = ClosestHit::new(&(1..100));
    assert_eq!(closest.range(), 1..100);
}

#[test]
fn record_narrows_the_range() {
    let mut closest = ClosestHit::new(&(1..100));
    assert!(closest.record(40));
    assert_eq!(closest.range(), 1..40);
    assert!(!closest.record(40));
    assert!(!closest.record(70));
    assert!(!closest.record(0));
    assert!(closest.record(1));
    assert_eq!(closest.range(), 1..1);
}

#[test]
fn nearest_of_two_in_either_order() {
    assert_eq!(search(0..100, &[Some(8), Some(3)]), (0..3, Some(1)));
    assert_eq!(search(0..100, &[Some(3), Some(8)]), (0..3, Some(0)));
}

#[test]
fn nearest_among_many_ignores_out_of_range() {
    let hits = [Some(50), None, Some(-4), Some(12), Some(150), Some(30)];
    assert_eq!(search(0..100, &hits), (0..12, Some(3)));
}

#[test]
fn no_member_hit() {
    assert_eq!(search(0..100, &[None, Some(-1), Some(100)]), (0..100, None));
}

#[test]
fn equal_hits_keep_the_first() {
    assert_eq!(search(0..100, &[Some(5), Some(5)]), (0..5, Some(0)));
}

#[test]
fn float_search_as_in_a_scene() {
    let mut closest = ClosestHit::new(&(0.001f32..f32::INFINITY));
    assert!(closest.record(4.5));
    assert!(closest.record(1.5));
    assert!(!closest.record(2.0));
    assert_eq!(closest.range(), 0.001..1.5);
}
