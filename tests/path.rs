use raytracer::path::{advance, begin, Bounce, PathEnd, Step};

#[test]
fn no_budget_is_black() {
    assert_eq!(begin(0), Step::Finish(PathEnd::Black));
    assert_eq!(begin(50), Step::Trace { remaining: 50 });
}

#[test]
fn miss_takes_the_sky() {
    assert_eq!(advance(3, Bounce::Miss), Step::Finish(PathEnd::Sky));
    assert_eq!(advance(1, Bounce::Miss), Step::Finish(PathEnd::Sky));
}

#[test]
fn absorption_is_black() {
    assert_eq!(advance(3, Bounce::Absorbed), Step::Finish(PathEnd::Black));
}

#[test]
fn scatter_spends_one_bounce() {
    assert_eq!(advance(3, Bounce::Scattered), Step::Trace { remaining: 2 });
    assert_eq!(advance(1, Bounce::Scattered), Step::Finish(PathEnd::Black));
}

#[test]
fn scattering_path_ends_after_its_budget() {
    let mut step = begin(5);
    let mut traced = 0;
    while let Step::Trace { remaining } = step {
        traced += 1;
        step = advance(remaining, Bounce::Scattered);
    }
    assert_eq!(traced, 5);
    assert_eq!(step, Step::Finish(PathEnd::Black));
}
