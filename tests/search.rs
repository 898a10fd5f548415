use bezier_rs::{
    default_euclidean_error_bound, search_plan, start_euclidean_search, EuclideanSearch, Measure,
    Ratio, SearchStep, SEARCH_DEN,
};

fn ratio(num: u16, den: u16) -> Ratio {
    Ratio::new(num, den).unwrap()
}

#[test]
fn plan_measures_from_nearer_end() {
    let quarter = search_plan(ratio(1, 4));
    assert!(quarter.from_start);
    assert_eq!(quarter.subdivisions, 250);
    let three_quarters = search_plan(ratio(3, 4));
    assert!(!three_quarters.from_start);
    assert_eq!(three_quarters.subdivisions, 250);
}

#[test]
fn plan_rounds_subdivisions_and_keeps_at_least_one() {
    assert_eq!(search_plan(ratio(1, 3)).subdivisions, 167);
    assert_eq!(search_plan(ratio(1, 2000)).subdivisions, 500);
    assert_eq!(search_plan(ratio(1, 2)).subdivisions, 1);
    assert_eq!(search_plan(ratio(1000, 2001)).subdivisions, 1);
    assert_eq!(search_plan(ratio(0, 1)).subdivisions, 500);
    assert_eq!(search_plan(ratio(1, 1)).subdivisions, 500);
}

#[test]
fn search_exits_early_near_the_ends() {
    let error = default_euclidean_error_bound();
    assert_eq!(error, ratio(1, 1000));
    assert_eq!(start_euclidean_search(ratio(0, 1), error), SearchStep::Done(ratio(0, 1)));
    assert_eq!(start_euclidean_search(ratio(1, 2000), error), SearchStep::Done(ratio(0, 1)));
    assert_eq!(start_euclidean_search(ratio(1, 1), error), SearchStep::Done(ratio(1, 1)));
    assert_eq!(start_euclidean_search(ratio(1999, 2000), error), SearchStep::Done(ratio(1, 1)));
    let half = EuclideanSearch { low: 0, mid: SEARCH_DEN / 2, high: SEARCH_DEN };
    assert_eq!(start_euclidean_search(ratio(1, 1000), error), SearchStep::Measure(half));
    assert_eq!(start_euclidean_search(ratio(1, 2), error), SearchStep::Measure(half));
}

#[test]
fn step_narrows_the_bracket() {
    let half = EuclideanSearch { low: 0, mid: 16384, high: 32768 };
    assert_eq!(half.parameter(), ratio(16384, 32768));
    assert_eq!(
        half.step(Measure::Short),
        SearchStep::Measure(EuclideanSearch { low: 16384, mid: 24576, high: 32768 })
    );
    assert_eq!(
        half.step(Measure::Long),
        SearchStep::Measure(EuclideanSearch { low: 0, mid: 8192, high: 16384 })
    );
    assert_eq!(half.step(Measure::Within), SearchStep::Done(ratio(16384, 32768)));
    let tight = EuclideanSearch { low: 10, mid: 11, high: 12 };
    assert_eq!(tight.step(Measure::Short), SearchStep::Done(ratio(11, 32768)));
    assert_eq!(tight.step(Measure::Long), SearchStep::Done(ratio(11, 32768)));
}

#[test]
fn search_always_ends() {
    for always in [Measure::Short, Measure::Long] {
        let mut step = SearchStep::Measure(EuclideanSearch { low: 0, mid: 16384, high: 32768 });
        let mut rounds = 0;
        while let SearchStep::Measure(s) = step {
            step = s.step(always);
            rounds += 1;
        }
        assert_eq!(rounds, 15);
        let expected = if always == Measure::Short { 32767 } else { 1 };
        assert_eq!(step, SearchStep::Done(ratio(expected, 32768)));
    }
}
