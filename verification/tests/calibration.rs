use logbot::calibration::{
    average_cluster_sizes, calibrate_both, distinct, kmeans, kmeans_seeded, nearest_centroid,
    CalibrationError, SensorCalibration, SingleSensorCalibration, Sweep,
};
use logbot::SCALE;

/// The fixed-point count that stands for a decimal number.
fn fixed(value: f64) -> i64 {
    (value * SCALE as f64).round() as i64
}

/// A small generator of numbers that look random, so that the samples are
/// the same in every run.
struct Dice(u64);

impl Dice {
    fn roll(&mut self) -> u64 {
        self.0 = self
            .0
            .wrapping_mul(6364136223846793005)
            .wrapping_add(1442695040888963407);
        self.0 >> 33
    }

    /// A value near `centre`, at most `spread` away from it.
    fn near(&mut self, centre: f64, spread: f64) -> i64 {
        let unit = (self.roll() % 2001) as f64 / 1000.0 - 1.0;
        fixed(centre + unit * spread)
    }
}

/// Twenty values near 20 and twenty near 200, interleaved.
fn bimodal(dice: &mut Dice) -> Vec<i64> {
    let mut values = Vec::new();
    for _ in 0..20 {
        values.push(dice.near(20.0, 5.0));
        values.push(dice.near(200.0, 5.0));
    }
    values
}

#[test]
fn cluster_means_give_line_and_floor() {
    let calibration = SensorCalibration::from_means(fixed(25.0), fixed(195.0));
    assert_eq!(calibration, SensorCalibration::new(195, 25));
    assert_eq!(calibration.average(), fixed(110.0));

    let swapped = SensorCalibration::from_means(fixed(195.0), fixed(25.0));
    assert_eq!(swapped, SensorCalibration::new(195, 25));
}

#[test]
fn means_are_cut_down_not_rounded() {
    let calibration = SensorCalibration::from_means(fixed(25.999999), fixed(195.5));
    assert_eq!(calibration, SensorCalibration::new(195, 25));
}

#[test]
fn means_outside_the_raw_range_stop_at_its_ends() {
    let calibration = SensorCalibration::from_means(fixed(-3.5), fixed(300.0));
    assert_eq!(calibration, SensorCalibration::new(255, 0));
    let extreme = SensorCalibration::from_means(i64::MIN, i64::MAX);
    assert_eq!(extreme, SensorCalibration::new(255, 0));
}

#[test]
fn average_is_the_midpoint() {
    assert_eq!(SensorCalibration::new(195, 25).average(), 110_000_000);
    assert_eq!(SensorCalibration::new(200, 25).average(), 112_500_000);
    assert_eq!(SensorCalibration::new(0, 0).average(), 0);
    assert_eq!(SensorCalibration::new(255, 255).average(), 255_000_000);
}

#[test]
fn nearest_centroid_prefers_the_first_of_equals() {
    let centroids = vec![10, 20, 30];
    assert_eq!(nearest_centroid(&centroids, 11), 0);
    assert_eq!(nearest_centroid(&centroids, 15), 0);
    assert_eq!(nearest_centroid(&centroids, 16), 1);
    assert_eq!(nearest_centroid(&centroids, 25), 1);
    assert_eq!(nearest_centroid(&centroids, 1000), 2);
    assert_eq!(nearest_centroid(&centroids, i64::MIN), 0);
    assert_eq!(nearest_centroid(&vec![i64::MAX, i64::MIN], 0), 0);
    assert_eq!(nearest_centroid(&vec![], 5), 0);
}

#[test]
fn seeded_kmeans_separates_two_modes() {
    let values = vec![20, 200, 21, 199, 19, 201];
    let assignments = kmeans_seeded(&values, &vec![20, 200], 100);
    assert_eq!(assignments, vec![0, 1, 0, 1, 0, 1]);
    let flipped = kmeans_seeded(&values, &vec![200, 20], 100);
    assert_eq!(flipped, vec![1, 0, 1, 0, 1, 0]);
}

#[test]
fn seeded_kmeans_recovers_from_seeds_in_one_mode() {
    let values = vec![19, 21, 199, 201];
    // Both seeds lie in the lower mode: the first round splits it, and the
    // second centroid is pulled up by the upper mode.
    let assignments = kmeans_seeded(&values, &vec![19, 21], 100);
    assert_eq!(assignments, vec![0, 0, 1, 1]);
}

#[test]
fn kmeans_without_rounds_leaves_everything_in_the_first_cluster() {
    let values = vec![20, 200, 21, 199];
    assert_eq!(kmeans_seeded(&values, &vec![20, 200], 0), vec![0, 0, 0, 0]);
}

#[test]
fn kmeans_returns_the_assignment_of_the_last_round() {
    let values = vec![0, 10, 11, 100];
    // Round one, from the seeds 0 and 10: clusters {0} and {10, 11, 100}.
    assert_eq!(kmeans_seeded(&values, &vec![0, 10], 1), vec![0, 1, 1, 1]);
    // The centroids move to 0 and 40; round two: {0, 10, 11} and {100}.
    assert_eq!(kmeans_seeded(&values, &vec![0, 10], 2), vec![0, 0, 0, 1]);
}

#[test]
fn an_empty_cluster_keeps_its_centroid() {
    let values = vec![10, 12];
    // The second seed is far from every value and never gets one; it stays
    // at 1000, so the assignment does not change over the rounds.
    assert_eq!(kmeans_seeded(&values, &vec![11, 1000], 5), vec![0, 0]);
}

#[test]
fn kmeans_without_seeds_assigns_the_first_cluster() {
    assert_eq!(kmeans_seeded(&[5, 6, 7], &vec![], 3), vec![0, 0, 0]);
    assert_eq!(kmeans_seeded(&[], &vec![1, 2], 3), Vec::<usize>::new());
}

#[test]
fn distinct_keeps_the_first_of_each_value() {
    assert_eq!(distinct(&[3, 1, 3, 2, 1, 3]), vec![3, 1, 2]);
    assert_eq!(distinct(&[]), Vec::<i64>::new());
    assert_eq!(distinct(&[7, 7, 7]), vec![7]);
}

#[test]
fn kmeans_fails_with_fewer_distinct_values_than_clusters() {
    assert_eq!(
        kmeans(&[5, 5, 5, 5], 2, 100),
        Err(CalibrationError::TooFewDistinct)
    );
    assert_eq!(kmeans(&[], 1, 100), Err(CalibrationError::TooFewDistinct));
    assert_eq!(
        kmeans(&[1, 2, 1, 2], 3, 100),
        Err(CalibrationError::TooFewDistinct)
    );
}

#[test]
fn kmeans_with_one_cluster_puts_everything_in_it() {
    // One seed is drawn for one cluster, however many values there are.
    assert_eq!(kmeans(&[5, 9, 5, 9, 7], 1, 10), Ok(vec![0, 0, 0, 0, 0]));
}

#[test]
fn kmeans_with_as_many_clusters_as_distinct_values_tells_them_apart() {
    for _ in 0..50 {
        let assignments = kmeans(&[5, 900, 5, 900], 2, 10).unwrap();
        assert_eq!(assignments.len(), 4);
        assert!(assignments.iter().all(|&cluster| cluster < 2));
        assert_eq!(assignments[0], assignments[2]);
        assert_eq!(assignments[1], assignments[3]);
        assert_ne!(assignments[0], assignments[1]);
    }
}

#[test]
fn kmeans_separates_a_bimodal_sample_in_nearly_every_trial() {
    let mut dice = Dice(7);
    let mut separated = 0;
    let trials = 200;
    for _ in 0..trials {
        let values = bimodal(&mut dice);
        let assignments = kmeans(&values, 2, 100).unwrap();
        let low = assignments[0];
        let high = assignments[1];
        let split = low != high
            && values
                .iter()
                .zip(assignments.iter())
                .all(|(&value, &cluster)| cluster == if value < fixed(100.0) { low } else { high });
        if split {
            separated += 1;
        }
    }
    assert!(separated * 100 >= trials * 95);
}

#[test]
fn one_seed_in_each_mode_tells_the_modes_apart_in_every_round() {
    let mut dice = Dice(11);
    for _ in 0..50 {
        let values = bimodal(&mut dice);
        let low_seed = values[0];
        let high_seed = values[1];
        let expected: Vec<usize> = values
            .iter()
            .map(|&value| if value <= fixed(25.0) { 0 } else { 1 })
            .collect();
        let swapped: Vec<usize> = expected.iter().map(|&cluster| 1 - cluster).collect();
        for rounds in [1, 2, 3, 100] {
            assert_eq!(
                kmeans_seeded(&values, &vec![low_seed, high_seed], rounds),
                expected
            );
            assert_eq!(
                kmeans_seeded(&values, &vec![high_seed, low_seed], rounds),
                swapped
            );
        }
        let mut log = SingleSensorCalibration::new();
        for &value in &values {
            log.log(value);
        }
        for (first, second) in [(low_seed, high_seed), (high_seed, low_seed)] {
            let calibration = log.calibrate_seeded(first, second);
            assert!((15..=25).contains(&calibration.floor));
            assert!((195..=205).contains(&calibration.line));
        }
    }
}

#[test]
fn average_cluster_sizes_gives_the_mean_of_each_cluster() {
    let values = [10, 20, 31, 100, -7];
    let assignments = [0, 0, 0, 1, 2];
    assert_eq!(
        average_cluster_sizes(&values, &assignments, 4),
        vec![20, 100, -7, 0]
    );
    // Rounded toward zero on both sides of it.
    assert_eq!(average_cluster_sizes(&[1, 2], &[0, 0], 1), vec![1]);
    assert_eq!(average_cluster_sizes(&[-1, -2], &[0, 0], 1), vec![-1]);
    // Only as many values as there are assignments count.
    assert_eq!(average_cluster_sizes(&[4, 8, 1000], &[0, 0], 1), vec![6]);
    assert_eq!(average_cluster_sizes(&[], &[], 2), vec![0, 0]);
}

#[test]
fn average_cluster_sizes_holds_extreme_values() {
    let values = [i64::MAX, i64::MAX, i64::MIN, i64::MIN];
    let assignments = [0, 0, 1, 1];
    assert_eq!(
        average_cluster_sizes(&values, &assignments, 2),
        vec![i64::MAX, i64::MIN]
    );
}

#[test]
fn a_log_calibrates_to_the_means_of_its_two_modes() {
    let mut log = SingleSensorCalibration::new();
    for _ in 0..10 {
        log.log(fixed(24.0));
        log.log(fixed(26.0));
        log.log(fixed(194.0));
        log.log(fixed(197.0));
    }
    assert_eq!(log.len(), 40);
    assert_eq!(
        log.calibrate_seeded(fixed(24.0), fixed(197.0)),
        SensorCalibration::new(195, 25)
    );
    assert_eq!(
        log.calibrate_seeded(fixed(197.0), fixed(24.0)),
        SensorCalibration::new(195, 25)
    );
    let calibration = log.calibrate().unwrap();
    assert_eq!(calibration, SensorCalibration::new(195, 25));
    assert_eq!(calibration.average(), fixed(110.0));
}

#[test]
fn a_constant_log_does_not_calibrate() {
    let mut log = SingleSensorCalibration::default();
    assert_eq!(log.calibrate_seeded(1, 2), SensorCalibration::new(0, 0));
    for _ in 0..30 {
        log.log(fixed(80.0));
    }
    assert_eq!(log.calibrate(), Err(CalibrationError::TooFewDistinct));
    assert_eq!(
        SingleSensorCalibration::new().calibrate(),
        Err(CalibrationError::TooFewDistinct)
    );
}

#[test]
fn both_sensors_are_calibrated_each_from_its_own_log() {
    let mut left = SingleSensorCalibration::new();
    let mut right = SingleSensorCalibration::new();
    for _ in 0..5 {
        left.log(fixed(20.0));
        left.log(fixed(200.0));
        right.log(fixed(90.0));
    }
    assert_eq!(
        calibrate_both(left, right),
        Sweep { left: Some(SensorCalibration::new(200, 20)), right: None }
    );
}
