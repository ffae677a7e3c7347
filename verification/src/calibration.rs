//! Calibration of a reflectance sensor from logged readings.

use vstd::prelude::*;
use crate::fixed::{clamp, quotient, trunc_div, SCALE};

pub mod kmeans;

pub use kmeans::{
    average_cluster_sizes, cluster_count, cluster_mean, clustering, distinct, kmeans,
    kmeans_seeded, nearest_centroid, one_in_each, seeds_of, split, two_modes, unique,
    CalibrationError,
};
use kmeans::{cluster_mean_within, kmeans_tells_modes_apart, lower};

verus! {

/// The number of clusters a calibration looks for: the line and the floor.
pub const CLUSTERS: usize = 2;

/// The number of rounds of k-means a calibration runs.
pub const ROUNDS: usize = 100;

/// The raw sensor levels of the line and of the floor.
#[derive(Debug, Clone, Copy, PartialEq, Eq, Structural)]
pub struct SensorCalibration {
    /// Raw level read over the line.
    pub line: u8,
    /// Raw level read over the floor.
    pub floor: u8,
}

/// The raw level that a fixed-point reading stands for: its whole part,
/// limited to the range of a raw reading.
pub open spec fn level(reading: int) -> int {
    clamp(trunc_div(reading, SCALE as int), 0, 255)
}

impl SensorCalibration {
    /// The fixed-point midpoint between line and floor.
    pub open spec fn midpoint(self) -> int {
        (self.line + self.floor) * (SCALE / 2)
    }

    /// The calibration that two cluster means give: the greater mean is the
    /// line, the lesser the floor, each cut down to its whole part.
    pub open spec fn of_means(first: int, second: int) -> SensorCalibration {
        if first >= second {
            SensorCalibration { line: level(first) as u8, floor: level(second) as u8 }
        } else {
            SensorCalibration { line: level(second) as u8, floor: level(first) as u8 }
        }
    }

    /// The calibration that clustering `data` from `seeds` gives.
    pub open spec fn of_clustering(data: Seq<i64>, seeds: Seq<i64>) -> SensorCalibration {
        let assignments = clustering(data, seeds, ROUNDS as nat);
        SensorCalibration::of_means(
            cluster_mean(data, assignments, 0),
            cluster_mean(data, assignments, 1),
        )
    }

    /// Puts the two levels together.
    pub fn new(line: u8, floor: u8) -> (c: SensorCalibration)
        ensures
            c.line == line,
            c.floor == floor,
    {
        SensorCalibration { line, floor }
    }

    /// The fixed-point midpoint between line and floor, which a line
    /// follower steers toward.
    pub fn average(&self) -> (a: i64)
        ensures
            a == self.midpoint(),
            2 * a == (self.line + self.floor) * SCALE,
            0 <= a <= 255 * SCALE,
    {
        (self.line as i64 + self.floor as i64) * (SCALE / 2)
    }

    /// Derives the calibration from the fixed-point means of the two
    /// clusters.
    pub fn from_means(first: i64, second: i64) -> (c: SensorCalibration)
        ensures
            c == SensorCalibration::of_means(first as int, second as int),
            c.line >= c.floor,
    {
        let a = raw_level(first);
        let b = raw_level(second);
        proof {
            if first >= second {
                level_is_monotonic(second as int, first as int);
            } else {
                level_is_monotonic(first as int, second as int);
            }
        }
        if first >= second {
            SensorCalibration { line: a, floor: b }
        } else {
            SensorCalibration { line: b, floor: a }
        }
    }
}

/// Whether `result` is what calibrating from `log` may give: nothing where
/// the log holds fewer than two distinct readings, and else the calibration
/// that clustering gives from two distinct readings of the log.
pub open spec fn calibrated_from(log: Seq<i64>, result: Option<SensorCalibration>) -> bool {
    match result {
        None => log.to_set().len() < CLUSTERS,
        Some(c) => log.to_set().len() >= CLUSTERS && exists|seeds: Seq<i64>|
            seeds_of(log, seeds, CLUSTERS as int) && c
                == #[trigger] SensorCalibration::of_clustering(log, seeds),
    }
}

/// What a sweep over the line gives: a calibration for each of the two
/// sensors, or none for a sensor whose log does not calibrate.
#[derive(Debug, Clone, Copy, PartialEq, Eq, Structural)]
pub struct Sweep {
    /// Calibration of the left sensor, where there is one.
    pub left: Option<SensorCalibration>,
    /// Calibration of the right sensor, where there is one.
    pub right: Option<SensorCalibration>,
}

impl Sweep {
    /// Whether the sweep is what calibrating from the two logs may give.
    pub open spec fn from_logs(self, left: Seq<i64>, right: Seq<i64>) -> bool {
        calibrated_from(left, self.left) && calibrated_from(right, self.right)
    }
}

/// A log with two modes calibrates to its modes: where every reading lies in
/// one of two ranges that are narrower than the gap between them, both ranges
/// hold readings, and the clustering begins with one seed in each, in either
/// order, the floor of the calibration is a level of the lower range and its
/// line a level of the upper one.
pub proof fn calibration_finds_modes(
    data: Seq<i64>,
    seeds: Seq<i64>,
    floor: int,
    low: int,
    high: int,
    ceiling: int,
    swapped: bool,
)
    requires
        two_modes(data, floor, low, high, ceiling),
        one_in_each(seeds, floor, low, high, ceiling, swapped),
        cluster_count(split(data, low, swapped), 0, data.len() as int) > 0,
        cluster_count(split(data, low, swapped), 1, data.len() as int) > 0,
    ensures
        level(floor) <= SensorCalibration::of_clustering(data, seeds).floor <= level(low),
        level(high) <= SensorCalibration::of_clustering(data, seeds).line <= level(ceiling),
{
    kmeans_tells_modes_apart(data, seeds, ROUNDS as nat, floor, low, high, ceiling, swapped);
    let assignments = split(data, low, swapped);
    cluster_mean_within(data, assignments, lower(swapped), floor, low);
    cluster_mean_within(data, assignments, lower(!swapped), high, ceiling);
    let below = cluster_mean(data, assignments, lower(swapped));
    let above = cluster_mean(data, assignments, lower(!swapped));
    level_is_monotonic(floor, below);
    level_is_monotonic(below, low);
    level_is_monotonic(high, above);
    level_is_monotonic(above, ceiling);
}

/// The line of a calibration is never below its floor.
pub proof fn line_above_floor(first: int, second: int)
    ensures
        SensorCalibration::of_means(first, second).line >= SensorCalibration::of_means(
            first,
            second,
        ).floor,
{
    if first >= second {
        level_is_monotonic(second, first);
    } else {
        level_is_monotonic(first, second);
    }
}

/// A greater reading has no lesser level.
pub proof fn level_is_monotonic(low: int, high: int)
    requires
        low <= high,
    ensures
        level(low) <= level(high),
{
    let s = SCALE as int;
    if low >= 0 {
        assert(low / s <= high / s) by (nonlinear_arith)
            requires
                0 <= low <= high,
                s > 0,
        ;
    } else if high < 0 {
        assert((-high) / s <= (-low) / s) by (nonlinear_arith)
            requires
                0 <= -high <= -low,
                s > 0,
        ;
    } else {
        assert(0 <= (-low) / s) by (nonlinear_arith)
            requires
                0 <= -low,
                s > 0,
        ;
        assert(0 <= high / s) by (nonlinear_arith)
            requires
                0 <= high,
                s > 0,
        ;
    }
}

/// The raw level of a fixed-point reading.
fn raw_level(reading: i64) -> (l: u8)
    ensures
        l == level(reading as int),
{
    let whole = quotient(reading as i128, SCALE as i128);
    if whole < 0 {
        0
    } else if whole > 255 {
        255
    } else {
        whole as u8
    }
}

/// A log of fixed-point readings of one sensor, from which the sensor is
/// calibrated.
#[derive(Debug)]
pub struct SingleSensorCalibration {
    data: Vec<i64>,
}

impl View for SingleSensorCalibration {
    type V = Seq<i64>;

    closed spec fn view(&self) -> Seq<i64> {
        self.data@
    }
}

impl Default for SingleSensorCalibration {
    fn default() -> (log: SingleSensorCalibration)
        ensures
            log@ == Seq::<i64>::empty(),
    {
        SingleSensorCalibration { data: Vec::new() }
    }
}

/// Calibrates both sensors from their logs. A sensor whose log holds fewer
/// than two distinct readings is left without calibration.
pub fn calibrate_both(left: SingleSensorCalibration, right: SingleSensorCalibration) -> (sweep:
    Sweep)
    ensures
        sweep.from_logs(left@, right@),
{
    let left = match left.calibrate() {
        Ok(calibration) => Some(calibration),
        Err(_) => None,
    };
    let right = match right.calibrate() {
        Ok(calibration) => Some(calibration),
        Err(_) => None,
    };
    Sweep { left, right }
}

impl SingleSensorCalibration {
    /// An empty log.
    pub fn new() -> (log: SingleSensorCalibration)
        ensures
            log@ == Seq::<i64>::empty(),
    {
        SingleSensorCalibration { data: Vec::new() }
    }

    /// Appends a reading to the log.
    pub fn log(&mut self, value: i64)
        ensures
            final(self)@ == old(self)@.push(value),
    {
        self.data.push(value);
    }

    /// The number of readings logged.
    pub fn len(&self) -> (n: usize)
        ensures
            n == self@.len(),
    {
        self.data.len()
    }

    /// Calibrates from the log with the two given readings as the first
    /// centroids.
    pub fn calibrate_seeded(&self, first: i64, second: i64) -> (c: SensorCalibration)
        ensures
            c == SensorCalibration::of_clustering(self@, seq![first, second]),
            c.line >= c.floor,
    {
        let mut seeds: Vec<i64> = Vec::new();
        seeds.push(first);
        seeds.push(second);
        assert(seeds@ =~= seq![first, second]);
        let assignments = kmeans_seeded(self.data.as_slice(), &seeds, ROUNDS);
        let means = average_cluster_sizes(self.data.as_slice(), assignments.as_slice(), CLUSTERS);
        SensorCalibration::from_means(means[0], means[1])
    }

    /// Calibrates from the log: clusters the readings into two groups, begun
    /// from two distinct readings drawn at random, and takes the mean of the
    /// upper group as the line and that of the lower as the floor.
    ///
    /// Fails where the log holds fewer than two distinct readings.
    pub fn calibrate(self) -> (r: Result<SensorCalibration, CalibrationError>)
        ensures
            r is Err <==> self@.to_set().len() < CLUSTERS,
            r is Err ==> r == Err::<SensorCalibration, CalibrationError>(
                CalibrationError::TooFewDistinct,
            ),
            r is Ok ==> exists|seeds: Seq<i64>|
                seeds_of(self@, seeds, CLUSTERS as int) && r->Ok_0
                    == #[trigger] SensorCalibration::of_clustering(self@, seeds),
            r is Ok ==> r->Ok_0.line >= r->Ok_0.floor,
            calibrated_from(
                self@,
                match r {
                    Ok(c) => Some(c),
                    Err(_) => None,
                },
            ),
    {
        match kmeans(self.data.as_slice(), CLUSTERS, ROUNDS) {
            Err(e) => Err(e),
            Ok(assignments) => {
                let means = average_cluster_sizes(
                    self.data.as_slice(),
                    assignments.as_slice(),
                    CLUSTERS,
                );
                let c = SensorCalibration::from_means(means[0], means[1]);
                proof {
                    let seeds = choose|seeds: Seq<i64>|
                        seeds_of(self@, seeds, CLUSTERS as int) && assignments@
                            == #[trigger] clustering(self@, seeds, ROUNDS as nat);
                    assert(c == SensorCalibration::of_clustering(self@, seeds));
                }
                Ok(c)
            },
        }
    }
}

} // verus!
