//! Calibration tables: sensor reading to height, height to actuator command,
//! and height to the optimal transfer frequency.

use vstd::prelude::*;
use crate::arith::clamp;
use crate::constants::{HEIGHT_MAX_UM, HEIGHT_MIN_UM};
use crate::interp::{ascending, interpolate, ints, lemma_monotone_span, lemma_pwl_in_range, lemma_pwl_monotone, monotone, pwl, INTERP_BOUND};

verus! {

/// Height returned for a reading that no segment of a malformed table covers (µm).
pub const FALLBACK_HEIGHT_UM: i32 = 15_000;

/// Actuator command returned for a height that no segment of a malformed table covers (µV).
pub const FALLBACK_DAC_UV: i32 = 1_500_000;

/// Calibration point: a height with the sensor reading and actuator command
/// measured there.
#[derive(Debug, Clone, Copy, PartialEq, Eq, Structural)]
pub struct CalibrationPoint {
    /// Height above the base (µm).
    pub height_um: i32,
    /// Sensor reading at that height (raw ADC counts).
    pub adc_value: u16,
    /// Actuator command that holds that height (µV).
    pub dac_uv: i32,
}

/// Complete calibration data for height control: up to five points sorted by
/// height.
#[derive(Debug, Clone, Copy)]
pub struct CalibrationData {
    points: [CalibrationPoint; 5],
    num_points: usize,
    version: u32,
    serial: u32,
}

/// The points of the factory calibration.
pub open spec fn default_points() -> Seq<CalibrationPoint> {
    seq![
        CalibrationPoint { height_um: 5_000, adc_value: 3800, dac_uv: 2_500_000 },
        CalibrationPoint { height_um: 10_000, adc_value: 3200, dac_uv: 2_000_000 },
        CalibrationPoint { height_um: 15_000, adc_value: 2600, dac_uv: 1_500_000 },
        CalibrationPoint { height_um: 20_000, adc_value: 2000, dac_uv: 1_000_000 },
        CalibrationPoint { height_um: 25_000, adc_value: 1400, dac_uv: 500_000 },
    ]
}

/// The heights of a table's points (µm).
pub open spec fn heights_of(t: Seq<CalibrationPoint>) -> Seq<int> {
    t.map_values(|p: CalibrationPoint| p.height_um as int)
}

/// Sensor readings negated, so that a table whose readings fall with height
/// has ascending keys.
pub open spec fn neg_sensor_of(t: Seq<CalibrationPoint>) -> Seq<int> {
    t.map_values(|p: CalibrationPoint| -(p.adc_value as int))
}

/// The actuator commands of a table's points (µV).
pub open spec fn dacs_of(t: Seq<CalibrationPoint>) -> Seq<int> {
    t.map_values(|p: CalibrationPoint| p.dac_uv as int)
}

/// Actuator commands negated, so that falling commands give ascending keys.
pub open spec fn neg_dacs_of(t: Seq<CalibrationPoint>) -> Seq<int> {
    t.map_values(|p: CalibrationPoint| -(p.dac_uv as int))
}

/// Height for a sensor reading: interpolated, and clamped to the table's ends.
pub open spec fn height_from_sensor(t: Seq<CalibrationPoint>, adc: int) -> int {
    pwl(neg_sensor_of(t), heights_of(t), -adc, FALLBACK_HEIGHT_UM as int)
}

/// Actuator command for a height: interpolated, and clamped to the table's ends.
pub open spec fn actuator_from_height(t: Seq<CalibrationPoint>, h: int) -> int {
    pwl(heights_of(t), dacs_of(t), h, FALLBACK_DAC_UV as int)
}

/// Height for an actuator command, interpolated and clamped to the table's ends.
pub open spec fn height_from_actuator(t: Seq<CalibrationPoint>, v: int) -> int {
    pwl(neg_dacs_of(t), heights_of(t), -v, FALLBACK_HEIGHT_UM as int)
}

/// A table fit for use: at least three points, heights strictly ascending,
/// actuator commands strictly descending, and end points in the ranges that
/// manufacturing produces.
pub open spec fn valid_table(t: Seq<CalibrationPoint>) -> bool {
    &&& t.len() >= 3
    &&& ascending(heights_of(t))
    &&& ascending(neg_dacs_of(t))
    &&& 3_000 <= t[0].height_um <= 10_000
    &&& 20_000 <= t[t.len() - 1].height_um <= 30_000
    &&& t[0].dac_uv > 2_000_000
    &&& t[t.len() - 1].dac_uv < 1_000_000
}

impl CalibrationData {
    #[verifier::type_invariant]
    spec fn holds_at_most_five(&self) -> bool {
        self.num_points <= 5
    }

    /// The table's points in use, lowest height first.
    pub closed spec fn table(&self) -> Seq<CalibrationPoint> {
        self.points@.take(self.num_points as int)
    }

    /// The table holds between one and five points.
    pub closed spec fn wf(&self) -> bool {
        1 <= self.num_points <= 5
    }

    /// The calibration version.
    pub closed spec fn version_spec(&self) -> u32 {
        self.version
    }

    /// The unit serial number.
    pub closed spec fn serial_spec(&self) -> u32 {
        self.serial
    }

    /// Factory calibration, version 1, serial 0.
    pub fn new() -> (r: Self)
        ensures
            r.wf(),
            r.table() == default_points(),
            valid_table(r.table()),
            r.version_spec() == 1,
            r.serial_spec() == 0,
    {
        let r = CalibrationData {
            points: [
                CalibrationPoint { height_um: 5_000, adc_value: 3800, dac_uv: 2_500_000 },
                CalibrationPoint { height_um: 10_000, adc_value: 3200, dac_uv: 2_000_000 },
                CalibrationPoint { height_um: 15_000, adc_value: 2600, dac_uv: 1_500_000 },
                CalibrationPoint { height_um: 20_000, adc_value: 2000, dac_uv: 1_000_000 },
                CalibrationPoint { height_um: 25_000, adc_value: 1400, dac_uv: 500_000 },
            ],
            num_points: 5,
            version: 1,
            serial: 0,
        };
        assert(r.table() =~= default_points());
        proof {
            let t = default_points();
            assert(heights_of(t) =~= seq![5_000int, 10_000, 15_000, 20_000, 25_000]);
            assert(neg_dacs_of(t) =~= seq![-2_500_000int, -2_000_000, -1_500_000, -1_000_000, -500_000]);
        }
        r
    }

    /// A table of the first five (or fewer) of `points`; version 1, serial 0.
    pub fn from_points(points: &[CalibrationPoint]) -> (r: Self)
        ensures
            r.table() == points@.take(if points@.len() < 5 { points@.len() as int } else { 5 }),
            points@.len() >= 1 ==> r.wf(),
            r.version_spec() == 1,
            r.serial_spec() == 0,
    {
        let mut buf = Self::new().points;
        let n: usize = if points.len() < 5 { points.len() } else { 5 };
        let mut i: usize = 0;
        while i < n
            invariant
                n <= 5,
                n <= points@.len(),
                i <= n,
                forall|j: int| 0 <= j < i ==> buf@[j] == points@[j],
            decreases n - i,
        {
            buf[i] = points[i];
            i = i + 1;
        }
        let data = CalibrationData { points: buf, num_points: n, version: 1, serial: 0 };
        assert(data.table() =~= points@.take(n as int));
        data
    }

    /// Sets the calibration version.
    pub fn set_version(&mut self, version: u32)
        ensures
            final(self).table() == old(self).table(),
            final(self).wf() == old(self).wf(),
            final(self).version_spec() == version,
            final(self).serial_spec() == old(self).serial_spec(),
    {
        proof {
            use_type_invariant(&*self);
        }
        self.version = version;
    }

    /// Sets the unit serial number.
    pub fn set_serial(&mut self, serial: u32)
        ensures
            final(self).table() == old(self).table(),
            final(self).wf() == old(self).wf(),
            final(self).version_spec() == old(self).version_spec(),
            final(self).serial_spec() == serial,
    {
        proof {
            use_type_invariant(&*self);
        }
        self.serial = serial;
    }

    /// Calibration version.
    pub fn version(&self) -> (r: u32)
        ensures
            r == self.version_spec(),
    {
        self.version
    }

    /// Unit serial number.
    pub fn serial(&self) -> (r: u32)
        ensures
            r == self.serial_spec(),
    {
        self.serial
    }

    proof fn lemma_table(&self)
        requires
            self.wf(),
        ensures
            self.table().len() == self.num_points,
            forall|j: int| 0 <= j < self.num_points ==> self.table()[j] == #[trigger] self.points@[j],
    {
    }

    /// The four columns of the table, widened, negated where keys must ascend.
    fn columns(&self) -> (r: ([i64; 5], [i64; 5], [i64; 5], [i64; 5]))
        requires
            self.wf(),
        ensures
            ints(r.0@.take(self.num_points as int)) == neg_sensor_of(self.table()),
            ints(r.1@.take(self.num_points as int)) == heights_of(self.table()),
            ints(r.2@.take(self.num_points as int)) == dacs_of(self.table()),
            ints(r.3@.take(self.num_points as int)) == neg_dacs_of(self.table()),
            forall|j: int| 0 <= j < 5 ==> -INTERP_BOUND <= #[trigger] r.0@[j] <= INTERP_BOUND,
            forall|j: int| 0 <= j < 5 ==> -INTERP_BOUND <= #[trigger] r.1@[j] <= INTERP_BOUND,
            forall|j: int| 0 <= j < 5 ==> -INTERP_BOUND <= #[trigger] r.2@[j] <= INTERP_BOUND,
            forall|j: int| 0 <= j < 5 ==> -INTERP_BOUND <= #[trigger] r.3@[j] <= INTERP_BOUND,
    {
        let p = &self.points;
        let sensor: [i64; 5] = [
            -(p[0].adc_value as i64),
            -(p[1].adc_value as i64),
            -(p[2].adc_value as i64),
            -(p[3].adc_value as i64),
            -(p[4].adc_value as i64),
        ];
        let heights: [i64; 5] = [
            p[0].height_um as i64,
            p[1].height_um as i64,
            p[2].height_um as i64,
            p[3].height_um as i64,
            p[4].height_um as i64,
        ];
        let dacs: [i64; 5] = [
            p[0].dac_uv as i64,
            p[1].dac_uv as i64,
            p[2].dac_uv as i64,
            p[3].dac_uv as i64,
            p[4].dac_uv as i64,
        ];
        let neg_dacs: [i64; 5] = [
            -(p[0].dac_uv as i64),
            -(p[1].dac_uv as i64),
            -(p[2].dac_uv as i64),
            -(p[3].dac_uv as i64),
            -(p[4].dac_uv as i64),
        ];
        proof {
            self.lemma_table();
            let n = self.num_points as int;
            assert(ints(sensor@.take(n)) =~= neg_sensor_of(self.table()));
            assert(ints(heights@.take(n)) =~= heights_of(self.table()));
            assert(ints(dacs@.take(n)) =~= dacs_of(self.table()));
            assert(ints(neg_dacs@.take(n)) =~= neg_dacs_of(self.table()));
        }
        (sensor, heights, dacs, neg_dacs)
    }

    /// Converts a sensor reading to a height (µm) by piecewise-linear
    /// interpolation, clamped at the table's ends.
    pub fn adc_to_height(&self, adc_value: u16) -> (r: i32)
        requires
            self.wf(),
        ensures
            r == height_from_sensor(self.table(), adc_value as int),
    {
        let (sensor, heights, _, _) = self.columns();
        let h = interpolate(&sensor, &heights, self.num_points, -(adc_value as i64), FALLBACK_HEIGHT_UM as i64);
        proof {
            self.lemma_heights_in_i32();
            lemma_pwl_in_range(
                neg_sensor_of(self.table()),
                heights_of(self.table()),
                -(adc_value as int),
                FALLBACK_HEIGHT_UM as int,
                i32::MIN as int,
                i32::MAX as int,
            );
        }
        h as i32
    }

    /// Converts a height (µm) to an actuator command (µV) by piecewise-linear
    /// interpolation, clamped at the table's ends.
    pub fn height_to_dac(&self, height_um: i32) -> (r: i32)
        requires
            self.wf(),
        ensures
            r == actuator_from_height(self.table(), height_um as int),
    {
        let (_, heights, dacs, _) = self.columns();
        let v = interpolate(&heights, &dacs, self.num_points, height_um as i64, FALLBACK_DAC_UV as i64);
        proof {
            self.lemma_dacs_in_i32();
            lemma_pwl_in_range(
                heights_of(self.table()),
                dacs_of(self.table()),
                height_um as int,
                FALLBACK_DAC_UV as int,
                i32::MIN as int,
                i32::MAX as int,
            );
        }
        v as i32
    }

    /// Converts an actuator command (µV) back to a height (µm), for
    /// verification; clamped at the table's ends.
    pub fn dac_to_height(&self, voltage_uv: i32) -> (r: i32)
        requires
            self.wf(),
        ensures
            r == height_from_actuator(self.table(), voltage_uv as int),
    {
        let (_, heights, _, neg_dacs) = self.columns();
        let h = interpolate(&neg_dacs, &heights, self.num_points, -(voltage_uv as i64), FALLBACK_HEIGHT_UM as i64);
        proof {
            self.lemma_heights_in_i32();
            lemma_pwl_in_range(
                neg_dacs_of(self.table()),
                heights_of(self.table()),
                -(voltage_uv as int),
                FALLBACK_HEIGHT_UM as int,
                i32::MIN as int,
                i32::MAX as int,
            );
        }
        h as i32
    }

    proof fn lemma_heights_in_i32(&self)
        requires
            self.wf(),
        ensures
            forall|j: int|
                0 <= j < heights_of(self.table()).len() ==> i32::MIN <= #[trigger] heights_of(self.table())[j]
                    <= i32::MAX,
            heights_of(self.table()).len() == neg_sensor_of(self.table()).len(),
            heights_of(self.table()).len() == neg_dacs_of(self.table()).len(),
            heights_of(self.table()).len() >= 1,
    {
        self.lemma_table();
    }

    proof fn lemma_dacs_in_i32(&self)
        requires
            self.wf(),
        ensures
            forall|j: int|
                0 <= j < dacs_of(self.table()).len() ==> i32::MIN <= #[trigger] dacs_of(self.table())[j]
                    <= i32::MAX,
            dacs_of(self.table()).len() == heights_of(self.table()).len(),
            dacs_of(self.table()).len() >= 1,
    {
        self.lemma_table();
    }

    /// Validates the table: at least three points, heights strictly
    /// ascending, actuator commands strictly descending, and end points in
    /// plausible manufacturing ranges.
    pub fn is_valid(&self) -> (r: bool)
        ensures
            r == valid_table(self.table()),
            r ==> self.wf(),
    {
        let n = self.num_points;
        proof {
            use_type_invariant(self);
            assert(self.table().len() == n);
            assert(forall|j: int| 0 <= j < n ==> self.table()[j] == #[trigger] self.points@[j]);
        }
        if n < 3 {
            return false;
        }
        let ghost t = self.table();
        let mut i: usize = 1;
        while i < n
            invariant
                3 <= n <= 5,
                1 <= i <= n,
                t == self.table(),
                t.len() == n,
                forall|j: int| 0 <= j < n ==> t[j] == #[trigger] self.points@[j],
                forall|j: int| 0 <= j < i - 1 ==> #[trigger] heights_of(t)[j] < heights_of(t)[j + 1],
            decreases n - i,
        {
            if self.points[i].height_um <= self.points[i - 1].height_um {
                assert(!ascending(heights_of(t))) by {
                    assert(heights_of(t)[i - 1] >= heights_of(t)[(i - 1) + 1]);
                }
                return false;
            }
            i = i + 1;
        }
        let mut i: usize = 1;
        while i < n
            invariant
                3 <= n <= 5,
                1 <= i <= n,
                t == self.table(),
                t.len() == n,
                forall|j: int| 0 <= j < n ==> t[j] == #[trigger] self.points@[j],
                ascending(heights_of(t)),
                forall|j: int| 0 <= j < i - 1 ==> #[trigger] neg_dacs_of(t)[j] < neg_dacs_of(t)[j + 1],
            decreases n - i,
        {
            if self.points[i].dac_uv >= self.points[i - 1].dac_uv {
                assert(!ascending(neg_dacs_of(t))) by {
                    assert(neg_dacs_of(t)[i - 1] >= neg_dacs_of(t)[(i - 1) + 1]);
                }
                return false;
            }
            i = i + 1;
        }
        let first = self.points[0];
        let last = self.points[n - 1];
        first.height_um >= 3_000 && first.height_um <= 10_000 && last.height_um >= 20_000
            && last.height_um <= 30_000 && first.dac_uv > 2_000_000 && last.dac_uv < 1_000_000
    }
}

impl Default for CalibrationData {
    fn default() -> (r: Self)
        ensures
            r.wf(),
            r.table() == default_points(),
            r.version_spec() == 1,
            r.serial_spec() == 0,
    {
        Self::new()
    }
}

/// On a valid table, a higher sensor reading never gives a greater height,
/// and every reading gives a height between the table's first and last
/// heights: a reading at or beyond the first point's gives the first height,
/// one at or beyond the last point's gives the last height, never an
/// extrapolation.
pub proof fn lemma_height_from_sensor_monotone(t: Seq<CalibrationPoint>, a: int, b: int)
    requires
        valid_table(t),
        a <= b,
    ensures
        height_from_sensor(t, a) >= height_from_sensor(t, b),
        t[0].height_um <= height_from_sensor(t, a) <= t[t.len() - 1].height_um,
        a >= t[0].adc_value ==> height_from_sensor(t, a) == t[0].height_um,
        a <= t[t.len() - 1].adc_value && a < t[0].adc_value ==> height_from_sensor(t, a)
            == t[t.len() - 1].height_um,
{
    let ks = neg_sensor_of(t);
    let vs = heights_of(t);
    assert(monotone(vs, true));
    lemma_pwl_monotone(ks, vs, -b, -a, FALLBACK_HEIGHT_UM as int, true);
    lemma_pwl_monotone(ks, vs, -a, -a, FALLBACK_HEIGHT_UM as int, true);
}

/// On a valid table, a greater height never gives a greater actuator command,
/// and every height gives a command between the table's first and last
/// commands: heights at or beyond the table's ends give the end commands,
/// never an extrapolation.
pub proof fn lemma_actuator_from_height_monotone(t: Seq<CalibrationPoint>, h: int, g: int)
    requires
        valid_table(t),
        h <= g,
    ensures
        actuator_from_height(t, h) >= actuator_from_height(t, g),
        t[t.len() - 1].dac_uv <= actuator_from_height(t, h) <= t[0].dac_uv,
        h <= t[0].height_um ==> actuator_from_height(t, h) == t[0].dac_uv,
        h >= t[t.len() - 1].height_um ==> actuator_from_height(t, h) == t[t.len() - 1].dac_uv,
{
    let ks = heights_of(t);
    let vs = dacs_of(t);
    assert(monotone(vs, false)) by {
        assert forall|i: int| 0 <= i < vs.len() - 1 implies #[trigger] vs[i] >= vs[i + 1] by {
            assert(neg_dacs_of(t)[i] < neg_dacs_of(t)[i + 1]);
        }
    }
    assert(monotone(ks, true));
    assert(ks[0] < ks[1]);
    lemma_monotone_span(ks, true, 1, ks.len() - 1);
    lemma_pwl_monotone(ks, vs, h, g, FALLBACK_DAC_UV as int, false);
    lemma_pwl_monotone(ks, vs, h, h, FALLBACK_DAC_UV as int, false);
}

/// Transfer-frequency calibration: four (height µm, frequency Hz) points.
#[derive(Debug, Clone, Copy)]
pub struct WptCalibrationData {
    points: [(i32, i32); 4],
}

/// The factory transfer-frequency table.
pub open spec fn default_wpt_points() -> Seq<(i32, i32)> {
    seq![(5_000i32, 132_000i32), (10_000i32, 136_000i32), (15_000i32, 138_000i32), (20_000i32, 141_000i32)]
}

/// Optimal transfer frequency for a height: the height is held to the
/// commanded range, then interpolated and clamped to the table's ends.
pub open spec fn frequency_for_height(t: Seq<(i32, i32)>, h: int) -> int {
    pwl(
        t.map_values(|p: (i32, i32)| p.0 as int),
        t.map_values(|p: (i32, i32)| p.1 as int),
        clamp(h, HEIGHT_MIN_UM as int, HEIGHT_MAX_UM as int),
        t[t.len() - 1].1 as int,
    )
}

impl WptCalibrationData {
    /// The table's points, lowest height first.
    pub closed spec fn table(&self) -> Seq<(i32, i32)> {
        self.points@
    }

    /// The factory transfer-frequency table.
    pub fn new() -> (r: Self)
        ensures
            r.table() == default_wpt_points(),
    {
        let r = WptCalibrationData {
            points: [(5_000, 132_000), (10_000, 136_000), (15_000, 138_000), (20_000, 141_000)],
        };
        assert(r.table() =~= default_wpt_points());
        r
    }

    /// Optimal transfer frequency (Hz) for a height (µm).
    pub fn optimal_frequency(&self, height_um: i32) -> (r: i32)
        ensures
            r == frequency_for_height(self.table(), height_um as int),
    {
        let height: i32 = if height_um < HEIGHT_MIN_UM {
            HEIGHT_MIN_UM
        } else if height_um > HEIGHT_MAX_UM {
            HEIGHT_MAX_UM
        } else {
            height_um
        };
        let p = &self.points;
        let hs: [i64; 5] = [p[0].0 as i64, p[1].0 as i64, p[2].0 as i64, p[3].0 as i64, 0];
        let fs: [i64; 5] = [p[0].1 as i64, p[1].1 as i64, p[2].1 as i64, p[3].1 as i64, 0];
        let f = interpolate(&hs, &fs, 4, height as i64, p[3].1 as i64);
        proof {
            let t = self.table();
            let ks = t.map_values(|q: (i32, i32)| q.0 as int);
            let vs = t.map_values(|q: (i32, i32)| q.1 as int);
            assert(ints(hs@.take(4)) =~= ks);
            assert(ints(fs@.take(4)) =~= vs);
            lemma_pwl_in_range(ks, vs, height as int, t[3].1 as int, i32::MIN as int, i32::MAX as int);
        }
        f as i32
    }
}

impl Default for WptCalibrationData {
    fn default() -> (r: Self)
        ensures
            r.table() == default_wpt_points(),
    {
        Self::new()
    }
}

} // verus!
