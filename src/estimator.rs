//! Calibration and the phases of the orientation estimator, in the sensor's
//! raw units (LSB). Converting to physical units and running the attitude
//! filter happen outside, in floating point.

use vstd::prelude::*;

verus! {

/// The value of a big-endian two's-complement 16-bit word.
pub open spec fn be_i16(hi: u8, lo: u8) -> int {
    let w = hi as int * 256 + lo as int;
    if w >= 32768 { w - 65536 } else { w }
}

/// One three-axis reading in raw sensor units.
#[derive(Clone, Copy, PartialEq, Eq, Structural, Debug)]
pub struct RawVector {
    pub x: i16,
    pub y: i16,
    pub z: i16,
}

/// Reads the three big-endian words that the sensor returns for one vector.
pub fn decode_vector(b: &[u8]) -> (r: RawVector)
    requires
        b@.len() >= 6,
    ensures
        r.x == be_i16(b@[0], b@[1]),
        r.y == be_i16(b@[2], b@[3]),
        r.z == be_i16(b@[4], b@[5]),
{
    RawVector { x: decode_word(b[0], b[1]), y: decode_word(b[2], b[3]), z: decode_word(b[4], b[5]) }
}

fn decode_word(hi: u8, lo: u8) -> (r: i16)
    ensures
        r == be_i16(hi, lo),
{
    let w: i32 = hi as i32 * 256 + lo as i32;
    if w >= 32768 {
        (w - 65536) as i16
    } else {
        w as i16
    }
}

/// One accelerometer and gyroscope reading.
#[derive(Clone, Copy, PartialEq, Eq, Structural, Debug)]
pub struct Sample {
    pub accel: RawVector,
    pub gyro: RawVector,
}

/// The per-axis sums of a sequence of vectors.
pub open spec fn vector_total(vs: Seq<RawVector>) -> (int, int, int)
    decreases vs.len(),
{
    if vs.len() == 0 {
        (0, 0, 0)
    } else {
        let (x, y, z) = vector_total(vs.drop_last());
        (x + vs.last().x, y + vs.last().y, z + vs.last().z)
    }
}

pub open spec fn accels(samples: Seq<Sample>) -> Seq<RawVector> {
    samples.map_values(|s: Sample| s.accel)
}

pub open spec fn gyros(samples: Seq<Sample>) -> Seq<RawVector> {
    samples.map_values(|s: Sample| s.gyro)
}

/// Per-axis sums of 64-bit width.
#[derive(Clone, Copy, PartialEq, Eq, Structural, Debug)]
pub struct VectorSum {
    pub x: i64,
    pub y: i64,
    pub z: i64,
}

impl VectorSum {
    pub open spec fn view3(&self) -> (int, int, int) {
        (self.x as int, self.y as int, self.z as int)
    }
}

/// The sensor biases as exact means: the bias of an axis is its numerator
/// divided by `count`. The accelerometer's vertical axis has one gravity
/// taken off, as the sensor lies level during calibration.
#[derive(Clone, Copy, PartialEq, Eq, Structural, Debug)]
pub struct CalibrationOffsets {
    pub accel: VectorSum,
    pub gyro: VectorSum,
    pub count: u32,
}

/// A reading with the biases removed, scaled by the number of calibration
/// samples so that no precision is lost: an axis reads `value / scale` LSB.
#[derive(Clone, Copy, PartialEq, Eq, Structural, Debug)]
pub struct CorrectedSample {
    pub accel: VectorSum,
    pub gyro: VectorSum,
    pub scale: u32,
}

/// The offsets that `n` samples give, with `gravity` LSB to one g.
pub open spec fn offsets_of(samples: Seq<Sample>, gravity: int) -> (int, int, int, int, int, int) {
    let (ax, ay, az) = vector_total(accels(samples));
    let (gx, gy, gz) = vector_total(gyros(samples));
    (ax, ay, az - samples.len() * gravity, gx, gy, gz)
}

pub open spec fn offsets_view(o: CalibrationOffsets) -> (int, int, int, int, int, int) {
    (o.accel.x as int, o.accel.y as int, o.accel.z as int, o.gyro.x as int, o.gyro.y as int, o.gyro.z as int)
}

/// `v` scaled by `n` with the bias numerators `b` taken off.
pub open spec fn corrected_axis(v: int, n: int, b: int) -> int {
    v * n - b
}

proof fn lemma_total_bounds(vs: Seq<RawVector>)
    ensures
        ({
            let (x, y, z) = vector_total(vs);
            &&& -32768 * vs.len() <= x <= 32767 * vs.len()
            &&& -32768 * vs.len() <= y <= 32767 * vs.len()
            &&& -32768 * vs.len() <= z <= 32767 * vs.len()
        }),
    decreases vs.len(),
{
    if vs.len() > 0 {
        lemma_total_bounds(vs.drop_last());
    }
}

/// Collects calibration samples until the planned number is reached.
pub struct Calibration {
    accel: VectorSum,
    gyro: VectorSum,
    count: u32,
    planned: u32,
    seen: Ghost<Seq<Sample>>,
}

impl Calibration {
    /// The samples taken so far.
    pub closed spec fn samples(&self) -> Seq<Sample> {
        self.seen@
    }

    pub closed spec fn planned(&self) -> nat {
        self.planned as nat
    }

    pub closed spec fn wf(&self) -> bool {
        &&& self.count as nat == self.seen@.len()
        &&& self.count <= self.planned
        &&& self.accel.view3() == vector_total(accels(self.seen@))
        &&& self.gyro.view3() == vector_total(gyros(self.seen@))
    }

    /// A calibration that will average `planned` samples.
    pub fn new(planned: u32) -> (r: Self)
        requires
            planned >= 1,
        ensures
            r.wf(),
            r.samples() == Seq::<Sample>::empty(),
            r.planned() == planned,
    {
        let zero = VectorSum { x: 0, y: 0, z: 0 };
        Calibration { accel: zero, gyro: zero, count: 0, planned, seen: Ghost(Seq::empty()) }
    }

    pub fn is_complete(&self) -> (r: bool)
        requires
            self.wf(),
        ensures
            r == (self.samples().len() == self.planned()),
    {
        self.count == self.planned
    }

    /// Adds one sample to the sums.
    pub fn add(&mut self, s: Sample)
        requires
            old(self).wf(),
            old(self).samples().len() < old(self).planned(),
        ensures
            final(self).wf(),
            final(self).planned() == old(self).planned(),
            final(self).samples() == old(self).samples().push(s),
    {
        let ghost prev = self.seen@;
        proof {
            lemma_total_bounds(accels(prev));
            lemma_total_bounds(gyros(prev));
            assert(accels(prev.push(s)).drop_last() =~= accels(prev));
            assert(gyros(prev.push(s)).drop_last() =~= gyros(prev));
        }
        assert(self.count < u32::MAX);
        assert(-32768 * (self.count as int) >= -32768 * 4294967295int) by (nonlinear_arith)
            requires self.count <= 4294967295int;
        assert(32767 * (self.count as int) <= 32767 * 4294967295int) by (nonlinear_arith)
            requires self.count <= 4294967295int;
        self.accel = VectorSum {
            x: self.accel.x + s.accel.x as i64,
            y: self.accel.y + s.accel.y as i64,
            z: self.accel.z + s.accel.z as i64,
        };
        self.gyro = VectorSum {
            x: self.gyro.x + s.gyro.x as i64,
            y: self.gyro.y + s.gyro.y as i64,
            z: self.gyro.z + s.gyro.z as i64,
        };
        self.count = self.count + 1;
        self.seen = Ghost(prev.push(s));
    }

    /// The offsets of a complete calibration, with `gravity` LSB to one g.
    pub fn offsets(&self, gravity: i16) -> (r: CalibrationOffsets)
        requires
            self.wf(),
            self.samples().len() == self.planned(),
        ensures
            offsets_view(r) == offsets_of(self.samples(), gravity as int),
            r.count == self.planned(),
            offsets_in_bounds(r),
    {
        proof {
            lemma_total_bounds(accels(self.seen@));
            lemma_total_bounds(gyros(self.seen@));
        }
        assert(-32768 * (self.count as int) >= -32768 * 4294967295int) by (nonlinear_arith)
            requires self.count <= 4294967295int;
        assert(32767 * (self.count as int) <= 32767 * 4294967295int) by (nonlinear_arith)
            requires self.count <= 4294967295int;
        assert(accels(self.seen@).len() == self.count && gyros(self.seen@).len() == self.count);
        assert(-0x1_0000_0000_0000 <= (self.count as int) * (gravity as int) <= 0x1_0000_0000_0000)
            by (nonlinear_arith)
            requires 0 <= self.count <= 4294967295int, -32768 <= gravity <= 32767;
        let g: i64 = self.count as i64 * gravity as i64;
        CalibrationOffsets {
            accel: VectorSum { x: self.accel.x, y: self.accel.y, z: self.accel.z - g },
            gyro: self.gyro,
            count: self.count,
        }
    }
}

/// Calibrates over exactly the given samples; `None` when there are none.
pub fn calibrate(samples: &Vec<Sample>, gravity: i16) -> (r: Option<CalibrationOffsets>)
    requires
        samples@.len() <= u32::MAX,
    ensures
        r.is_some() == (samples@.len() > 0),
        r matches Some(o) ==> o.count == samples@.len() && offsets_view(o) == offsets_of(
            samples@,
            gravity as int,
        ),
{
    let n = samples.len();
    if n == 0 {
        return None;
    }
    let mut c = Calibration::new(n as u32);
    let mut i: usize = 0;
    while i < n
        invariant
            n == samples@.len(),
            i <= n,
            n <= u32::MAX,
            c.wf(),
            c.planned() == n,
            c.samples() == samples@.subrange(0, i as int),
        decreases n - i,
    {
        c.add(samples[i]);
        i = i + 1;
        assert(c.samples() =~= samples@.subrange(0, i as int));
    }
    assert(samples@.subrange(0, n as int) =~= samples@);
    Some(c.offsets(gravity))
}

/// The offsets are exact means of the calibration samples: each bias,
/// multiplied by the sample count, is the sum of that axis over the samples,
/// except the accelerometer's vertical axis, whose bias is its mean less
/// one g.
pub proof fn lemma_bias_is_mean(samples: Seq<Sample>, gravity: int)
    ensures
        ({
            let o = offsets_of(samples, gravity);
            let n = samples.len() as int;
            let (ax, ay, az) = vector_total(accels(samples));
            let (gx, gy, gz) = vector_total(gyros(samples));
            &&& o.0 == ax &&& o.1 == ay &&& o.2 + n * gravity == az
            &&& o.3 == gx &&& o.4 == gy &&& o.5 == gz
        }),
{
}

/// The address of the sensor's configuration register, which holds the
/// digital low-pass filter setting.
pub const CONFIG_REGISTER: u8 = 0x1A;

/// The value written to the configuration register for low-pass filter
/// mode `mode`: only its three low bits, as the modes run from 0 to 6.
pub fn dlpf_register_value(mode: u8) -> (r: u8)
    ensures
        r == mode % 8,
{
    mode % 8
}

/// Why the estimator stopped: both are fatal to the estimating task.
#[derive(Clone, Copy, PartialEq, Eq, Structural, Debug)]
pub enum EstimatorError {
    /// The sensor bus failed.
    Bus,
    /// Calibration did not finish before its deadline.
    CalibrationTimeout,
}

/// Where the estimator stands.
pub enum EstimatorPhase {
    /// The sensor is being configured.
    Configuring,
    /// Calibration samples are being collected.
    Calibrating(Calibration),
    /// Readings are corrected with the offsets and fed to the filter.
    Running(CalibrationOffsets),
    /// Stopped for good.
    Failed(EstimatorError),
}

/// The acquisition task's decisions: configure, calibrate within a
/// deadline, then correct every reading.
pub struct Estimator {
    phase: EstimatorPhase,
    planned: u32,
    gravity: i16,
}

impl Estimator {
    pub closed spec fn phase(&self) -> EstimatorPhase {
        self.phase
    }

    pub closed spec fn planned(&self) -> nat {
        self.planned as nat
    }

    pub closed spec fn gravity(&self) -> int {
        self.gravity as int
    }

    pub closed spec fn wf(&self) -> bool {
        &&& self.planned >= 1
        &&& match self.phase {
            EstimatorPhase::Calibrating(c) => {
                &&& c.wf()
                &&& c.planned() == self.planned
                &&& c.samples().len() < self.planned
            },
            EstimatorPhase::Running(o) => o.count == self.planned && offsets_in_bounds(o),
            _ => true,
        }
    }

    /// An estimator about to configure its sensor, that will calibrate over
    /// `planned` samples with `gravity` LSB to one g.
    pub fn new(planned: u32, gravity: i16) -> (r: Self)
        requires
            planned >= 1,
        ensures
            r.wf(),
            r.phase() is Configuring,
            r.planned() == planned,
            r.gravity() == gravity,
    {
        Estimator { phase: EstimatorPhase::Configuring, planned, gravity }
    }

    pub fn failure(&self) -> (r: Option<EstimatorError>)
        ensures
            r == match self.phase() {
                EstimatorPhase::Failed(e) => Some(e),
                _ => None,
            },
    {
        match &self.phase {
            EstimatorPhase::Failed(e) => Some(*e),
            _ => None,
        }
    }

    pub fn is_running(&self) -> (r: bool)
        ensures
            r == self.phase() is Running,
    {
        match &self.phase {
            EstimatorPhase::Running(_) => true,
            _ => false,
        }
    }

    /// The offsets in use, once calibration is over.
    pub fn offsets(&self) -> (r: Option<CalibrationOffsets>)
        ensures
            r == match self.phase() {
                EstimatorPhase::Running(o) => Some(o),
                _ => None,
            },
    {
        match &self.phase {
            EstimatorPhase::Running(o) => Some(*o),
            _ => None,
        }
    }

    /// The sensor configuration finished, successfully or not. A failure is
    /// fatal; success starts calibration.
    pub fn configured(&mut self, ok: bool)
        requires
            old(self).wf(),
        ensures
            final(self).wf(),
            final(self).planned() == old(self).planned(),
            final(self).gravity() == old(self).gravity(),
            old(self).phase() is Configuring && ok ==> (match final(self).phase() {
                EstimatorPhase::Calibrating(c) => c.samples() == Seq::<Sample>::empty(),
                _ => false,
            }),
            old(self).phase() is Configuring && !ok ==> final(self).phase()
                == EstimatorPhase::Failed(EstimatorError::Bus),
            !(old(self).phase() is Configuring) ==> final(self).phase() == old(self).phase(),
    {
        if let EstimatorPhase::Configuring = self.phase {
            if ok {
                self.phase = EstimatorPhase::Calibrating(Calibration::new(self.planned));
            } else {
                self.phase = EstimatorPhase::Failed(EstimatorError::Bus);
            }
        }
    }

    /// The calibration deadline elapsed. Calibration still in progress is
    /// discarded and the estimator fails; in any other phase nothing changes.
    pub fn deadline_elapsed(&mut self)
        requires
            old(self).wf(),
        ensures
            final(self).wf(),
            final(self).planned() == old(self).planned(),
            final(self).gravity() == old(self).gravity(),
            old(self).phase() is Calibrating ==> final(self).phase()
                == EstimatorPhase::Failed(EstimatorError::CalibrationTimeout),
            !(old(self).phase() is Calibrating) ==> final(self).phase() == old(self).phase(),
    {
        if let EstimatorPhase::Calibrating(_) = self.phase {
            self.phase = EstimatorPhase::Failed(EstimatorError::CalibrationTimeout);
        }
    }

    /// One reading from the sensor, `None` when the bus failed. During
    /// calibration the reading is collected, and the last planned one
    /// starts running with the offsets; while running it comes back
    /// corrected. A bus failure is fatal.
    pub fn reading(&mut self, r: Option<Sample>) -> (out: Option<CorrectedSample>)
        requires
            old(self).wf(),
        ensures
            final(self).wf(),
            final(self).planned() == old(self).planned(),
            final(self).gravity() == old(self).gravity(),
            (old(self).phase() is Calibrating || old(self).phase() is Running) && r is None
                ==> final(self).phase() == EstimatorPhase::Failed(EstimatorError::Bus) && out is None,
            match (old(self).phase(), r) {
                (EstimatorPhase::Calibrating(c), Some(s)) => {
                    &&& out is None
                    &&& if c.samples().len() + 1 == c.planned() {
                        final(self).phase() is Running && offsets_view(final(self).phase()->Running_0)
                            == offsets_of(c.samples().push(s), old(self).gravity())
                    } else {
                        final(self).phase() is Calibrating
                            && (final(self).phase()->Calibrating_0).samples() == c.samples().push(s)
                    }
                },
                (EstimatorPhase::Running(o), Some(s)) => {
                    &&& final(self).phase() == old(self).phase()
                    &&& out matches Some(c) && corrected_view(c) == corrected_of(s, o)
                },
                (EstimatorPhase::Configuring, _) | (EstimatorPhase::Failed(_), _) => {
                    final(self).phase() == old(self).phase() && out is None
                },
                _ => true,
            },
    {
        match r {
            None => {
                match &self.phase {
                    EstimatorPhase::Calibrating(_) | EstimatorPhase::Running(_) => {
                        self.phase = EstimatorPhase::Failed(EstimatorError::Bus);
                    },
                    _ => {},
                }
                None
            },
            Some(s) => {
                let mut done: Option<CalibrationOffsets> = None;
                let mut out: Option<CorrectedSample> = None;
                match &mut self.phase {
                    EstimatorPhase::Calibrating(c) => {
                        c.add(s);
                        if c.is_complete() {
                            done = Some(c.offsets(self.gravity));
                        }
                    },
                    EstimatorPhase::Running(o) => {
                        out = Some(correct(s, o));
                    },
                    _ => {},
                }
                if let Some(o) = done {
                    self.phase = EstimatorPhase::Running(o);
                }
                out
            },
        }
    }
}

pub open spec fn corrected_view(c: CorrectedSample) -> (int, int, int, int, int, int, int) {
    (c.accel.x as int, c.accel.y as int, c.accel.z as int, c.gyro.x as int, c.gyro.y as int,
        c.gyro.z as int, c.scale as int)
}

/// Each axis of `s` scaled by the sample count, less its bias numerator.
pub open spec fn corrected_of(s: Sample, o: CalibrationOffsets) -> (int, int, int, int, int, int, int) {
    let n = o.count as int;
    (corrected_axis(s.accel.x as int, n, o.accel.x as int),
     corrected_axis(s.accel.y as int, n, o.accel.y as int),
     corrected_axis(s.accel.z as int, n, o.accel.z as int),
     corrected_axis(s.gyro.x as int, n, o.gyro.x as int),
     corrected_axis(s.gyro.y as int, n, o.gyro.y as int),
     corrected_axis(s.gyro.z as int, n, o.gyro.z as int),
     n)
}

pub open spec fn offsets_in_bounds(o: CalibrationOffsets) -> bool {
    let b = 0x7000_0000_0000_0000int;
    &&& -b <= o.accel.x <= b &&& -b <= o.accel.y <= b &&& -b <= o.accel.z <= b
    &&& -b <= o.gyro.x <= b &&& -b <= o.gyro.y <= b &&& -b <= o.gyro.z <= b
}

fn correct_axis(v: i16, n: u32, b: i64) -> (r: i64)
    requires
        -0x7000_0000_0000_0000 <= b <= 0x7000_0000_0000_0000,
    ensures
        r == corrected_axis(v as int, n as int, b as int),
{
    assert(-0x1_0000_0000_0000 <= (v as int) * (n as int) <= 0x1_0000_0000_0000) by (nonlinear_arith)
        requires -32768 <= v <= 32767, 0 <= n <= 4294967295int;
    let p: i64 = v as i64 * n as i64;
    p - b
}

/// Removes the calibration biases from a reading.
pub fn correct(s: Sample, o: &CalibrationOffsets) -> (r: CorrectedSample)
    requires
        offsets_in_bounds(*o),
    ensures
        corrected_view(r) == corrected_of(s, *o),
{
    let n = o.count;
    CorrectedSample {
        accel: VectorSum {
            x: correct_axis(s.accel.x, n, o.accel.x),
            y: correct_axis(s.accel.y, n, o.accel.y),
            z: correct_axis(s.accel.z, n, o.accel.z),
        },
        gyro: VectorSum {
            x: correct_axis(s.gyro.x, n, o.gyro.x),
            y: correct_axis(s.gyro.y, n, o.gyro.y),
            z: correct_axis(s.gyro.z, n, o.gyro.z),
        },
        scale: n,
    }
}

} // verus!
