//! Turning a wrapping 16-bit encoder counter into smoothed signed deltas.

use vstd::prelude::*;
use crate::channel::{sent, LatestValueChannel};

verus! {

/// The signed motion between two readings of the wrapping counter: the
/// difference, corrected by one full counter range when it exceeds half of it.
pub open spec fn corrected_delta_spec(prev: u16, curr: u16) -> int {
    let raw = curr as int - prev as int;
    if raw > 32767 {
        raw - 65536
    } else if raw < -32768 {
        raw + 65536
    } else {
        raw
    }
}

/// Division truncated toward zero, as the machine does it.
pub open spec fn trunc_div(a: int, s: int) -> int {
    if a >= 0 {
        a / s
    } else {
        -((-a) / s)
    }
}

/// The remainder left by `trunc_div`; it has the sign of `a`.
pub open spec fn trunc_rem(a: int, s: int) -> int {
    a - s * trunc_div(a, s)
}

/// One poll: the delta emitted, if any, and the accumulator afterwards.
pub open spec fn step_spec(prev: u16, acc: int, s: int, curr: u16) -> (Option<int>, int) {
    let a = acc + corrected_delta_spec(prev, curr);
    if a >= s || a <= -s {
        (Some(trunc_div(a, s)), trunc_rem(a, s))
    } else {
        (None, a)
    }
}

/// The deltas emitted over a run of readings, and the accumulator at its end.
pub open spec fn run_spec(prev: u16, acc: int, s: int, counts: Seq<u16>) -> (Seq<int>, int)
    decreases counts.len(),
{
    if counts.len() == 0 {
        (Seq::empty(), acc)
    } else {
        let (e, a) = step_spec(prev, acc, s, counts[0]);
        let (rest, fin) = run_spec(counts[0], a, s, counts.drop_first());
        match e {
            Some(d) => (seq![d] + rest, fin),
            None => (rest, fin),
        }
    }
}

/// The net corrected motion over a run of readings.
pub open spec fn net_motion(prev: u16, counts: Seq<u16>) -> int
    decreases counts.len(),
{
    if counts.len() == 0 {
        0
    } else {
        corrected_delta_spec(prev, counts[0]) + net_motion(counts[0], counts.drop_first())
    }
}

pub open spec fn sum(xs: Seq<int>) -> int
    decreases xs.len(),
{
    if xs.len() == 0 {
        0
    } else {
        xs[0] + sum(xs.drop_first())
    }
}

proof fn lemma_sum_prepend(d: int, rest: Seq<int>)
    ensures
        sum(seq![d] + rest) == d + sum(rest),
{
    assert((seq![d] + rest).drop_first() =~= rest);
}

/// Over any run of readings, wraps included, the emitted deltas times the
/// smoothing factor plus the final remainder add up to the net corrected
/// motion plus the remainder carried in.
pub proof fn lemma_motion_conserved(prev: u16, acc: int, s: int, counts: Seq<u16>)
    requires
        s >= 1,
    ensures
        sum(run_spec(prev, acc, s, counts).0) * s + run_spec(prev, acc, s, counts).1
            == acc + net_motion(prev, counts),
    decreases counts.len(),
{
    if counts.len() > 0 {
        let (e, a) = step_spec(prev, acc, s, counts[0]);
        let (rest, fin) = run_spec(counts[0], a, s, counts.drop_first());
        lemma_motion_conserved(counts[0], a, s, counts.drop_first());
        match e {
            Some(d) => {
                lemma_sum_prepend(d, rest);
                assert((d + sum(rest)) * s == d * s + sum(rest) * s) by (nonlinear_arith);
            },
            None => {},
        }
    }
}

proof fn lemma_trunc_div_bounds(a: int, s: int)
    requires
        s >= 1,
        -s - 32768 < a < s + 32768,
    ensures
        -32769 <= trunc_div(a, s) <= 32769,
        -s < trunc_rem(a, s) < s,
{
    if a >= 0 {
        assert(0 <= a / s <= a) by (nonlinear_arith)
            requires a >= 0, s >= 1;
        assert(0 <= a - s * (a / s) < s) by (nonlinear_arith)
            requires a >= 0, s >= 1;
        assert(a / s <= 32769) by (nonlinear_arith)
            requires 0 <= a < s + 32768, s >= 1;
    } else {
        let b = -a;
        assert(0 <= b / s <= b) by (nonlinear_arith)
            requires b >= 0, s >= 1;
        assert(0 <= b - s * (b / s) < s) by (nonlinear_arith)
            requires b >= 0, s >= 1;
        assert(b / s <= 32769) by (nonlinear_arith)
            requires 0 <= b < s + 32768, s >= 1;
        let q = b / s;
        assert(s * (-q) == -(s * q)) by (nonlinear_arith);
    }
}

/// The corrected motion between two counter readings.
pub fn corrected_delta(prev: u16, curr: u16) -> (r: i32)
    ensures
        r == corrected_delta_spec(prev, curr),
        -32768 <= r <= 32767,
{
    let raw: i32 = curr as i32 - prev as i32;
    if raw > 32767 {
        raw - 65536
    } else if raw < -32768 {
        raw + 65536
    } else {
        raw
    }
}

/// Accumulates counter motion and emits one unit per `smoothing` counts.
pub struct QuadratureDecoder {
    prev: u16,
    accumulated: i64,
    smoothing: i64,
}

impl QuadratureDecoder {
    pub closed spec fn last_count(&self) -> u16 {
        self.prev
    }

    /// Motion counted but not yet emitted; its magnitude stays below the
    /// smoothing factor.
    pub closed spec fn remainder(&self) -> int {
        self.accumulated as int
    }

    pub closed spec fn factor(&self) -> int {
        self.smoothing as int
    }

    pub closed spec fn wf(&self) -> bool {
        &&& 1 <= self.smoothing <= i32::MAX
        &&& -self.smoothing < self.accumulated < self.smoothing
    }

    /// A decoder whose first reading is `initial_count`.
    pub fn new(initial_count: u16, smoothing: i32) -> (r: Self)
        requires
            smoothing >= 1,
        ensures
            r.wf(),
            r.last_count() == initial_count,
            r.remainder() == 0,
            r.factor() == smoothing,
    {
        QuadratureDecoder { prev: initial_count, accumulated: 0, smoothing: smoothing as i64 }
    }

    /// Motion counted but not yet emitted.
    pub fn pending_motion(&self) -> (r: i64)
        ensures
            r == self.remainder(),
    {
        self.accumulated
    }

    /// Takes the next counter reading; returns the smoothed delta when the
    /// accumulated motion reaches the smoothing factor.
    pub fn poll(&mut self, count: u16) -> (r: Option<i32>)
        requires
            old(self).wf(),
        ensures
            final(self).wf(),
            final(self).factor() == old(self).factor(),
            final(self).last_count() == count,
            (match r {
                Some(d) => Some(d as int),
                None => None::<int>,
            }, final(self).remainder()) == step_spec(
                old(self).last_count(),
                old(self).remainder(),
                old(self).factor(),
                count,
            ),
    {
        let d = corrected_delta(self.prev, count);
        let a: i64 = self.accumulated + d as i64;
        let s = self.smoothing;
        self.prev = count;
        if a >= s || a <= -s {
            let q: i64 = if a >= 0 {
                a / s
            } else {
                -((-a) / s)
            };
            proof {
                lemma_trunc_div_bounds(a as int, s as int);
            }
            self.accumulated = a - s * q;
            Some(q as i32)
        } else {
            self.accumulated = a;
            None
        }
    }

    /// Takes the next reading and publishes the smoothed delta, if one is
    /// emitted, on `out`.
    pub fn poll_into(&mut self, count: u16, out: &mut LatestValueChannel<i32>) -> (r: Option<i32>)
        requires
            old(self).wf(),
            old(out).wf(),
        ensures
            final(self).wf(),
            final(self).factor() == old(self).factor(),
            final(self).last_count() == count,
            (match r {
                Some(d) => Some(d as int),
                None => None::<int>,
            }, final(self).remainder()) == step_spec(
                old(self).last_count(),
                old(self).remainder(),
                old(self).factor(),
                count,
            ),
            final(out).wf(),
            final(out).cap() == old(out).cap(),
            final(out).pending() == match r {
                Some(d) => sent(old(out).pending(), old(out).cap(), d),
                None => old(out).pending(),
            },
    {
        let r = self.poll(count);
        if let Some(d) = r {
            out.send(d);
        }
        r
    }
}

/// Starts a decoder and publishes the initial zero delta, so that consumers
/// have a defined first value.
pub fn start_decoder(initial_count: u16, smoothing: i32, out: &mut LatestValueChannel<i32>) -> (r: QuadratureDecoder)
    requires
        smoothing >= 1,
        old(out).wf(),
    ensures
        r.wf(),
        r.last_count() == initial_count,
        r.remainder() == 0,
        r.factor() == smoothing,
        final(out).wf(),
        final(out).cap() == old(out).cap(),
        final(out).pending() == sent(old(out).pending(), old(out).cap(), 0i32),
{
    out.send(0);
    QuadratureDecoder::new(initial_count, smoothing)
}

} // verus!
