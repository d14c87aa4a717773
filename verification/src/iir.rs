//! Fixed-point IIR/PID control filter.
//!
//! Per channel the filter is a cascade of biquad sections in direct form:
//! `acc = b0*x + b1*x1 + b2*x2 + a1*y1 + a2*y2`, scaled down by the
//! coefficients' 22 fractional bits and saturated to the channel's clamp
//! bounds.  Samples and outputs are plain integers; PID gains arrive in
//! Q16, and reinterpreting the same numerals as Q22 coefficients realizes
//! the fixed `2^-6` datawidth gain that maps the 24-bit input scale onto
//! the 18-bit output scale.
//!
//! Every section saturates its output before storing it in the feedback
//! taps; with the single-section cascade the instrument runs, that is
//! exactly the final-output anti-windup clamp, while the input-side delay
//! line is left free to grow: saturating the final output is the one
//! deliberate anti-windup measure.

use vstd::prelude::*;

verus! {

use crate::settings::GAIN_LIMIT;

/// Fixed-point one in the Q22 coefficient representation.
pub const Q_ONE: i64 = 4194304;

/// Magnitude bound on coefficients, delay-line entries, inputs and clamp
/// bounds: `2^40`, which keeps the five-term accumulator far inside the
/// 128-bit range.
pub const IIR_BOUND: i64 = 1099511627776;

/// Coefficients of one biquad section: feedforward `b0,b1,b2`, feedback
/// `a1,a2`, in Q22.
#[derive(Clone, Copy)]
pub struct IirCoeffs {
    pub b0: i64,
    pub b1: i64,
    pub b2: i64,
    pub a1: i64,
    pub a2: i64,
}

impl IirCoeffs {
    pub open spec fn bounded(&self) -> bool {
        &&& -IIR_BOUND <= self.b0 <= IIR_BOUND
        &&& -IIR_BOUND <= self.b1 <= IIR_BOUND
        &&& -IIR_BOUND <= self.b2 <= IIR_BOUND
        &&& -IIR_BOUND <= self.a1 <= IIR_BOUND
        &&& -IIR_BOUND <= self.a2 <= IIR_BOUND
    }

    /// Pass-through coefficients: unit feedforward gain, no memory.
    pub fn neutral() -> (r: IirCoeffs)
        ensures
            r == (IirCoeffs { b0: Q_ONE, b1: 0i64, b2: 0i64, a1: 0i64, a2: 0i64 }),
            r.bounded(),
    {
        IirCoeffs { b0: Q_ONE, b1: 0, b2: 0, a1: 0, a2: 0 }
    }
}

/// One biquad section: its coefficients and its delay line — the previous
/// two inputs and the previous two (saturated) outputs.
#[derive(Clone, Copy)]
pub struct Biquad {
    pub ba: IirCoeffs,
    pub x1: i64,
    pub x2: i64,
    pub y1: i64,
    pub y2: i64,
}

impl Biquad {
    pub open spec fn wf(&self) -> bool {
        &&& self.ba.bounded()
        &&& -IIR_BOUND <= self.x1 <= IIR_BOUND
        &&& -IIR_BOUND <= self.x2 <= IIR_BOUND
        &&& -IIR_BOUND <= self.y1 <= IIR_BOUND
        &&& -IIR_BOUND <= self.y2 <= IIR_BOUND
    }

    /// A fresh section with the given coefficients and a zeroed delay line.
    pub fn new(ba: IirCoeffs) -> (r: Biquad)
        requires
            ba.bounded(),
        ensures
            r.wf(),
            r.ba == ba,
            r.x1 == 0 && r.x2 == 0 && r.y1 == 0 && r.y2 == 0,
    {
        Biquad { ba, x1: 0, x2: 0, y1: 0, y2: 0 }
    }

    /// Advance the section by one input, returning the saturated output.
    pub fn update(&mut self, x: i64, lo: i64, hi: i64) -> (y: i64)
        requires
            old(self).wf(),
            -IIR_BOUND <= x <= IIR_BOUND,
            -IIR_BOUND <= lo,
            lo <= hi,
            hi <= IIR_BOUND,
        ensures
            final(self).wf(),
            y == biquad_out(*old(self), x, lo, hi),
            *final(self) == biquad_next(*old(self), x, lo, hi),
            lo <= y <= hi,
    {
        proof {
            lemma_abs_mul_bound(self.ba.b0 as int, x as int, IIR_BOUND as int);
            lemma_abs_mul_bound(self.ba.b1 as int, self.x1 as int, IIR_BOUND as int);
            lemma_abs_mul_bound(self.ba.b2 as int, self.x2 as int, IIR_BOUND as int);
            lemma_abs_mul_bound(self.ba.a1 as int, self.y1 as int, IIR_BOUND as int);
            lemma_abs_mul_bound(self.ba.a2 as int, self.y2 as int, IIR_BOUND as int);
        }
        let acc: i128 = self.ba.b0 as i128 * x as i128 + self.ba.b1 as i128 * self.x1 as i128
            + self.ba.b2 as i128 * self.x2 as i128 + self.ba.a1 as i128 * self.y1 as i128
            + self.ba.a2 as i128 * self.y2 as i128;
        let sh: i128 = acc >> 22u32;
        let y: i64 = if sh < lo as i128 {
            lo
        } else if sh > hi as i128 {
            hi
        } else {
            sh as i64
        };
        self.x2 = self.x1;
        self.x1 = x;
        self.y2 = self.y1;
        self.y1 = y;
        y
    }
}

/// Magnitude bound on a product of two bounded factors.
proof fn lemma_abs_mul_bound(a: int, b: int, m: int)
    by (nonlinear_arith)
    requires
        -m <= a <= m,
        -m <= b <= m,
        0 <= m,
    ensures
        -(m * m) <= a * b <= m * m,
{
}

/// The exact accumulator of the direct-form recurrence.
pub open spec fn biquad_acc(s: Biquad, x: i64) -> int {
    s.ba.b0 * x + s.ba.b1 * s.x1 + s.ba.b2 * s.x2 + s.ba.a1 * s.y1 + s.ba.a2 * s.y2
}

/// The accumulator scaled down by the 22 fractional coefficient bits
/// (arithmetic shift, as the implementation computes it).
pub open spec fn q22(acc: int) -> i128 {
    (acc as i128) >> 22u32
}

/// Saturate to the inclusive range `[lo, hi]`.
pub open spec fn clamp(v: i128, lo: i64, hi: i64) -> i64 {
    if v < lo {
        lo
    } else if v > hi {
        hi
    } else {
        v as i64
    }
}

/// Section output: the scaled accumulator, saturated to the clamp bounds.
pub open spec fn biquad_out(s: Biquad, x: i64, lo: i64, hi: i64) -> i64 {
    clamp(q22(biquad_acc(s, x)), lo, hi)
}

/// Section state after consuming `x`: the delay line shifts and the
/// saturated output enters the feedback taps.
pub open spec fn biquad_next(s: Biquad, x: i64, lo: i64, hi: i64) -> Biquad {
    Biquad { ba: s.ba, x1: x, x2: s.x1, y1: biquad_out(s, x, lo, hi), y2: s.y1 }
}

/// Output of a cascade on input `x`: each section consumes the previous
/// section's saturated output.
pub open spec fn cascade_out(secs: Seq<Biquad>, x: i64, lo: i64, hi: i64) -> i64
    decreases secs.len(),
{
    if secs.len() == 0 {
        x
    } else {
        cascade_out(secs.drop_first(), biquad_out(secs[0], x, lo, hi), lo, hi)
    }
}

/// The cascade after consuming `x`: every section's delay line shifts.
pub open spec fn cascade_next(secs: Seq<Biquad>, x: i64, lo: i64, hi: i64) -> Seq<Biquad>
    decreases secs.len(),
{
    if secs.len() == 0 {
        Seq::empty()
    } else {
        seq![biquad_next(secs[0], x, lo, hi)] + cascade_next(
            secs.drop_first(),
            biquad_out(secs[0], x, lo, hi),
            lo,
            hi,
        )
    }
}

proof fn lemma_cascade_snoc(secs: Seq<Biquad>, b: Biquad, x: i64, lo: i64, hi: i64)
    ensures
        cascade_out(secs.push(b), x, lo, hi) == biquad_out(
            b,
            cascade_out(secs, x, lo, hi),
            lo,
            hi,
        ),
        cascade_next(secs.push(b), x, lo, hi) == cascade_next(secs, x, lo, hi).push(
            biquad_next(b, cascade_out(secs, x, lo, hi), lo, hi),
        ),
    decreases secs.len(),
{
    let ext = secs.push(b);
    if secs.len() == 0 {
        assert(ext[0] == b);
        assert(ext.drop_first() =~= Seq::<Biquad>::empty());
        assert(cascade_out(ext.drop_first(), biquad_out(b, x, lo, hi), lo, hi) == biquad_out(
            b,
            x,
            lo,
            hi,
        ));
        assert(cascade_out(secs, x, lo, hi) == x);
        assert(cascade_next(ext.drop_first(), biquad_out(b, x, lo, hi), lo, hi)
            =~= Seq::<Biquad>::empty());
        assert(cascade_next(ext, x, lo, hi) =~= seq![biquad_next(b, x, lo, hi)] + cascade_next(
            ext.drop_first(),
            biquad_out(b, x, lo, hi),
            lo,
            hi,
        ));
        assert(cascade_next(secs, x, lo, hi) =~= Seq::<Biquad>::empty());
        assert(cascade_next(ext, x, lo, hi) =~= cascade_next(secs, x, lo, hi).push(
            biquad_next(b, x, lo, hi),
        ));
    } else {
        assert(ext[0] == secs[0]);
        assert(ext.drop_first() =~= secs.drop_first().push(b));
        let y0 = biquad_out(secs[0], x, lo, hi);
        lemma_cascade_snoc(secs.drop_first(), b, y0, lo, hi);
        assert(cascade_out(ext, x, lo, hi) == cascade_out(ext.drop_first(), y0, lo, hi));
        assert(cascade_out(secs, x, lo, hi) == cascade_out(secs.drop_first(), y0, lo, hi));
        assert(cascade_next(ext, x, lo, hi) =~= seq![biquad_next(secs[0], x, lo, hi)]
            + cascade_next(ext.drop_first(), y0, lo, hi));
        assert(cascade_next(secs, x, lo, hi) =~= seq![biquad_next(secs[0], x, lo, hi)]
            + cascade_next(secs.drop_first(), y0, lo, hi));
        assert(cascade_next(ext, x, lo, hi) =~= cascade_next(secs, x, lo, hi).push(
            biquad_next(b, cascade_out(secs, x, lo, hi), lo, hi),
        ));
    }
}

/// One channel's control filter: the biquad cascade, the input-referred
/// set-point offset, and the output clamp bounds (anti-windup).
pub struct ChannelFilter {
    pub iir: Vec<Biquad>,
    /// Set point, subtracted from each raw sample before the cascade.
    pub target_offset: i64,
    /// Lower output clamp.
    pub y_min: i64,
    /// Upper output clamp.
    pub y_max: i64,
}

/// The cascade input for a raw sample: the sample with the set-point
/// offset subtracted, so that a sample equal to the set point drives the
/// filter with zero.
pub open spec fn input_of(sample: u32, offset: i64) -> i64 {
    (sample - offset) as i64
}

impl ChannelFilter {
    pub open spec fn wf(&self) -> bool {
        &&& self.iir@.len() >= 1
        &&& forall|i: int| 0 <= i < self.iir@.len() ==> (#[trigger] self.iir@[i]).wf()
        &&& -16777216 <= self.target_offset <= 16777216
        &&& -IIR_BOUND <= self.y_min
        &&& self.y_min <= self.y_max
        &&& self.y_max <= IIR_BOUND
    }

    /// A channel filter born neutral: `sections` pass-through biquads,
    /// zero set point, wide-open clamps.
    pub fn neutral(sections: usize) -> (r: ChannelFilter)
        requires
            1 <= sections <= 16,
        ensures
            r.wf(),
            r.iir@.len() == sections,
            r.target_offset == 0,
            r.y_min == -IIR_BOUND,
            r.y_max == IIR_BOUND,
    {
        let mut iir: Vec<Biquad> = Vec::new();
        let mut i: usize = 0;
        while i < sections
            invariant
                iir@.len() == i,
                i <= sections,
                forall|j: int| 0 <= j < i ==> (#[trigger] iir@[j]).wf(),
            decreases sections - i,
        {
            iir.push(Biquad::new(IirCoeffs::neutral()));
            i = i + 1;
        }
        ChannelFilter { iir, target_offset: 0, y_min: -IIR_BOUND, y_max: IIR_BOUND }
    }

    /// Reconfigure the channel: new coefficients for the first section, a
    /// new set point and new clamp bounds.  The delay lines are left
    /// untouched, so the filter state stays warm across a settings change.
    pub fn set_config(&mut self, ba: IirCoeffs, offset: i64, y_min: i64, y_max: i64)
        requires
            old(self).wf(),
            ba.bounded(),
            -16777216 <= offset <= 16777216,
            -IIR_BOUND <= y_min,
            y_min <= y_max,
            y_max <= IIR_BOUND,
        ensures
            final(self).wf(),
            final(self).iir@.len() == old(self).iir@.len(),
            final(self).iir@[0].ba == ba,
            final(self).iir@[0].x1 == old(self).iir@[0].x1,
            final(self).iir@[0].x2 == old(self).iir@[0].x2,
            final(self).iir@[0].y1 == old(self).iir@[0].y1,
            final(self).iir@[0].y2 == old(self).iir@[0].y2,
            forall|i: int|
                1 <= i < old(self).iir@.len() ==> final(self).iir@[i] == old(self).iir@[i],
            final(self).target_offset == offset,
            final(self).y_min == y_min,
            final(self).y_max == y_max,
    {
        let mut sec = self.iir[0];
        sec.ba = ba;
        self.iir[0] = sec;
        self.target_offset = offset;
        self.y_min = y_min;
        self.y_max = y_max;
    }

    /// Run one raw sample through the channel: subtract the set-point
    /// offset, fold the cascade, saturate to the clamp bounds.
    pub fn update(&mut self, sample: u32) -> (y: i64)
        requires
            old(self).wf(),
        ensures
            final(self).wf(),
            y == cascade_out(
                old(self).iir@,
                input_of(sample, old(self).target_offset),
                old(self).y_min,
                old(self).y_max,
            ),
            final(self).iir@ == cascade_next(
                old(self).iir@,
                input_of(sample, old(self).target_offset),
                old(self).y_min,
                old(self).y_max,
            ),
            final(self).target_offset == old(self).target_offset,
            final(self).y_min == old(self).y_min,
            final(self).y_max == old(self).y_max,
            old(self).y_min <= y <= old(self).y_max,
    {
        let x0: i64 = sample as i64 - self.target_offset;
        let lo: i64 = self.y_min;
        let hi: i64 = self.y_max;
        let n: usize = self.iir.len();
        let mut y: i64 = x0;
        let mut i: usize = 0;
        proof {
            assert(old(self).iir@.take(0) =~= Seq::<Biquad>::empty());
        }
        while i < n
            invariant
                i <= n,
                n == self.iir@.len(),
                n == old(self).iir@.len(),
                n >= 1,
                old(self).wf(),
                self.target_offset == old(self).target_offset,
                self.y_min == old(self).y_min,
                self.y_max == old(self).y_max,
                x0 == input_of(sample, old(self).target_offset),
                lo == old(self).y_min,
                hi == old(self).y_max,
                forall|j: int| i <= j < n ==> self.iir@[j] == old(self).iir@[j],
                forall|j: int| 0 <= j < i ==> (#[trigger] self.iir@[j]).wf(),
                self.iir@.take(i as int) == cascade_next(
                    old(self).iir@.take(i as int),
                    x0,
                    lo,
                    hi,
                ),
                y == cascade_out(old(self).iir@.take(i as int), x0, lo, hi),
                -IIR_BOUND <= y <= IIR_BOUND,
                i >= 1 ==> lo <= y <= hi,
            decreases n - i,
        {
            let mut sec = self.iir[i];
            let yy = sec.update(y, lo, hi);
            self.iir[i] = sec;
            proof {
                let prefix = old(self).iir@.take(i as int);
                let b = old(self).iir@[i as int];
                lemma_cascade_snoc(prefix, b, x0, lo, hi);
                assert(old(self).iir@.take(i + 1) =~= prefix.push(b));
                assert(self.iir@.take(i + 1) =~= cascade_next(prefix, x0, lo, hi).push(
                    biquad_next(b, cascade_out(prefix, x0, lo, hi), lo, hi),
                ));
            }
            y = yy;
            i = i + 1;
        }
        proof {
            assert(old(self).iir@.take(n as int) =~= old(self).iir@);
            assert(self.iir@.take(n as int) =~= self.iir@);
        }
        y
    }
}

/// The coefficient set the PID mapping selects: full PID, PI, PD or plain
/// P, depending on which of the integral and derivative gains are
/// positive.
pub open spec fn spec_pid_to_iir(kp: i64, ki: i64, kd: i64) -> IirCoeffs {
    if ki > 0 && kd > 0 {
        IirCoeffs {
            b0: (kp + ki + kd) as i64,
            b1: (-(kp + 2 * kd)) as i64,
            b2: kd,
            a1: Q_ONE,
            a2: 0,
        }
    } else if ki > 0 {
        IirCoeffs { b0: (kp + ki) as i64, b1: (-kp) as i64, b2: 0, a1: Q_ONE, a2: 0 }
    } else if kd > 0 {
        IirCoeffs { b0: (kd + kp) as i64, b1: (-kd) as i64, b2: 0, a1: 0, a2: 0 }
    } else {
        IirCoeffs { b0: kp, b1: 0, b2: 0, a1: 0, a2: 0 }
    }
}

/// Map PID gains (Q16, already carrying the datawidth gain) onto the
/// minimal biquad structure: full PID, PI, PD or plain P, depending on
/// which of the integral and derivative gains are positive.  A
/// floating-point control law would hold the gains against machine
/// epsilon; in this exact integer representation that threshold is zero.
pub fn pid_to_iir(kp: i64, ki: i64, kd: i64) -> (r: IirCoeffs)
    requires
        -GAIN_LIMIT <= kp <= GAIN_LIMIT,
        -GAIN_LIMIT <= ki <= GAIN_LIMIT,
        -GAIN_LIMIT <= kd <= GAIN_LIMIT,
    ensures
        r.bounded(),
        r == spec_pid_to_iir(kp, ki, kd),
        ki > 0 && kd > 0 ==> r.b0 == kp + ki + kd && r.b1 == -(kp + 2 * kd) && r.b2 == kd
            && r.a1 == Q_ONE && r.a2 == 0,
        ki > 0 && kd <= 0 ==> r.b0 == kp + ki && r.b1 == -kp && r.b2 == 0 && r.a1 == Q_ONE
            && r.a2 == 0,
        ki <= 0 && kd > 0 ==> r.b0 == kd + kp && r.b1 == -kd && r.b2 == 0 && r.a1 == 0
            && r.a2 == 0,
        ki <= 0 && kd <= 0 ==> r.b0 == kp && r.b1 == 0 && r.b2 == 0 && r.a1 == 0 && r.a2
            == 0,
{
    if ki > 0 && kd > 0 {
        // Full PID: one real pole at unity (the integrator) and two zeros.
        IirCoeffs { b0: kp + ki + kd, b1: -(kp + 2 * kd), b2: kd, a1: Q_ONE, a2: 0 }
    } else if ki > 0 {
        // PI: integrator plus one zero.
        IirCoeffs { b0: kp + ki, b1: -kp, b2: 0, a1: Q_ONE, a2: 0 }
    } else if kd > 0 {
        // PD: finite difference, no integrator state.
        IirCoeffs { b0: kd + kp, b1: -kd, b2: 0, a1: 0, a2: 0 }
    } else {
        // Plain proportional gain.
        IirCoeffs { b0: kp, b1: 0, b2: 0, a1: 0, a2: 0 }
    }
}

/// Pure-proportional law: with P-only coefficients the section output is
/// the clamped proportional response to the current input alone.  The
/// delay line has no influence, so a constant input is a steady state at
/// once and repeated updates show no drift.
pub proof fn lemma_pure_p_no_drift(s: Biquad, x: i64, lo: i64, hi: i64)
    requires
        s.ba.b1 == 0,
        s.ba.b2 == 0,
        s.ba.a1 == 0,
        s.ba.a2 == 0,
    ensures
        biquad_out(s, x, lo, hi) == clamp(q22(s.ba.b0 * x), lo, hi),
        forall|t: Biquad|
            t.ba == s.ba ==> #[trigger] biquad_out(t, x, lo, hi) == biquad_out(s, x, lo, hi),
        biquad_next(s, x, lo, hi).ba == s.ba,
        biquad_out(biquad_next(s, x, lo, hi), x, lo, hi) == biquad_out(s, x, lo, hi),
{
    assert(biquad_acc(s, x) == s.ba.b0 * x);
    assert forall|t: Biquad| t.ba == s.ba implies #[trigger] biquad_out(t, x, lo, hi)
        == biquad_out(s, x, lo, hi) by {
        assert(biquad_acc(t, x) == s.ba.b0 * x);
    }
}

/// Steady-state law for the memoryless structures the PID mapping
/// produces (plain P and PD): once the input delay line holds the
/// constant input, the output is the clamped DC response
/// `(b0 + b1 + b2) * x` scaled down — and the section stays in that
/// state, so the response neither drifts nor depends on how it was
/// reached.
pub proof fn lemma_fir_steady_state(s: Biquad, x: i64, lo: i64, hi: i64)
    requires
        s.ba.a1 == 0,
        s.ba.a2 == 0,
        s.x1 == x,
        s.x2 == x,
    ensures
        biquad_out(s, x, lo, hi) == clamp(q22((s.ba.b0 + s.ba.b1 + s.ba.b2) * x), lo, hi),
        biquad_next(s, x, lo, hi).x1 == x && biquad_next(s, x, lo, hi).x2 == x,
        biquad_next(s, x, lo, hi).ba == s.ba,
        biquad_out(biquad_next(s, x, lo, hi), x, lo, hi) == biquad_out(s, x, lo, hi),
{
    assert((s.ba.b0 + s.ba.b1 + s.ba.b2) * x == s.ba.b0 * x + s.ba.b1 * x + s.ba.b2 * x)
        by (nonlinear_arith);
    assert(biquad_acc(s, x) == (s.ba.b0 + s.ba.b1 + s.ba.b2) * x);
    let n = biquad_next(s, x, lo, hi);
    assert(biquad_acc(n, x) == biquad_acc(s, x));
}

/// Anti-windup law: whatever the accumulator does, the cascade output
/// stays within the clamp bounds.
pub proof fn lemma_anti_windup(secs: Seq<Biquad>, x: i64, lo: i64, hi: i64)
    requires
        lo <= hi,
        secs.len() >= 1,
    ensures
        lo <= cascade_out(secs, x, lo, hi) <= hi,
    decreases secs.len(),
{
    if secs.len() == 1 {
        assert(cascade_out(secs.drop_first(), biquad_out(secs[0], x, lo, hi), lo, hi)
            == biquad_out(secs[0], x, lo, hi));
    } else {
        lemma_anti_windup(secs.drop_first(), biquad_out(secs[0], x, lo, hi), lo, hi);
    }
}

} // verus!
