//! Numeric scales: fitting a "nice" range and tick spacing to a data span.
//!
//! The fitting algorithm picks a spacing from `{spc/10, spc/4, spc/2, spc}`
//! where `spc` is the largest power of ten not above the data span, then
//! widens the range to the containing multiples of that spacing.

use vstd::prelude::*;
use vstd::arithmetic::div_mod::lemma_fundamental_div_mod;
use vstd::arithmetic::div_mod::lemma_fundamental_div_mod_converse_div;
use vstd::arithmetic::div_mod::lemma_div_multiples_vanish;
use vstd::arithmetic::div_mod::lemma_mod_multiples_basic;
use vstd::arithmetic::mul::lemma_mul_is_commutative;
use crate::decimal::dec_micros;
use crate::decimal::micros_str;
use crate::num::ceil_div;
use crate::num::clamp64;
use crate::num::digit_count;
use crate::num::digit_count_u64;
use crate::num::floor_div_i64;
use crate::num::lemma_digit_count_bounds;
use crate::num::lemma_digit_count_le;
use crate::num::lemma_pow10_mono;
use crate::num::lemma_pow10_pos;
use crate::num::pow10;
use crate::num::pow10_i64;
use crate::num::round_div;
use crate::num::round_div_u128;
use crate::num::MICRO;
use crate::point::Point;
use crate::text::Tick;

verus! {

/// Largest data magnitude (in micro-units) that scale fitting accepts.
pub const VAL_LIMIT: i64 = 4_000_000_000_000_000;

/// Largest coordinate magnitude (in micro-units) for chart data points:
/// scales fitted to such data keep their endpoints within `VAL_LIMIT`,
/// so they can always be widened by `union`.
pub const DATA_LIMIT: i64 = 3_000_000_000_000_000;

/// Largest magnitude a fitted scale endpoint can reach.
pub const END_LIMIT: i64 = 5_000_000_000_000_000;

/// Largest possible tick spacing.
pub const SPACING_LIMIT: i64 = 1_000_000_000_000_000;

/// Smallest span (in micro-units) that can be fitted with ticks; anything
/// narrower is a degenerate single-value domain.
pub const MIN_SPAN: i64 = 100;

/// The normalized position of a scale's `stop` endpoint, in millionths.
pub const NORM_ONE: i64 = 1_000_000;

/// Largest multiple of `d` not above `n`.
pub open spec fn floor_mul(n: int, d: int) -> int {
    (n / d) * d
}

/// Smallest multiple of `d` not below `n`.
pub open spec fn ceil_mul(n: int, d: int) -> int {
    ceil_div(n, d) * d
}

/// Largest power of ten not above `span`.
pub open spec fn nice_power(span: int) -> int
    recommends
        span >= 1,
{
    pow10((digit_count(span as nat) - 1) as nat)
}

/// The tick spacing fitted to the data range `min..max`: a first pass with
/// the power-of-ten spacing counts the coarse steps, and that count selects
/// the final spacing.
pub open spec fn spacing_spec(min: int, max: int) -> int
    recommends
        min + MIN_SPAN <= max,
{
    let spc = nice_power(max - min);
    let steps = (ceil_mul(max, spc) - floor_mul(min, spc)) / spc;
    if steps <= 1 {
        spc / 10
    } else if steps <= 2 {
        spc / 4
    } else if steps < 5 {
        spc / 2
    } else {
        spc
    }
}

/// Numeric scale: a fitted range with its tick spacing and direction.
#[derive(Clone, Copy, Debug)]
pub struct Numeric {
    /// Range start, in micro-units (largest multiple of the spacing not
    /// above the fitted data's minimum)
    pub start: i64,
    /// Range stop, in micro-units (smallest multiple of the spacing not
    /// below the fitted data's maximum)
    pub stop: i64,
    /// Tick spacing in micro-units; zero on a degenerate range
    pub spacing: i64,
    /// Direction: an inverted scale maps larger values to smaller
    /// normalized positions (screen `Y` grows downward)
    pub inverted: bool,
}

/// Well-formed scale: ordered endpoints within range, and both endpoints
/// exact multiples of the spacing whenever there is one.
pub open spec fn scale_wf(s: Numeric) -> bool {
    &&& -END_LIMIT <= s.start <= s.stop <= END_LIMIT
    &&& 0 <= s.spacing <= SPACING_LIMIT
    &&& s.spacing > 0 ==> s.start % s.spacing == 0 && s.stop % s.spacing == 0 && s.start < s.stop
}

/// What fitting the range `min..max` yields: the containing multiples of
/// the fitted spacing for a span wide enough to resolve, and the
/// untouched degenerate range otherwise.
pub open spec fn fitted_spec(min: int, max: int) -> Numeric {
    if max - min < MIN_SPAN {
        Numeric { start: min as i64, stop: max as i64, spacing: 0, inverted: false }
    } else {
        let sp = spacing_spec(min, max);
        Numeric {
            start: floor_mul(min, sp) as i64,
            stop: ceil_mul(max, sp) as i64,
            spacing: sp as i64,
            inverted: false,
        }
    }
}

/// Whether `r` is the scale fitted to the range `min..max`.
pub open spec fn is_fitted(r: Numeric, min: int, max: int) -> bool {
    r == fitted_spec(min, max)
}

/// The normalized position of `v` on scale `s`, in millionths: the
/// proportion `(v - start) / (stop - start)` rounded to the nearest
/// millionth (direction reversed on an inverted scale), clamped to `i64`.
/// A degenerate single-value domain maps everything to the center.
pub open spec fn normalize_spec(s: Numeric, v: int) -> int {
    let den = s.stop - s.start;
    if den == 0 {
        500_000
    } else {
        let num = if s.inverted {
            s.stop - v
        } else {
            v - s.start
        };
        clamp64(round_div(NORM_ONE * num, den))
    }
}

/// The floor multiple is a multiple, and lies within one spacing below `n`.
pub proof fn lemma_floor_mul(n: int, d: int)
    requires
        d > 0,
    ensures
        n - d < floor_mul(n, d) <= n,
        floor_mul(n, d) % d == 0,
{
    lemma_fundamental_div_mod(n, d);
    lemma_mul_is_commutative(d, n / d);
    lemma_mod_multiples_basic(n / d, d);
}

/// The ceiling multiple is a multiple, and lies within one spacing above
/// `n`.
pub proof fn lemma_ceil_mul(n: int, d: int)
    requires
        d > 0,
    ensures
        n <= ceil_mul(n, d) < n + d,
        ceil_mul(n, d) % d == 0,
{
    let q = (n + d - 1) / d;
    lemma_fundamental_div_mod(n + d - 1, d);
    lemma_mul_is_commutative(d, q);
    lemma_mod_multiples_basic(q, d);
}

/// Bounds on the power-of-ten pass: for a resolvable span within limits,
/// the nice power is between `100` and `SPACING_LIMIT`.
proof fn lemma_nice_power_bounds(span: int)
    requires
        MIN_SPAN <= span <= 2 * VAL_LIMIT,
    ensures
        100 <= nice_power(span) <= SPACING_LIMIT,
        nice_power(span) <= span,
        3 <= digit_count(span as nat) <= 16,
{
    let d = digit_count(span as nat);
    lemma_digit_count_bounds(span as nat);
    assert(pow10(2) == 100) by {
        reveal_with_fuel(pow10, 3);
    }
    assert(pow10(16) == 10_000_000_000_000_000) by {
        reveal_with_fuel(pow10, 17);
    }
    if d <= 2 {
        lemma_pow10_mono(d, 2);
        assert(span < 100);
    }
    lemma_digit_count_le(span as nat, 16);
    assert(pow10(15) == 1_000_000_000_000_000) by {
        reveal_with_fuel(pow10, 16);
    }
    lemma_pow10_mono(2, (d - 1) as nat);
    lemma_pow10_mono((d - 1) as nat, 15);
}

/// The selected spacing divides the nice power exactly and is positive.
proof fn lemma_spacing_bounds(min: int, max: int)
    requires
        min + MIN_SPAN <= max,
        -VAL_LIMIT <= min,
        max <= VAL_LIMIT,
    ensures
        0 < spacing_spec(min, max) <= nice_power(max - min),
        10 * (nice_power(max - min) / 10) == nice_power(max - min),
        4 * (nice_power(max - min) / 4) == nice_power(max - min),
        2 * (nice_power(max - min) / 2) == nice_power(max - min),
{
    let span = max - min;
    let d = digit_count(span as nat);
    let spc = nice_power(span);
    lemma_nice_power_bounds(span);
    let k = (d - 1) as nat;
    assert(spc == pow10(k));
    assert(pow10(k) == 10 * pow10((k - 1) as nat));
    assert(pow10(k) == 10 * (10 * pow10((k - 2) as nat)));
    lemma_pow10_pos((k - 2) as nat);
    let p2 = pow10((k - 2) as nat);
    assert(spc == 100 * p2);
    // exact quotients of the three finer candidates
    assert(spc / 10 == 10 * p2) by {
        lemma_div_multiples_vanish(10 * p2, 10);
        assert(10 * (10 * p2) == spc);
    }
    assert(spc / 4 == 25 * p2) by {
        lemma_div_multiples_vanish(25 * p2, 4);
        assert(4 * (25 * p2) == 100 * p2);
    }
    assert(spc / 2 == 50 * p2) by {
        lemma_div_multiples_vanish(50 * p2, 2);
        assert(2 * (50 * p2) == 100 * p2);
    }
}

impl Numeric {
    /// Create a new numeric scale fitted to the data range `min..max`.
    ///
    /// The range is widened to the containing multiples of a "nice" tick
    /// spacing; a span too narrow to resolve is kept as a degenerate
    /// single-value range without ticks.
    pub fn new(min: i64, max: i64) -> (r: Self)
        requires
            -VAL_LIMIT <= min <= max <= VAL_LIMIT,
        ensures
            is_fitted(r, min as int, max as int),
            scale_wf(r),
    {
        if max - min < MIN_SPAN {
            return Numeric { start: min, stop: max, spacing: 0, inverted: false };
        }
        let span = max - min;
        let dc = digit_count_u64(span as u64);
        proof {
            lemma_nice_power_bounds(span as int);
            lemma_spacing_bounds(min as int, max as int);
        }
        let spc = pow10_i64(dc - 1);
        let q0 = floor_div_i64(min, spc);
        proof {
            lemma_floor_mul(min as int, spc as int);
        }
        let prov_start = q0 * spc;
        proof {
            lemma_ceil_mul(max as int, spc as int);
        }
        let q1 = floor_div_i64(max + spc - 1, spc);
        let prov_stop = q1 * spc;
        let steps = floor_div_i64(prov_stop - prov_start, spc);
        let spc_u = spc as u64;
        let spacing = if steps <= 1 {
            (spc_u / 10) as i64
        } else if steps <= 2 {
            (spc_u / 4) as i64
        } else if steps < 5 {
            (spc_u / 2) as i64
        } else {
            spc
        };
        proof {
            assert(spacing == spacing_spec(min as int, max as int));
            lemma_floor_mul(min as int, spacing as int);
            lemma_ceil_mul(max as int, spacing as int);
        }
        let q2 = floor_div_i64(min, spacing);
        let start = q2 * spacing;
        let q3 = floor_div_i64(max + spacing - 1, spacing);
        let stop = q3 * spacing;
        Numeric { start, stop, spacing, inverted: false }
    }

    /// Return a new scale covering both this range and `rhs`, refitted so
    /// the spacing stays nice for the combined range.
    pub fn union(&self, rhs: Self) -> (r: Self)
        requires
            scale_wf(*self),
            scale_wf(rhs),
            -VAL_LIMIT <= self.start && self.stop <= VAL_LIMIT,
            -VAL_LIMIT <= rhs.start && rhs.stop <= VAL_LIMIT,
        ensures
            is_fitted(
                r,
                if self.start <= rhs.start {
                    self.start as int
                } else {
                    rhs.start as int
                },
                if self.stop >= rhs.stop {
                    self.stop as int
                } else {
                    rhs.stop as int
                },
            ),
            scale_wf(r),
    {
        let a = if self.start <= rhs.start {
            self.start
        } else {
            rhs.start
        };
        let b = if self.stop >= rhs.stop {
            self.stop
        } else {
            rhs.stop
        };
        Numeric::new(a, b)
    }

    /// Return this scale with its direction reversed; range and spacing
    /// are unchanged.
    pub fn inverted(&self) -> (r: Self)
        ensures
            r == (Numeric { inverted: !self.inverted, ..*self }),
    {
        Numeric {
            start: self.start,
            stop: self.stop,
            spacing: self.spacing,
            inverted: !self.inverted,
        }
    }

    /// Get the tick spacing (zero on a degenerate range).
    pub fn tick_spacing(&self) -> (r: i64)
        ensures
            r == self.spacing,
    {
        self.spacing
    }

    /// Normalize a value to its position along the scale, in millionths:
    /// `0` at `start` and `1_000_000` at `stop` (swapped when inverted).
    pub fn normalize(&self, value: i64) -> (r: i64)
        requires
            scale_wf(*self),
        ensures
            r == normalize_spec(*self, value as int),
    {
        let den = self.stop - self.start;
        if den == 0 {
            return 500_000;
        }
        let num: i128 = if self.inverted {
            self.stop as i128 - value as i128
        } else {
            value as i128 - self.start as i128
        };
        let n: i128 = 1_000_000 * num;
        if n >= 0 {
            let q = round_div_u128(n as u128, den as u128);
            if q > i64::MAX as u128 {
                i64::MAX
            } else {
                q as i64
            }
        } else {
            let q = round_div_u128((-n) as u128, den as u128);
            if q > i64::MAX as u128 {
                i64::MIN
            } else {
                -(q as i64)
            }
        }
    }
    /// Generate the ticks of this scale: one for every multiple of the
    /// spacing from `start` to `stop` inclusive, walking downward from
    /// `stop` when the scale is inverted.  A degenerate range has no
    /// ticks.
    pub fn ticks(&self) -> (r: Vec<Tick>)
        requires
            scale_wf(*self),
        ensures
            self.spacing == 0 ==> r@.len() == 0,
            self.spacing > 0 ==> r@.len() == (self.stop - self.start) / (self.spacing as int) + 1,
            forall|i: int|
                #![trigger r@[i]]
                0 <= i < r@.len() ==> r@[i].value == normalize_spec(
                    *self,
                    tick_value_at(*self, i),
                ) && r@[i].text@ == dec_micros(tick_value_at(*self, i)),
    {
        let mut out: Vec<Tick> = Vec::new();
        if self.spacing == 0 {
            return out;
        }
        let sp = self.spacing;
        let ghost q = (self.stop - self.start) / (sp as int);
        proof {
            assert(0 * (sp as int) == 0) by (nonlinear_arith);
        }
        if !self.inverted {
            let mut cur = self.start;
            while cur <= self.stop
                invariant
                    scale_wf(*self),
                    sp == self.spacing,
                    sp > 0,
                    !self.inverted,
                    self.start <= cur <= self.stop + sp,
                    cur == self.start + out@.len() * sp,
                    out@.len() > 0 ==> self.start + (out@.len() - 1) * sp <= self.stop,
                    forall|j: int|
                        #![trigger out@[j]]
                        0 <= j < out@.len() ==> out@[j].value == normalize_spec(
                            *self,
                            tick_value_at(*self, j),
                        ) && out@[j].text@ == dec_micros(tick_value_at(*self, j)),
                decreases self.stop + sp - cur,
            {
                let value = self.normalize(cur);
                let text = micros_str(cur);
                proof {
                    assert(tick_value_at(*self, out@.len() as int) == cur);
                    assert((out@.len() + 1) * sp == out@.len() * sp + sp) by (nonlinear_arith);
                }
                out.push(Tick::new(value, text));
                cur = cur + sp;
            }
            proof {
                let len = out@.len() as int;
                assert(len >= 1);
                let spi = sp as int;
                lemma_fundamental_div_mod(self.start as int, spi);
                lemma_fundamental_div_mod(self.stop as int, spi);
                let k = self.stop as int / spi - self.start as int / spi;
                assert(self.stop - self.start == spi * k) by (nonlinear_arith)
                    requires
                        self.start as int == spi * (self.start as int / spi),
                        self.stop as int == spi * (self.stop as int / spi),
                        k == self.stop as int / spi - self.start as int / spi,
                ;
                lemma_div_multiples_vanish(k, spi);
                assert(q == k);
                assert(self.stop - self.start == sp * q);
                assert(len - 1 <= q) by (nonlinear_arith)
                    requires
                        (len - 1) * sp <= sp * q,
                        sp > 0,
                ;
                assert(q < len) by (nonlinear_arith)
                    requires
                        sp * q < len * sp,
                        sp > 0,
                ;
            }
        } else {
            let mut cur = self.stop;
            while cur >= self.start
                invariant
                    scale_wf(*self),
                    sp == self.spacing,
                    sp > 0,
                    self.inverted,
                    self.start - sp <= cur <= self.stop,
                    cur == self.stop - out@.len() * sp,
                    out@.len() > 0 ==> self.stop - (out@.len() - 1) * sp >= self.start,
                    forall|j: int|
                        #![trigger out@[j]]
                        0 <= j < out@.len() ==> out@[j].value == normalize_spec(
                            *self,
                            tick_value_at(*self, j),
                        ) && out@[j].text@ == dec_micros(tick_value_at(*self, j)),
                decreases cur + sp - self.start,
            {
                let value = self.normalize(cur);
                let text = micros_str(cur);
                proof {
                    assert(tick_value_at(*self, out@.len() as int) == cur);
                    assert((out@.len() + 1) * sp == out@.len() * sp + sp) by (nonlinear_arith);
                }
                out.push(Tick::new(value, text));
                cur = cur - sp;
            }
            proof {
                let len = out@.len() as int;
                assert(len >= 1);
                let spi = sp as int;
                lemma_fundamental_div_mod(self.start as int, spi);
                lemma_fundamental_div_mod(self.stop as int, spi);
                let k = self.stop as int / spi - self.start as int / spi;
                assert(self.stop - self.start == spi * k) by (nonlinear_arith)
                    requires
                        self.start as int == spi * (self.start as int / spi),
                        self.stop as int == spi * (self.stop as int / spi),
                        k == self.stop as int / spi - self.start as int / spi,
                ;
                lemma_div_multiples_vanish(k, spi);
                assert(q == k);
                assert(self.stop - self.start == sp * q);
                assert(len - 1 <= q) by (nonlinear_arith)
                    requires
                        (len - 1) * sp <= sp * q,
                        sp > 0,
                ;
                assert(q < len) by (nonlinear_arith)
                    requires
                        sp * q < len * sp,
                        sp > 0,
                ;
            }
        }
        out
    }
}

/// The data value of the `i`-th tick of scale `s`: multiples of the
/// spacing counted up from `start`, or down from `stop` when inverted.
pub open spec fn tick_value_at(s: Numeric, i: int) -> int {
    if s.inverted {
        s.stop - i * s.spacing
    } else {
        s.start + i * s.spacing
    }
}

/// Scale
#[derive(Clone, Copy, Debug)]
pub enum Scale {
    /// Numeric scale
    Numeric(Numeric),
}

/// The numeric scale under a `Scale`.
pub open spec fn scale_num(s: Scale) -> Numeric {
    match s {
        Scale::Numeric(n) => n,
    }
}

/// The coordinate that a scale reads from a point: `y` for the ordinate
/// axis, `x` for the abscissa.
pub open spec fn coord_of(p: Point, y_axis: bool) -> int {
    if y_axis {
        p.y as int
    } else {
        p.x as int
    }
}

/// The smallest selected coordinate of a non-empty point sequence.
pub open spec fn min_coord(s: Seq<Point>, y_axis: bool) -> int
    decreases s.len(),
{
    if s.len() <= 1 {
        coord_of(s[0], y_axis)
    } else {
        let m = min_coord(s.drop_last(), y_axis);
        if coord_of(s.last(), y_axis) < m {
            coord_of(s.last(), y_axis)
        } else {
            m
        }
    }
}

/// The largest selected coordinate of a non-empty point sequence.
pub open spec fn max_coord(s: Seq<Point>, y_axis: bool) -> int
    decreases s.len(),
{
    if s.len() <= 1 {
        coord_of(s[0], y_axis)
    } else {
        let m = max_coord(s.drop_last(), y_axis);
        if coord_of(s.last(), y_axis) > m {
            coord_of(s.last(), y_axis)
        } else {
            m
        }
    }
}

/// Every coordinate of the point is within the range scale fitting
/// accepts.
pub open spec fn point_bounded(p: Point) -> bool {
    &&& -DATA_LIMIT <= p.x <= DATA_LIMIT
    &&& -DATA_LIMIT <= p.y <= DATA_LIMIT
}

impl Default for Scale {
    /// The unit scale, fitted to the range from zero to one
    fn default() -> (r: Self)
        ensures
            is_fitted(scale_num(r), 0, MICRO as int),
            scale_wf(scale_num(r)),
    {
        Scale::Numeric(Numeric::new(0, MICRO))
    }
}

impl Scale {
    /// Create a scale fitted to one coordinate of a set of data points:
    /// the `y` coordinates when `y_axis` is set, the `x` coordinates
    /// otherwise.  An empty set gives the unit scale.
    pub fn from_data(data: &[Point], y_axis: bool) -> (r: Self)
        requires
            forall|i: int| 0 <= i < data@.len() ==> point_bounded(#[trigger] data@[i]),
        ensures
            data@.len() == 0 ==> is_fitted(scale_num(r), 0, MICRO as int),
            data@.len() > 0 ==> is_fitted(
                scale_num(r),
                min_coord(data@, y_axis),
                max_coord(data@, y_axis),
            ),
            scale_wf(scale_num(r)),
            -VAL_LIMIT <= scale_num(r).start,
            scale_num(r).stop <= VAL_LIMIT,
    {
        if data.len() == 0 {
            let num = Numeric::new(0, MICRO);
            proof {
                lemma_fitted_contains(num, 0, MICRO as int);
            }
            return Scale::Numeric(num);
        }
        let p0 = data[0];
        let mut min = if y_axis {
            p0.y
        } else {
            p0.x
        };
        let mut max = min;
        let mut i: usize = 1;
        proof {
            assert(data@.subrange(0, 1) =~= seq![data@[0]]);
        }
        while i < data.len()
            invariant
                1 <= i <= data@.len(),
                forall|j: int| 0 <= j < data@.len() ==> point_bounded(#[trigger] data@[j]),
                min == min_coord(data@.subrange(0, i as int), y_axis),
                max == max_coord(data@.subrange(0, i as int), y_axis),
                min <= max,
                -DATA_LIMIT <= min,
                max <= DATA_LIMIT,
            decreases data@.len() - i,
        {
            let p = data[i];
            let c = if y_axis {
                p.y
            } else {
                p.x
            };
            proof {
                assert(data@.subrange(0, i as int + 1).drop_last() =~= data@.subrange(0, i as int));
                assert(data@.subrange(0, i as int + 1).last() == data@[i as int]);
            }
            if c < min {
                min = c;
            }
            if c > max {
                max = c;
            }
            i = i + 1;
        }
        proof {
            assert(data@.subrange(0, data@.len() as int) =~= data@);
        }
        let num = Numeric::new(min, max);
        proof {
            lemma_fitted_contains(num, min as int, max as int);
        }
        Scale::Numeric(num)
    }

    /// Return a new scale covering both this range and `rhs`, refitted so
    /// the spacing stays nice for the combined range.
    pub fn union(&self, rhs: Self) -> (r: Self)
        requires
            scale_wf(scale_num(*self)),
            scale_wf(scale_num(rhs)),
            -VAL_LIMIT <= scale_num(*self).start && scale_num(*self).stop <= VAL_LIMIT,
            -VAL_LIMIT <= scale_num(rhs).start && scale_num(rhs).stop <= VAL_LIMIT,
        ensures
            is_fitted(
                scale_num(r),
                if scale_num(*self).start <= scale_num(rhs).start {
                    scale_num(*self).start as int
                } else {
                    scale_num(rhs).start as int
                },
                if scale_num(*self).stop >= scale_num(rhs).stop {
                    scale_num(*self).stop as int
                } else {
                    scale_num(rhs).stop as int
                },
            ),
            scale_wf(scale_num(r)),
    {
        match (self, rhs) {
            (Scale::Numeric(num), Scale::Numeric(rhs)) => Scale::Numeric(num.union(rhs)),
        }
    }

    /// Return this scale with its direction reversed.
    pub fn inverted(&self) -> (r: Self)
        ensures
            scale_num(r) == (Numeric { inverted: !scale_num(*self).inverted, ..scale_num(*self) }),
    {
        match self {
            Scale::Numeric(num) => Scale::Numeric(num.inverted()),
        }
    }

    /// Normalize a value to its position along the scale, in millionths.
    pub fn normalize(&self, value: i64) -> (r: i64)
        requires
            scale_wf(scale_num(*self)),
        ensures
            r == normalize_spec(scale_num(*self), value as int),
    {
        match self {
            Scale::Numeric(num) => num.normalize(value),
        }
    }

    /// Generate the ticks of this scale.
    pub fn ticks(&self) -> (r: Vec<Tick>)
        requires
            scale_wf(scale_num(*self)),
        ensures
            scale_num(*self).spacing == 0 ==> r@.len() == 0,
            scale_num(*self).spacing > 0 ==> r@.len() == (scale_num(*self).stop - scale_num(
                *self,
            ).start) / (scale_num(*self).spacing as int) + 1,
            forall|i: int|
                #![trigger r@[i]]
                0 <= i < r@.len() ==> r@[i].value == normalize_spec(
                    scale_num(*self),
                    tick_value_at(scale_num(*self), i),
                ) && r@[i].text@ == dec_micros(tick_value_at(scale_num(*self), i)),
    {
        match self {
            Scale::Numeric(num) => num.ticks(),
        }
    }
}

/// A fitted scale contains its data range, and its endpoints are exact
/// multiples of the tick spacing whenever the span is wide enough to
/// resolve ticks at all.
pub proof fn lemma_fitted_contains(r: Numeric, min: int, max: int)
    requires
        -VAL_LIMIT <= min <= max <= VAL_LIMIT,
        is_fitted(r, min, max),
    ensures
        min - SPACING_LIMIT < r.start <= min,
        max <= r.stop < max + SPACING_LIMIT,
        max - min >= MIN_SPAN ==> r.spacing > 0 && r.start % r.spacing == 0 && r.stop % r.spacing
            == 0,
{
    if max - min >= MIN_SPAN {
        let sp = spacing_spec(min, max);
        lemma_nice_power_bounds(max - min);
        lemma_spacing_bounds(min, max);
        lemma_floor_mul(min, sp);
        lemma_ceil_mul(max, sp);
    }
}

/// Normalizing a value inside the scale's range gives a position inside
/// the unit range: between zero and one million millionths.
pub proof fn lemma_normalize_in_range(s: Numeric, v: int)
    requires
        s.start <= v <= s.stop,
        s.stop > s.start,
    ensures
        0 <= normalize_spec(s, v) <= NORM_ONE,
{
    let den = s.stop - s.start;
    let num = if s.inverted {
        s.stop - v
    } else {
        v - s.start
    };
    let n = (NORM_ONE as int) * num;
    assert(0 <= num <= den);
    assert(0 <= n <= (NORM_ONE as int) * den);
    let q = (2 * n + den) / (2 * den);
    vstd::arithmetic::div_mod::lemma_div_pos_is_pos(2 * n + den, 2 * den);
    vstd::arithmetic::div_mod::lemma_div_is_ordered(
        2 * n + den,
        2 * ((NORM_ONE as int) * den) + den,
        2 * den,
    );
    assert(2 * ((NORM_ONE as int) * den) + den == (NORM_ONE as int) * (2 * den) + den)
        by (nonlinear_arith);
    lemma_fundamental_div_mod_converse_div(
        (NORM_ONE as int) * (2 * den) + den,
        2 * den,
        NORM_ONE as int,
        den,
    );
}

/// Every tick of a well-formed scale lies inside the scale's range, and
/// its normalized position lies inside the unit range.
pub proof fn lemma_tick_in_range(s: Numeric, i: int)
    requires
        scale_wf(s),
        s.spacing > 0,
        0 <= i <= (s.stop - s.start) / (s.spacing as int),
    ensures
        s.start <= tick_value_at(s, i) <= s.stop,
        0 <= normalize_spec(s, tick_value_at(s, i)) <= NORM_ONE,
{
    let sp = s.spacing as int;
    let q = (s.stop - s.start) / sp;
    lemma_fundamental_div_mod(s.start as int, sp);
    lemma_fundamental_div_mod(s.stop as int, sp);
    let k = s.stop as int / sp - s.start as int / sp;
    assert(s.stop - s.start == sp * k) by (nonlinear_arith)
        requires
            s.start as int == sp * (s.start as int / sp),
            s.stop as int == sp * (s.stop as int / sp),
            k == s.stop as int / sp - s.start as int / sp,
    ;
    lemma_div_multiples_vanish(k, sp);
    assert(q == k);
    assert(0 <= i * sp <= q * sp) by (nonlinear_arith)
        requires
            0 <= i <= q,
            sp > 0,
    ;
    assert(sp * q == q * sp) by (nonlinear_arith);
    lemma_normalize_in_range(s, tick_value_at(s, i));
}

/// The tick walk covers the range inclusively: the first tick sits on one
/// end of the range and the last tick on the other, because both ends are
/// exact multiples of the spacing by construction.
pub proof fn lemma_ticks_cover_range(s: Numeric)
    requires
        scale_wf(s),
        s.spacing > 0,
    ensures
        tick_value_at(s, 0) == if s.inverted {
            s.stop as int
        } else {
            s.start as int
        },
        tick_value_at(s, (s.stop - s.start) / (s.spacing as int)) == if s.inverted {
            s.start as int
        } else {
            s.stop as int
        },
{
    let sp = s.spacing as int;
    let q = (s.stop - s.start) / sp;
    lemma_fundamental_div_mod(s.start as int, sp);
    lemma_fundamental_div_mod(s.stop as int, sp);
    let k = s.stop as int / sp - s.start as int / sp;
    assert(s.stop - s.start == sp * k) by (nonlinear_arith)
        requires
            s.start as int == sp * (s.start as int / sp),
            s.stop as int == sp * (s.stop as int / sp),
            k == s.stop as int / sp - s.start as int / sp,
    ;
    lemma_div_multiples_vanish(k, sp);
    assert(q * sp == sp * q) by (nonlinear_arith);
    assert(0 * sp == 0) by (nonlinear_arith);
}

/// Normalizing a non-degenerate scale's own endpoints gives the exact ends
/// of the unit range: `start` maps to `0` and `stop` to one million
/// (swapped when the scale is inverted).
pub proof fn lemma_normalize_endpoints(s: Numeric)
    requires
        scale_wf(s),
        s.stop > s.start,
    ensures
        normalize_spec(s, s.start as int) == if s.inverted {
            NORM_ONE as int
        } else {
            0
        },
        normalize_spec(s, s.stop as int) == if s.inverted {
            0
        } else {
            NORM_ONE as int
        },
{
    let den = s.stop - s.start;
    crate::num::lemma_round_div_exact(0, den);
    crate::num::lemma_round_div_exact(NORM_ONE as int, den);
    assert(NORM_ONE * (s.stop - s.start) == (NORM_ONE as int) * den);
    assert(NORM_ONE * 0 == 0) by (nonlinear_arith);
}

} // verus!
