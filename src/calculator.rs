use vstd::prelude::*;

use crate::escape::EscapeRun;

verus! {

/// Why a viewport configuration was refused.
#[derive(Debug, Clone, Copy, PartialEq, Eq, Structural)]
pub enum ConfigError {
    /// The viewport is zero pixels wide.
    ZeroWidth,
    /// The viewport is zero pixels high.
    ZeroHeight,
}

/// The non-negative rational number `num / den`, kept unreduced.
#[derive(Debug, Clone, Copy, PartialEq, Eq, Structural)]
pub struct Fraction {
    pub num: u32,
    pub den: u32,
}

/// The caller-chosen part of a configuration: viewport size in pixels and
/// the iteration budget of the escape-time test.
#[derive(Debug, Clone, Copy, PartialEq, Eq, Structural)]
pub struct Viewport {
    pub width: u32,
    pub height: u32,
    pub iterations: u32,
}

/// Complex-plane units per pixel. The visible region is about 3 units wide
/// and 2 units high: a viewport wider than 3:2 is scaled by its height,
/// any other by its width. (`width > 1.5 * height` is `2 * width > 3 * height`.)
pub open spec fn scale_ratio(width: u32, height: u32) -> Fraction {
    if 2 * width > 3 * height {
        Fraction { num: 2, den: height }
    } else {
        Fraction { num: 3, den: width }
    }
}

/// The viewport that a configuration request yields, or why it is refused.
pub open spec fn configure(width: u32, height: u32, iterations: u32) -> Result<Viewport, ConfigError> {
    if width == 0 {
        Err(ConfigError::ZeroWidth)
    } else if height == 0 {
        Err(ConfigError::ZeroHeight)
    } else {
        Ok(Viewport { width, height, iterations })
    }
}

/// The viewport after a reconfiguration request on `prev`: a refused request
/// leaves it as it was.
pub open spec fn reconfigure(prev: Viewport, width: u32, height: u32, iterations: u32) -> Viewport {
    match configure(width, height, iterations) {
        Ok(v) => v,
        Err(_) => prev,
    }
}

/// Reconfiguring twice with the same arguments leaves the same viewport,
/// and so the same scale ratio, as reconfiguring once.
pub proof fn lemma_reconfigure_idempotent(prev: Viewport, width: u32, height: u32, iterations: u32)
    ensures
        ({
            let once = reconfigure(prev, width, height, iterations);
            let twice = reconfigure(once, width, height, iterations);
            &&& twice == once
            &&& scale_ratio(twice.width, twice.height) == scale_ratio(once.width, once.height)
        }),
{
}

/// The complex number `(re_num + im_num * i) / den`.
#[derive(Debug, Clone, Copy, PartialEq, Eq, Structural)]
pub struct ComplexPoint {
    pub re_num: i64,
    pub im_num: i64,
    pub den: u64,
}

/// The point that pixel column `x`, row `y` stands for under viewport `v`,
/// over the common denominator `6 * ratio.den`:
/// real part `(x - width / 1.5) * ratio`, imaginary part `(height / 2 - y) * ratio`.
/// The real axis is centred at two thirds of the width, not at half of it,
/// so that the main body of the set, around `-0.5`, sits inside the view;
/// rows grow downwards while the imaginary axis grows upwards.
pub open spec fn point_of(v: Viewport, x: u32, y: u32) -> (int, int, int) {
    let r = scale_ratio(v.width, v.height);
    (2 * (3 * x - 2 * v.width) * r.num, 3 * (v.height - 2 * y) * r.num, 6 * r.den)
}

/// The mapped point's parts, as fractions over its denominator, are
/// `(x - 2 * width / 3) * ratio` and `(height / 2 - y) * ratio`.
pub proof fn lemma_point_value(v: Viewport, x: u32, y: u32)
    ensures
        ({
            let (re, im, den) = point_of(v, x, y);
            let r = scale_ratio(v.width, v.height);
            &&& re * (3 * r.den) == (3 * x - 2 * v.width) * r.num * den
            &&& im * (2 * r.den) == (v.height - 2 * y) * r.num * den
        }),
{
    let r = scale_ratio(v.width, v.height);
    let a: int = 3 * x - 2 * v.width;
    let b: int = v.height - 2 * y;
    let n: int = r.num as int;
    let d: int = r.den as int;
    assert(2 * a * n * (3 * d) == a * n * (6 * d)) by (nonlinear_arith);
    assert(3 * b * n * (2 * d) == b * n * (6 * d)) by (nonlinear_arith);
}

/// A configured calculator: a viewport with non-zero sides and the scale
/// ratio derived from it.
#[derive(Debug, Clone, Copy, PartialEq, Eq, Structural)]
pub struct MandelbrotCalculator {
    width: u32,
    height: u32,
    ratio: Fraction,
    iterations: u32,
}

impl View for MandelbrotCalculator {
    type V = Viewport;

    closed spec fn view(&self) -> Viewport {
        Viewport { width: self.width, height: self.height, iterations: self.iterations }
    }
}

/// The scale ratio of a viewport, computed from its sides alone.
fn compute_ratio(width: u32, height: u32) -> (r: Fraction)
    ensures
        r == scale_ratio(width, height),
{
    if 2 * (width as u64) > 3 * (height as u64) {
        Fraction { num: 2, den: height }
    } else {
        Fraction { num: 3, den: width }
    }
}

impl MandelbrotCalculator {
    /// Sides non-zero, and the stored ratio is the one the sides give.
    pub closed spec fn wf(&self) -> bool {
        &&& self.width > 0
        &&& self.height > 0
        &&& self.ratio == scale_ratio(self.width, self.height)
    }

    /// The one place where a viewport and its ratio are put together.
    fn configured(width: u32, height: u32, iterations: u32) -> (r: Self)
        requires
            width > 0,
            height > 0,
        ensures
            r.wf(),
            r@ == (Viewport { width, height, iterations }),
    {
        MandelbrotCalculator { width, height, ratio: compute_ratio(width, height), iterations }
    }

    /// A calculator for a `width` by `height` viewport and an iteration
    /// budget; a zero side is refused.
    pub fn new(width: u32, height: u32, iterations: u32) -> (r: Result<Self, ConfigError>)
        ensures
            r is Err <==> (width == 0 || height == 0),
            match r {
                Ok(c) => c.wf() && configure(width, height, iterations) == Ok::<Viewport, ConfigError>(c@),
                Err(e) => configure(width, height, iterations) == Err::<Viewport, ConfigError>(e),
            },
    {
        if width == 0 {
            Err(ConfigError::ZeroWidth)
        } else if height == 0 {
            Err(ConfigError::ZeroHeight)
        } else {
            Ok(Self::configured(width, height, iterations))
        }
    }

    /// Replaces the viewport and iteration budget and recomputes the ratio;
    /// a zero side is refused and leaves the calculator unchanged.
    pub fn change_config(&mut self, width: u32, height: u32, iterations: u32) -> (r: Result<(), ConfigError>)
        requires
            old(self).wf(),
        ensures
            final(self).wf(),
            final(self)@ == reconfigure(old(self)@, width, height, iterations),
            r is Err <==> (width == 0 || height == 0),
            match r {
                Ok(()) => configure(width, height, iterations) == Ok::<Viewport, ConfigError>(final(self)@),
                Err(e) => configure(width, height, iterations) == Err::<Viewport, ConfigError>(e)
                    && *final(self) == *old(self),
            },
    {
        match Self::new(width, height, iterations) {
            Ok(c) => {
                *self = c;
                Ok(())
            },
            Err(e) => Err(e),
        }
    }

    /// The complex point that pixel column `x`, row `y` stands for.
    pub fn screen_to_complex(&self, x: u32, y: u32) -> (p: ComplexPoint)
        requires
            self.wf(),
        ensures
            (p.re_num as int, p.im_num as int, p.den as int) == point_of(self@, x, y),
            p.den > 0,
    {
        let n = self.ratio.num as i64;
        let re_offset: i64 = 3 * (x as i64) - 2 * (self.width as i64);
        let im_offset: i64 = (self.height as i64) - 2 * (y as i64);
        assert(-0x2_0000_0000 <= re_offset <= 0x3_0000_0000);
        assert(-0x2_0000_0000 <= im_offset <= 0x1_0000_0000);
        assert(0 <= n <= 3);
        assert(-0x20_0000_0000 <= 2 * re_offset * n <= 0x20_0000_0000) by (nonlinear_arith)
            requires
                -0x2_0000_0000 <= re_offset <= 0x3_0000_0000,
                0 <= n <= 3,
        ;
        assert(-0x20_0000_0000 <= 3 * im_offset * n <= 0x20_0000_0000) by (nonlinear_arith)
            requires
                -0x2_0000_0000 <= im_offset <= 0x1_0000_0000,
                0 <= n <= 3,
        ;
        ComplexPoint {
            re_num: 2 * re_offset * n,
            im_num: 3 * im_offset * n,
            den: 6 * (self.ratio.den as u64),
        }
    }

    /// A fresh escape-time run with this calculator's iteration budget.
    pub fn escape_run(&self) -> (r: EscapeRun)
        ensures
            r@ == (0nat, self@.iterations as nat),
    {
        EscapeRun::new(self.iterations)
    }

    pub fn width(&self) -> (r: u32)
        ensures
            r == self@.width,
    {
        self.width
    }

    pub fn height(&self) -> (r: u32)
        ensures
            r == self@.height,
    {
        self.height
    }

    pub fn iterations(&self) -> (r: u32)
        ensures
            r == self@.iterations,
    {
        self.iterations
    }

    /// Complex-plane units per pixel.
    pub fn ratio(&self) -> (r: Fraction)
        requires
            self.wf(),
        ensures
            r == scale_ratio(self@.width, self@.height),
            r.den > 0,
    {
        self.ratio
    }
}

} // verus!
