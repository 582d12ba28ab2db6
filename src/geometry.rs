//! Sizes in logical and physical pixels, and the scale factor between them.

use vstd::prelude::*;

verus! {

/// A size in logical (device independent) pixels.
#[derive(Clone, Copy, Debug, PartialEq, Eq, Structural)]
pub struct LogicalSize {
    pub width: u32,
    pub height: u32,
}

/// A size in physical (device) pixels.
#[derive(Clone, Copy, Debug, PartialEq, Eq, Structural)]
pub struct PhysicalSize {
    pub width: u64,
    pub height: u64,
}

/// Device pixels per logical pixel, as the exact ratio `num / den`.
#[derive(Clone, Copy, Debug, PartialEq, Eq, Structural)]
pub struct ScaleFactor {
    pub num: u32,
    pub den: u32,
}

/// `x * num / den`, rounded to the nearest integer, halves upward.
pub open spec fn scaled(x: nat, num: nat, den: nat) -> nat
    recommends
        den > 0,
{
    (x * num + den / 2) / den
}

impl ScaleFactor {
    pub open spec fn wf(self) -> bool {
        self.den > 0
    }

    /// The scale factor `num / den`; `None` when `den` is zero.
    pub fn new(num: u32, den: u32) -> (r: Option<ScaleFactor>)
        ensures
            den > 0 <==> r is Some,
            r matches Some(s) ==> s.wf() && s.num == num && s.den == den,
    {
        if den == 0 {
            None
        } else {
            Some(ScaleFactor { num, den })
        }
    }

    /// A factor of one: logical and physical pixels coincide.
    pub fn identity() -> (r: ScaleFactor)
        ensures
            r.wf(),
            r.num == r.den,
    {
        ScaleFactor { num: 1, den: 1 }
    }

    pub open spec fn apply(self, x: nat) -> nat {
        scaled(x, self.num as nat, self.den as nat)
    }

    /// One length scaled from logical to physical pixels.
    pub fn scale(&self, x: u32) -> (r: u64)
        requires
            self.wf(),
        ensures
            r == self.apply(x as nat),
    {
        let xn: u64 = x as u64;
        let n: u64 = self.num as u64;
        proof {
            assert(xn * n <= 0xFFFF_FFFE_0000_0001u64) by (nonlinear_arith)
                requires
                    xn <= 0xFFFF_FFFFu64,
                    n <= 0xFFFF_FFFFu64,
            ;
        }
        let p: u64 = xn * n + (self.den as u64) / 2;
        p / (self.den as u64)
    }
}

impl LogicalSize {
    pub open spec fn to_physical_spec(self, s: ScaleFactor) -> PhysicalSize {
        PhysicalSize { width: s.apply(self.width as nat) as u64, height: s.apply(self.height as nat) as u64 }
    }

    /// This size in physical pixels: each side times the scale factor.
    pub fn to_physical(&self, s: &ScaleFactor) -> (r: PhysicalSize)
        requires
            s.wf(),
        ensures
            r.width == s.apply(self.width as nat),
            r.height == s.apply(self.height as nat),
            r == self.to_physical_spec(*s),
    {
        PhysicalSize { width: s.scale(self.width), height: s.scale(self.height) }
    }
}

} // verus!
