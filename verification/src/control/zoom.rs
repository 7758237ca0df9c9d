//! Zooming by a fixed factor with the new distance clamped between the clip
//! planes.

use vstd::prelude::*;
use crate::arith::{
    clamp,
    clamp_i128,
    lemma_product_bound,
    quot,
    quot_away,
    quot_away_i128,
    quot_i128,
};

verus! {

/// The factors by which a controller scales a distance.
#[derive(Clone, Copy, Debug, PartialEq, Eq, Structural)]
pub enum ZoomFactor {
    /// 0.8
    FourFifths,
    /// 1.2
    SixFifths,
    /// 0.9
    NineTenths,
    /// 1 / 0.9
    TenNinths,
}

impl ZoomFactor {
    pub open spec fn num(self) -> int {
        match self {
            ZoomFactor::FourFifths => 4,
            ZoomFactor::SixFifths => 6,
            ZoomFactor::NineTenths => 9,
            ZoomFactor::TenNinths => 10,
        }
    }

    pub open spec fn den(self) -> int {
        match self {
            ZoomFactor::FourFifths => 5,
            ZoomFactor::SixFifths => 5,
            ZoomFactor::NineTenths => 10,
            ZoomFactor::TenNinths => 9,
        }
    }

    /// Whether the factor is below one.
    pub open spec fn shrinks(self) -> bool {
        self.num() < self.den()
    }

    /// `x` times the factor, as a whole number. A factor below one rounds
    /// toward zero and a factor above one away from zero, so that a step
    /// never rounds back to where it started.
    pub open spec fn scaled(self, x: int) -> int {
        if self.shrinks() {
            quot(x * self.num(), self.den())
        } else {
            quot_away(x * self.num(), self.den())
        }
    }

    /// Computes [`ZoomFactor::scaled`].
    pub fn scale(self, x: i64) -> (y: i128)
        ensures
            y == self.scaled(x as int),
            x >= 1 && self.shrinks() ==> 0 <= y < x,
            x >= 1 && !self.shrinks() ==> y > x,
    {
        let (num, den) = self.fraction();
        proof {
            lemma_product_bound(x as int, num as int, 0x8000_0000_0000_0000, 10);
            if x >= 1 {
                lemma_scaled_moves(self, x as int);
            }
        }
        let product: i128 = x as i128 * num;
        if num < den {
            quot_i128(product, den)
        } else {
            quot_away_i128(product, den)
        }
    }

    /// The numerator and the denominator of the factor.
    pub fn fraction(self) -> (f: (i128, i128))
        ensures
            f.0 == self.num(),
            f.1 == self.den(),
    {
        match self {
            ZoomFactor::FourFifths => (4, 5),
            ZoomFactor::SixFifths => (6, 5),
            ZoomFactor::NineTenths => (9, 10),
            ZoomFactor::TenNinths => (10, 9),
        }
    }
}

/// The distance after one zoom step: `distance` scaled by the factor, raised
/// to `z_near` and then lowered to `z_far`.
pub open spec fn zoomed_distance(distance: int, factor: ZoomFactor, z_near: int, z_far: int) -> int {
    clamp(factor.scaled(distance), z_near, z_far)
}

/// The distance after the first `n` of a sequence of zoom steps.
pub open spec fn zoomed_repeatedly(
    distance: int,
    factors: Seq<ZoomFactor>,
    z_near: int,
    z_far: int,
    n: nat,
) -> int
    decreases n,
{
    if n == 0 {
        distance
    } else {
        zoomed_distance(
            zoomed_repeatedly(distance, factors, z_near, z_far, (n - 1) as nat),
            factors[n - 1],
            z_near,
            z_far,
        )
    }
}

/// However often and in whichever direction one zooms, a distance that
/// starts between the clip planes stays between them.
pub proof fn lemma_zoom_stays_between_clip_planes(
    distance: int,
    factors: Seq<ZoomFactor>,
    z_near: int,
    z_far: int,
    n: nat,
)
    requires
        z_near <= distance <= z_far,
    ensures
        z_near <= zoomed_repeatedly(distance, factors, z_near, z_far, n) <= z_far,
    decreases n,
{
    if n > 0 {
        lemma_zoom_stays_between_clip_planes(distance, factors, z_near, z_far, (n - 1) as nat);
    }
}

/// A zoom step moves: a factor below one makes a distance of at least one
/// unit smaller, a factor above one makes it larger.
pub proof fn lemma_scaled_moves(factor: ZoomFactor, x: int)
    requires
        x >= 1,
    ensures
        factor.shrinks() ==> 0 <= factor.scaled(x) < x,
        !factor.shrinks() ==> factor.scaled(x) > x,
{
    match factor {
        ZoomFactor::FourFifths => {
            assert(factor.scaled(x) == (x * 4) / 5);
        },
        ZoomFactor::NineTenths => {
            assert(factor.scaled(x) == (x * 9) / 10);
        },
        ZoomFactor::SixFifths => {
            assert(factor.scaled(x) == (x * 6 + 4) / 5);
        },
        ZoomFactor::TenNinths => {
            assert(factor.scaled(x) == (x * 10 + 8) / 9);
        },
    }
}

/// Computes [`zoomed_distance`]. With `z_near <= z_far` the result lies
/// between the two.
pub fn zoom_distance(distance: i64, factor: ZoomFactor, z_near: i64, z_far: i64) -> (d: i64)
    ensures
        d == zoomed_distance(distance as int, factor, z_near as int, z_far as int),
        z_near <= z_far ==> z_near <= d <= z_far,
{
    let scaled: i128 = factor.scale(distance);
    let d: i128 = clamp_i128(scaled, z_near as i128, z_far as i128);
    d as i64
}

} // verus!
