//! A pair of signed integer coordinates.

use vstd::prelude::*;
use vstd::std_specs::convert::FromSpecImpl;
use vstd::std_specs::ops::{AddSpecImpl, DivSpecImpl, MulSpecImpl, SubSpecImpl};

verus! {

/// A point or an extent on the integer plane.
#[derive(Debug, Clone, Copy, PartialEq, Eq, Structural)]
pub struct Vec2Int {
    pub x: i32,
    pub y: i32,
}

/// `value` held between `low` and `high`: first raised to `low`, then
/// lowered to `high`, so `high` wins where the two bounds cross.
pub open spec fn clamped(value: int, low: int, high: int) -> int {
    let raised = if value < low {
        low
    } else {
        value
    };
    if raised > high {
        high
    } else {
        raised
    }
}

/// The quotient of `value` by `divisor`, rounded toward zero, written over
/// the floor-style division of specifications.
pub open spec fn toward_zero(value: int, divisor: int) -> int {
    if value >= 0 {
        value / divisor
    } else {
        -((-value) / divisor)
    }
}

/// Whether `value` is a valid `i32`.
pub open spec fn fits_i32(value: int) -> bool {
    i32::MIN <= value <= i32::MAX
}

impl Vec2Int {
    /// The origin.
    pub fn zero() -> (v: Self)
        ensures
            v == (Vec2Int { x: 0, y: 0 }),
    {
        Vec2Int { x: 0, y: 0 }
    }

    /// One step along both axes.
    pub fn one() -> (v: Self)
        ensures
            v == (Vec2Int { x: 1, y: 1 }),
    {
        Vec2Int { x: 1, y: 1 }
    }

    /// One step up: the up axis is `+y`.
    pub fn up() -> (v: Self)
        ensures
            v == (Vec2Int { x: 0, y: 1 }),
    {
        Vec2Int { x: 0, y: 1 }
    }

    /// One step to the right: `+x`.
    pub fn right() -> (v: Self)
        ensures
            v == (Vec2Int { x: 1, y: 0 }),
    {
        Vec2Int { x: 1, y: 0 }
    }

    /// The vector with the given components.
    pub fn new(x: i32, y: i32) -> (v: Self)
        ensures
            v.x == x,
            v.y == y,
    {
        Vec2Int { x, y }
    }

    /// The components as unsigned sizes, or an error when either is
    /// negative.
    pub fn into_raw_usize(self) -> (r: Result<(usize, usize), &'static str>)
        ensures
            r.is_err() <==> self.x < 0 || self.y < 0,
            r matches Ok(pair) ==> pair.0 == self.x && pair.1 == self.y,
            r matches Err(message) ==> message@
                == "This is a negative number! Cannot cast to usize intelligently."@,
    {
        if self.x < 0 || self.y < 0 {
            Err("This is a negative number! Cannot cast to usize intelligently.")
        } else {
            Ok((self.x as usize, self.y as usize))
        }
    }

    /// The components as unsigned 32-bit values. Neither may be negative.
    pub fn to_bits(self) -> (bits: [u32; 2])
        requires
            self.x >= 0,
            self.y >= 0,
        ensures
            bits[0] == self.x,
            bits[1] == self.y,
    {
        [self.x as u32, self.y as u32]
    }

    /// Holds each component between the matching components of `min_vec`
    /// and `max_vec`.
    pub fn clamp_components(&mut self, min_vec: &Vec2Int, max_vec: &Vec2Int)
        ensures
            final(self).x == clamped(old(self).x as int, min_vec.x as int, max_vec.x as int),
            final(self).y == clamped(old(self).y as int, min_vec.y as int, max_vec.y as int),
    {
        let raised_x = if self.x < min_vec.x {
            min_vec.x
        } else {
            self.x
        };
        let raised_y = if self.y < min_vec.y {
            min_vec.y
        } else {
            self.y
        };
        self.x = if raised_x > max_vec.x {
            max_vec.x
        } else {
            raised_x
        };
        self.y = if raised_y > max_vec.y {
            max_vec.y
        } else {
            raised_y
        };
    }
}

/// The origin.
impl Default for Vec2Int {
    fn default() -> (v: Self)
        ensures
            v == (Vec2Int { x: 0, y: 0 }),
    {
        Vec2Int { x: 0, y: 0 }
    }
}

/// The sum, component by component. Neither component may overflow.
impl std::ops::Add<Vec2Int> for Vec2Int {
    type Output = Vec2Int;

    fn add(self, rhs: Vec2Int) -> (sum: Vec2Int) {
        Vec2Int { x: self.x + rhs.x, y: self.y + rhs.y }
    }
}

impl AddSpecImpl<Vec2Int> for Vec2Int {
    open spec fn obeys_add_spec() -> bool {
        true
    }

    open spec fn add_req(self, rhs: Vec2Int) -> bool {
        fits_i32(self.x + rhs.x) && fits_i32(self.y + rhs.y)
    }

    open spec fn add_spec(self, rhs: Vec2Int) -> Vec2Int {
        Vec2Int { x: (self.x + rhs.x) as i32, y: (self.y + rhs.y) as i32 }
    }
}

/// The difference, component by component. Neither component may
/// overflow.
impl std::ops::Sub<Vec2Int> for Vec2Int {
    type Output = Vec2Int;

    fn sub(self, rhs: Vec2Int) -> (difference: Vec2Int) {
        Vec2Int { x: self.x - rhs.x, y: self.y - rhs.y }
    }
}

impl SubSpecImpl<Vec2Int> for Vec2Int {
    open spec fn obeys_sub_spec() -> bool {
        true
    }

    open spec fn sub_req(self, rhs: Vec2Int) -> bool {
        fits_i32(self.x - rhs.x) && fits_i32(self.y - rhs.y)
    }

    open spec fn sub_spec(self, rhs: Vec2Int) -> Vec2Int {
        Vec2Int { x: (self.x - rhs.x) as i32, y: (self.y - rhs.y) as i32 }
    }
}

/// Both components multiplied by a factor. Neither product may overflow.
impl std::ops::Mul<i32> for Vec2Int {
    type Output = Vec2Int;

    fn mul(self, rhs: i32) -> (product: Vec2Int) {
        Vec2Int { x: self.x * rhs, y: self.y * rhs }
    }
}

impl MulSpecImpl<i32> for Vec2Int {
    open spec fn obeys_mul_spec() -> bool {
        true
    }

    open spec fn mul_req(self, rhs: i32) -> bool {
        fits_i32(self.x * rhs) && fits_i32(self.y * rhs)
    }

    open spec fn mul_spec(self, rhs: i32) -> Vec2Int {
        Vec2Int { x: (self.x * rhs) as i32, y: (self.y * rhs) as i32 }
    }
}

/// Both components divided by a divisor, rounded toward zero. The
/// divisor may not be zero, nor -1 where a component is the least `i32`.
impl std::ops::Div<i32> for Vec2Int {
    type Output = Vec2Int;

    fn div(self, rhs: i32) -> (quotient: Vec2Int) {
        Vec2Int { x: self.x / rhs, y: self.y / rhs }
    }
}

impl DivSpecImpl<i32> for Vec2Int {
    open spec fn obeys_div_spec() -> bool {
        true
    }

    open spec fn div_req(self, rhs: i32) -> bool {
        rhs != 0 && (rhs == -1 ==> self.x != i32::MIN && self.y != i32::MIN)
    }

    open spec fn div_spec(self, rhs: i32) -> Vec2Int {
        Vec2Int {
            x: toward_zero(self.x as int, rhs as int) as i32,
            y: toward_zero(self.y as int, rhs as int) as i32,
        }
    }
}

/// The components as an array, `x` first.
impl From<Vec2Int> for [i32; 2] {
    fn from(w: Vec2Int) -> (pair: [i32; 2]) {
        [w.x, w.y]
    }
}

impl FromSpecImpl<Vec2Int> for [i32; 2] {
    open spec fn obeys_from_spec() -> bool {
        true
    }

    open spec fn from_spec(w: Vec2Int) -> [i32; 2] {
        [w.x, w.y]
    }
}

/// The vector whose components are the array's, `x` first.
impl From<[i32; 2]> for Vec2Int {
    fn from(w: [i32; 2]) -> (v: Vec2Int) {
        Vec2Int { x: w[0], y: w[1] }
    }
}

impl FromSpecImpl<[i32; 2]> for Vec2Int {
    open spec fn obeys_from_spec() -> bool {
        true
    }

    open spec fn from_spec(w: [i32; 2]) -> Vec2Int {
        Vec2Int { x: w[0], y: w[1] }
    }
}

} // verus!
