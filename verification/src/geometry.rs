//! Places on the map and the health of what stands there.

use vstd::prelude::*;
use crate::fixed::{is_floor_sqrt, isqrt};

verus! {

/// The largest magnitude of a coordinate for which distances are computed.
pub const COORDINATE_MAX: i64 = 0x3FFF_FFFF_FFFF_FFFF;

/// A point, each coordinate in thousandths.
#[derive(Debug, Clone, Copy, PartialEq, Eq, Structural)]
pub struct Position {
    pub x: i64,
    pub y: i64,
}

impl Position {
    /// Both coordinates lie within `COORDINATE_MAX` of the origin.
    pub open spec fn in_range(&self) -> bool {
        &&& -COORDINATE_MAX <= self.x <= COORDINATE_MAX
        &&& -COORDINATE_MAX <= self.y <= COORDINATE_MAX
    }

    /// The square of the straight-line distance to `other`, in millionths.
    pub open spec fn distance_squared(&self, other: &Position) -> int {
        (self.x - other.x) * (self.x - other.x) + (self.y - other.y) * (self.y - other.y)
    }

    /// The point (`x`, `y`).
    pub fn new(x: i64, y: i64) -> (p: Position)
        ensures
            p.x == x,
            p.y == y,
    {
        Position { x, y }
    }

    /// The straight-line distance to `other` in thousandths, rounded down.
    pub fn distance_to(&self, other: &Position) -> (distance: u64)
        requires
            self.in_range(),
            other.in_range(),
        ensures
            is_floor_sqrt(distance as int, self.distance_squared(other)),
    {
        let dx: u128 = if self.x >= other.x {
            (self.x as i128 - other.x as i128) as u128
        } else {
            (other.x as i128 - self.x as i128) as u128
        };
        let dy: u128 = if self.y >= other.y {
            (self.y as i128 - other.y as i128) as u128
        } else {
            (other.y as i128 - self.y as i128) as u128
        };
        assert(dx * dx <= 0x7FFF_FFFF_FFFF_FFFE * 0x7FFF_FFFF_FFFF_FFFE) by (nonlinear_arith)
            requires
                dx <= 0x7FFF_FFFF_FFFF_FFFE,
        ;
        assert(dy * dy <= 0x7FFF_FFFF_FFFF_FFFE * 0x7FFF_FFFF_FFFF_FFFE) by (nonlinear_arith)
            requires
                dy <= 0x7FFF_FFFF_FFFF_FFFE,
        ;
        assert(dx * dx == (self.x - other.x) * (self.x - other.x)) by (nonlinear_arith)
            requires
                dx == self.x - other.x || dx == other.x - self.x,
        ;
        assert(dy * dy == (self.y - other.y) * (self.y - other.y)) by (nonlinear_arith)
            requires
                dy == self.y - other.y || dy == other.y - self.y,
        ;
        isqrt(dx * dx + dy * dy)
    }
}

/// Health in thousandths of a point: what is left and the most there can
/// be.
#[derive(Debug, Clone, Copy, PartialEq, Eq, Structural)]
pub struct Health {
    pub current: u32,
    pub max: u32,
}

impl Health {
    /// No more health is left than there can be.
    pub open spec fn wf(&self) -> bool {
        self.current <= self.max
    }

    /// Full health of `max`.
    pub fn new(max: u32) -> (h: Health)
        ensures
            h.current == max,
            h.max == max,
            h.wf(),
    {
        Health { current: max, max }
    }

    /// Whether any health is left.
    pub fn is_alive(&self) -> (alive: bool)
        ensures
            alive == (self.current > 0),
    {
        self.current > 0
    }

    /// Takes `amount` away, stopping at zero.
    pub fn damage(&mut self, amount: u32)
        ensures
            final(self).max == old(self).max,
            final(self).current == if amount >= old(self).current {
                0
            } else {
                old(self).current - amount
            },
            old(self).wf() ==> final(self).wf(),
    {
        self.current = if amount >= self.current {
            0
        } else {
            self.current - amount
        };
    }

    /// Gives `amount` back, stopping at `max`.
    pub fn heal(&mut self, amount: u32)
        ensures
            final(self).max == old(self).max,
            final(self).current == if old(self).current + amount >= old(self).max {
                old(self).max as int
            } else {
                old(self).current + amount
            },
            final(self).wf(),
    {
        let healed: u64 = self.current as u64 + amount as u64;
        self.current = if healed >= self.max as u64 {
            self.max
        } else {
            healed as u32
        };
    }
}

} // verus!
