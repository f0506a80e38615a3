//! Plain integer geometry shared by the whole library.
//!
//! Coordinates are in milliunits (one world unit = 1000 milliunits), so every
//! position, velocity and offset of the game is an exact `i64` value.

use vstd::prelude::*;

verus! {

/// A two-dimensional vector of milliunit coordinates.
#[derive(Clone, Copy, PartialEq, Eq, Structural, Debug)]
pub struct Vec2 {
    pub x: i64,
    pub y: i64,
}

impl Vec2 {
    pub fn new(x: i64, y: i64) -> (r: Vec2)
        ensures
            r == (Vec2 { x, y }),
    {
        Vec2 { x, y }
    }
}

/// An axis-aligned unit direction, as used by the proximity probes.
#[derive(Clone, Copy, PartialEq, Eq, Structural, Debug)]
pub enum Direction {
    Up,
    Down,
    Left,
    Right,
}

impl Direction {
    /// Horizontal component of the direction, as a sign.
    pub open spec fn dx_spec(self) -> int {
        match self {
            Direction::Left => -1,
            Direction::Right => 1,
            _ => 0,
        }
    }

    /// Vertical component of the direction, as a sign.
    pub open spec fn dy_spec(self) -> int {
        match self {
            Direction::Up => 1,
            Direction::Down => -1,
            _ => 0,
        }
    }

    pub fn dx(self) -> (r: i64)
        ensures
            r == self.dx_spec(),
    {
        match self {
            Direction::Left => -1,
            Direction::Right => 1,
            _ => 0,
        }
    }

    pub fn dy(self) -> (r: i64)
        ensures
            r == self.dy_spec(),
    {
        match self {
            Direction::Up => 1,
            Direction::Down => -1,
            _ => 0,
        }
    }
}

/// An 8-bit RGB colour, as used by the debug overlay.
#[derive(Clone, Copy, PartialEq, Eq, Structural, Debug)]
pub struct Rgb {
    pub r: u8,
    pub g: u8,
    pub b: u8,
}

} // verus!
