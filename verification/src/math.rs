//! Integer geometry: points and rectangles in whole pixels, and the
//! fixed-point unit in which scale factors and rotations are written.
//!
//! Coordinates are `i32` values. Where a computed coordinate lies outside
//! their range it saturates: it becomes the nearest `i32`.

use vstd::prelude::*;

verus! {

/// The fixed-point representation of 1: scale factors and the cosine and sine
/// of a rotation carry 16 fractional bits.
pub const FIXED_ONE: i32 = 65536;

/// A point or an offset, in whole pixels.
#[derive(Clone, Copy, Debug, PartialEq, Eq, Structural)]
pub struct Vec2 {
    pub x: i32,
    pub y: i32,
}

impl Vec2 {
    pub fn new(x: i32, y: i32) -> (v: Vec2)
        ensures
            v == (Vec2 { x, y }),
    {
        Vec2 { x, y }
    }

    /// The origin.
    pub fn zero() -> (v: Vec2)
        ensures
            v == (Vec2 { x: 0, y: 0 }),
    {
        Vec2 { x: 0, y: 0 }
    }

    /// The vector with both components equal to `value`.
    pub fn broadcast(value: i32) -> (v: Vec2)
        ensures
            v == (Vec2 { x: value, y: value }),
    {
        Vec2 { x: value, y: value }
    }
}

/// An axis-aligned rectangle, in whole pixels.
#[derive(Clone, Copy, Debug, PartialEq, Eq, Structural)]
pub struct Rectangle {
    pub x: i32,
    pub y: i32,
    pub width: i32,
    pub height: i32,
}

/// The nearest `i32` to `value`: coordinates saturate at the ends of their
/// range.
pub open spec fn clamp_to_i32(value: int) -> i32 {
    if value < i32::MIN {
        i32::MIN
    } else if value > i32::MAX {
        i32::MAX
    } else {
        value as i32
    }
}

/// The nearest `i32` to `value`.
pub fn saturate(value: i128) -> (nearest: i32)
    ensures
        nearest == clamp_to_i32(value as int),
{
    if value < -0x8000_0000 {
        i32::MIN
    } else if value > 0x7fff_ffff {
        i32::MAX
    } else {
        value as i32
    }
}

/// The `index`-th rectangle of a row that starts at `x` and steps by `width`.
pub open spec fn row_cell(x: i32, y: i32, width: i32, height: i32, index: int) -> Rectangle {
    Rectangle { x: clamp_to_i32(x + index * width), y, width, height }
}

/// The `index`-th rectangle of a column that starts at `y` and steps by `height`.
pub open spec fn column_cell(x: i32, y: i32, width: i32, height: i32, index: int) -> Rectangle {
    Rectangle { x, y: clamp_to_i32(y + index * height), width, height }
}

/// The first `count` values of the progression that starts at `start` and
/// steps by `step`, each saturated.
fn progression(start: i32, step: i32, count: usize) -> (values: Vec<i32>)
    ensures
        values@.len() == count,
        forall|i: int| 0 <= i < count ==> #[trigger] values@[i] == clamp_to_i32(start + i * step),
{
    let mut values: Vec<i32> = Vec::new();
    let mut i: usize = 0;
    let mut next: i128 = start as i128;
    while i < count
        invariant
            0 <= i <= count,
            values@.len() == i,
            next == start + i * step,
            forall|j: int| 0 <= j < i ==> #[trigger] values@[j] == clamp_to_i32(start + j * step),
        decreases count - i,
    {
        proof {
            let steps = i as int;
            let stride = step as int;
            assert((steps + 1) * stride == steps * stride + stride) by (nonlinear_arith);
            assert(-0x1_0000_0000_0000_0000 * 0x8000_0000 <= steps * stride <= 0x1_0000_0000_0000_0000
                * 0x8000_0000) by (nonlinear_arith)
                requires
                    0 <= steps <= 0x1_0000_0000_0000_0000,
                    -0x8000_0000 <= stride <= 0x8000_0000,
            ;
        }
        values.push(saturate(next));
        next = next + step as i128;
        i = i + 1;
    }
    values
}

impl Rectangle {
    pub fn new(x: i32, y: i32, width: i32, height: i32) -> (r: Rectangle)
        ensures
            r == (Rectangle { x, y, width, height }),
    {
        Rectangle { x, y, width, height }
    }

    /// The first `count` rectangles of a row of equal cells, left to right:
    /// the frames of a sprite sheet laid out horizontally.
    pub fn row(x: i32, y: i32, width: i32, height: i32, count: usize) -> (cells: Vec<Rectangle>)
        ensures
            cells@.len() == count,
            forall|i: int| 0 <= i < count ==> #[trigger] cells@[i] == row_cell(x, y, width, height, i),
    {
        let starts = progression(x, width, count);
        let mut cells: Vec<Rectangle> = Vec::new();
        let mut i: usize = 0;
        while i < count
            invariant
                0 <= i <= count,
                starts@.len() == count,
                forall|j: int| 0 <= j < count ==> #[trigger] starts@[j] == clamp_to_i32(x + j * width),
                cells@.len() == i,
                forall|j: int| 0 <= j < i ==> #[trigger] cells@[j] == row_cell(x, y, width, height, j),
            decreases count - i,
        {
            cells.push(Rectangle { x: starts[i], y, width, height });
            i = i + 1;
        }
        cells
    }

    /// The first `count` rectangles of a column of equal cells, top to bottom.
    pub fn column(x: i32, y: i32, width: i32, height: i32, count: usize) -> (cells: Vec<Rectangle>)
        ensures
            cells@.len() == count,
            forall|i: int| 0 <= i < count ==> #[trigger] cells@[i] == column_cell(x, y, width, height, i),
    {
        let starts = progression(y, height, count);
        let mut cells: Vec<Rectangle> = Vec::new();
        let mut i: usize = 0;
        while i < count
            invariant
                0 <= i <= count,
                starts@.len() == count,
                forall|j: int| 0 <= j < count ==> #[trigger] starts@[j] == clamp_to_i32(y + j * height),
                cells@.len() == i,
                forall|j: int| 0 <= j < i ==> #[trigger] cells@[j] == column_cell(x, y, width, height, j),
            decreases count - i,
        {
            cells.push(Rectangle { x, y: starts[i], width, height });
            i = i + 1;
        }
        cells
    }
}

} // verus!
