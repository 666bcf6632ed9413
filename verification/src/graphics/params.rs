//! The parameters of one draw, and the transform that they stand for.

use vstd::prelude::*;
use crate::graphics::Color;
use crate::math::{clamp_to_i32, saturate, Rectangle, Vec2, FIXED_ONE};

verus! {

/// A rotation, given by its cosine and sine in fixed point. A positive angle
/// turns the x axis towards the y axis.
#[derive(Clone, Copy, Debug, PartialEq, Eq, Structural)]
pub struct Rotation {
    pub cos: i32,
    pub sin: i32,
}

impl Rotation {
    /// No rotation: an angle of zero.
    pub fn zero() -> (rotation: Rotation)
        ensures
            rotation == (Rotation { cos: FIXED_ONE, sin: 0 }),
    {
        Rotation { cos: FIXED_ONE, sin: 0 }
    }

    /// The rotation with the given cosine and sine, each in fixed point.
    pub fn new(cos: i32, sin: i32) -> (rotation: Rotation)
        ensures
            rotation == (Rotation { cos, sin }),
    {
        Rotation { cos, sin }
    }
}

/// How a drawable is placed on its target.
///
/// `position` and `origin` are in pixels, `scale` is in fixed point. The
/// origin is the pivot: the point of the drawable that lands on `position`,
/// and about which it is scaled and rotated.
#[derive(Clone, Copy, Debug, PartialEq, Eq)]
pub struct DrawParams {
    pub position: Vec2,
    pub origin: Vec2,
    pub scale: Vec2,
    pub rotation: Rotation,
    pub color: Color,
    pub clip: Option<Rectangle>,
}

/// One coordinate of a transformed point: `along` and `across` are the
/// scaled offsets from the pivot that the two rotation coefficients multiply.
/// The quotient is rounded down, and the result saturates.
pub open spec fn placed(first: int, along: int, second: int, across: int, position: int) -> i32 {
    clamp_to_i32((first * along + second * across) / (FIXED_ONE as int * FIXED_ONE as int) + position)
}

impl DrawParams {
    pub open spec fn spec_new() -> DrawParams {
        DrawParams {
            position: Vec2 { x: 0, y: 0 },
            origin: Vec2 { x: 0, y: 0 },
            scale: Vec2 { x: FIXED_ONE, y: FIXED_ONE },
            rotation: Rotation { cos: FIXED_ONE, sin: 0 },
            color: Color { r: 255, g: 255, b: 255, a: 255 },
            clip: None,
        }
    }

    /// The defaults: at the origin, pivot at the origin, scale 1, no
    /// rotation, opaque white, no clip.
    pub fn new() -> (params: DrawParams)
        ensures
            params == DrawParams::spec_new(),
    {
        DrawParams {
            position: Vec2 { x: 0, y: 0 },
            origin: Vec2 { x: 0, y: 0 },
            scale: Vec2 { x: FIXED_ONE, y: FIXED_ONE },
            rotation: Rotation { cos: FIXED_ONE, sin: 0 },
            color: Color { r: 255, g: 255, b: 255, a: 255 },
            clip: None,
        }
    }

    pub fn position(self, position: Vec2) -> (params: DrawParams)
        ensures
            params == (DrawParams { position, ..self }),
    {
        DrawParams { position, ..self }
    }

    pub fn origin(self, origin: Vec2) -> (params: DrawParams)
        ensures
            params == (DrawParams { origin, ..self }),
    {
        DrawParams { origin, ..self }
    }

    pub fn scale(self, scale: Vec2) -> (params: DrawParams)
        ensures
            params == (DrawParams { scale, ..self }),
    {
        DrawParams { scale, ..self }
    }

    pub fn rotation(self, rotation: Rotation) -> (params: DrawParams)
        ensures
            params == (DrawParams { rotation, ..self }),
    {
        DrawParams { rotation, ..self }
    }

    pub fn color(self, color: Color) -> (params: DrawParams)
        ensures
            params == (DrawParams { color, ..self }),
    {
        DrawParams { color, ..self }
    }

    pub fn clip(self, clip: Rectangle) -> (params: DrawParams)
        ensures
            params == (DrawParams { clip: Some(clip), ..self }),
    {
        DrawParams { clip: Some(clip), ..self }
    }

    /// Where the point `point` of the drawable lands on the target: the
    /// offset from the pivot is scaled, then rotated, then moved to
    /// `position`.
    pub open spec fn spec_transform_point(self, point: Vec2) -> Vec2 {
        let along = (point.x - self.origin.x) * self.scale.x;
        let across = (point.y - self.origin.y) * self.scale.y;
        Vec2 {
            x: placed(self.rotation.cos as int, along, -self.rotation.sin, across, self.position.x as int),
            y: placed(self.rotation.sin as int, along, self.rotation.cos as int, across, self.position.y as int),
        }
    }

    /// Where the point `point` of the drawable lands on the target.
    pub fn transform_point(&self, point: Vec2) -> (landed: Vec2)
        ensures
            landed == self.spec_transform_point(point),
    {
        let along: i128 = scaled_offset(point.x, self.origin.x, self.scale.x);
        let across: i128 = scaled_offset(point.y, self.origin.y, self.scale.y);
        let negated_sin: i64 = -(self.rotation.sin as i64);
        Vec2 {
            x: place(self.rotation.cos as i64, along, negated_sin, across, self.position.x),
            y: place(self.rotation.sin as i64, along, self.rotation.cos as i64, across, self.position.y),
        }
    }
}

/// The offset of `coordinate` from `pivot`, times `scale`.
fn scaled_offset(coordinate: i32, pivot: i32, scale: i32) -> (offset: i128)
    ensures
        offset == (coordinate - pivot) * scale,
        -0x1_0000_0000 * 0x8000_0000 <= offset <= 0x1_0000_0000 * 0x8000_0000,
{
    let distance: i128 = coordinate as i128 - pivot as i128;
    let factor: i128 = scale as i128;
    assert(-0x1_0000_0000 * 0x8000_0000 <= distance * factor <= 0x1_0000_0000 * 0x8000_0000)
        by (nonlinear_arith)
        requires
            -0x1_0000_0000 <= distance <= 0x1_0000_0000,
            -0x8000_0000 <= factor <= 0x8000_0000,
    ;
    distance * factor
}

/// `numerator` divided by the square of `FIXED_ONE`, rounded down.
fn floor_to_pixels(numerator: i128) -> (quotient: i128)
    requires
        -0x1_0000_0000_0000_0000_0000_0000 <= numerator <= 0x1_0000_0000_0000_0000_0000_0000,
    ensures
        quotient == (numerator as int) / (FIXED_ONE as int * FIXED_ONE as int),
        -0x1_0000_0000_0000_0000 <= quotient <= 0x1_0000_0000_0000_0000,
{
    assert(FIXED_ONE as int * FIXED_ONE as int == 0x1_0000_0000);
    if numerator >= 0 {
        numerator / 0x1_0000_0000
    } else {
        let above: i128 = (-numerator + 0xffff_ffff) / 0x1_0000_0000;
        -above
    }
}

fn place(first: i64, along: i128, second: i64, across: i128, position: i32) -> (coordinate: i32)
    requires
        -0x8000_0000 <= first <= 0x8000_0000,
        -0x8000_0000 <= second <= 0x8000_0000,
        -0x1_0000_0000 * 0x8000_0000 <= along <= 0x1_0000_0000 * 0x8000_0000,
        -0x1_0000_0000 * 0x8000_0000 <= across <= 0x1_0000_0000 * 0x8000_0000,
    ensures
        coordinate == placed(first as int, along as int, second as int, across as int, position as int),
{
    let a: i128 = first as i128;
    let b: i128 = second as i128;
    assert(-0x8000_0000 * 0x8000_0000_0000_0000 <= a * along <= 0x8000_0000 * 0x8000_0000_0000_0000)
        by (nonlinear_arith)
        requires
            -0x8000_0000 <= a <= 0x8000_0000,
            -0x8000_0000_0000_0000 <= along <= 0x8000_0000_0000_0000,
    ;
    assert(-0x8000_0000 * 0x8000_0000_0000_0000 <= b * across <= 0x8000_0000 * 0x8000_0000_0000_0000)
        by (nonlinear_arith)
        requires
            -0x8000_0000 <= b <= 0x8000_0000,
            -0x8000_0000_0000_0000 <= across <= 0x8000_0000_0000_0000,
    ;
    let numerator: i128 = a * along + b * across;
    saturate(floor_to_pixels(numerator) + position as i128)
}

/// The pivot lands on `position`, whatever the scale and the rotation are.
pub proof fn lemma_origin_lands_on_position(params: DrawParams)
    ensures
        params.spec_transform_point(params.origin) == params.position,
{
    assert(0 * params.scale.x == 0);
    assert(0 * params.scale.y == 0);
    assert(params.rotation.cos * 0 == 0);
    assert(params.rotation.sin * 0 == 0);
    assert((-params.rotation.sin) * 0 == 0);
    assert(0int / (FIXED_ONE as int * FIXED_ONE as int) == 0) by (nonlinear_arith);
}

/// Without rotation each coordinate is scaled on its own: the offset from
/// the pivot times the scale factor, rounded down, lands that far from
/// `position`.
pub proof fn lemma_unrotated_params_scale(params: DrawParams, point: Vec2)
    requires
        params.rotation == (Rotation { cos: FIXED_ONE, sin: 0 }),
    ensures
        params.spec_transform_point(point) == (Vec2 {
            x: clamp_to_i32(
                ((point.x - params.origin.x) * params.scale.x) / (FIXED_ONE as int) + params.position.x,
            ),
            y: clamp_to_i32(
                ((point.y - params.origin.y) * params.scale.y) / (FIXED_ONE as int) + params.position.y,
            ),
        }),
{
    let along = (point.x - params.origin.x) * params.scale.x;
    let across = (point.y - params.origin.y) * params.scale.y;
    assert(FIXED_ONE as int * FIXED_ONE as int == 0x1_0000_0000);
    assert(FIXED_ONE * along + (-0) * across == 0x1_0000 * along);
    assert(0 * along + FIXED_ONE * across == 0x1_0000 * across);
    assert((0x1_0000 * along) / 0x1_0000_0000 == along / 0x1_0000);
    assert((0x1_0000 * across) / 0x1_0000_0000 == across / 0x1_0000);
}

/// Without scaling and rotation every point is moved by `position - origin`.
pub proof fn lemma_plain_params_translate(params: DrawParams, point: Vec2)
    requires
        params.scale == (Vec2 { x: FIXED_ONE, y: FIXED_ONE }),
        params.rotation == (Rotation { cos: FIXED_ONE, sin: 0 }),
    ensures
        params.spec_transform_point(point) == (Vec2 {
            x: clamp_to_i32(point.x - params.origin.x + params.position.x),
            y: clamp_to_i32(point.y - params.origin.y + params.position.y),
        }),
{
    let dx = point.x - params.origin.x;
    let dy = point.y - params.origin.y;
    let unit = FIXED_ONE as int * FIXED_ONE as int;
    assert(unit == 0x1_0000_0000);
    assert(FIXED_ONE * (dx * FIXED_ONE) + (-0) * (dy * FIXED_ONE) == dx * unit) by (nonlinear_arith)
        requires
            unit == FIXED_ONE as int * FIXED_ONE as int,
    ;
    assert(0 * (dx * FIXED_ONE) + FIXED_ONE * (dy * FIXED_ONE) == dy * unit) by (nonlinear_arith)
        requires
            unit == FIXED_ONE as int * FIXED_ONE as int,
    ;
    assert((dx * unit) / unit == dx) by (nonlinear_arith)
        requires
            unit > 0,
    ;
    assert((dy * unit) / unit == dy) by (nonlinear_arith)
        requires
            unit > 0,
    ;
}

} // verus!
