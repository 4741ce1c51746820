//! From simulation space to presentation space, and back.
//!
//! Simulation space has `y` growing upwards; presentation space has `y`
//! growing downwards. A body is presented by the horizontal position of its
//! centre, the height of its top edge, and its full width and height. The
//! flip and the half-height offset are stated in this module and nowhere
//! else, and they are the same for every kind of shape.

use crate::body::{Body, BodyHandle, MotionMode, Pose, SceneError, Shape};
use crate::registry::Registry;
use vstd::prelude::*;

verus! {

/// What a renderer needs to draw one body.
#[derive(Clone, Copy, Debug, PartialEq, Eq, Structural)]
pub struct Presentation {
    /// The centre of the body, counted rightwards.
    pub x: i64,
    /// The top edge of the body, counted downwards.
    pub y: i64,
    /// The body's rotation, handed through unchanged.
    pub rotation: i32,
    pub width: i64,
    pub height: i64,
}

/// How a renderer styles a body.
#[derive(Clone, Copy, Debug, PartialEq, Eq, Structural)]
pub enum ClassTag {
    Ball,
    Ground,
}

/// The presented `x` of a body: its position's `x`, and nothing of its shape.
pub open spec fn presented_x(body: Body) -> int {
    body.pose.x as int
}

/// The presented `y` of a body: its top edge, with the axis flipped.
pub open spec fn presented_y(body: Body) -> int {
    -(body.pose.y + body.shape.half_height_spec())
}

pub open spec fn presented_width(shape: Shape) -> int {
    2 * shape.half_width_spec()
}

pub open spec fn presented_height(shape: Shape) -> int {
    2 * shape.half_height_spec()
}

/// Whether `p` is the presentation of `body`.
pub open spec fn presents(p: Presentation, body: Body) -> bool {
    &&& p.x == presented_x(body)
    &&& p.y == presented_y(body)
    &&& p.rotation == body.pose.rotation
    &&& p.width == presented_width(body.shape)
    &&& p.height == presented_height(body.shape)
}

/// The simulation `y` at which a body of this shape is presented at `y`.
pub open spec fn placed_y(shape: Shape, y: int) -> int {
    -y - shape.half_height_spec()
}

/// Whether a body of this shape can be put where it is presented at height
/// `y`: the position has to fit the coordinate type.
pub open spec fn placeable(shape: Shape, y: int) -> bool {
    i32::MIN <= placed_y(shape, y) <= i32::MAX
}

/// The pose at which a body of this shape is presented at `(x, y)`.
pub open spec fn placed(shape: Shape, rotation: i32, x: i32, y: i32) -> Pose {
    Pose { x, y: placed_y(shape, y as int) as i32, rotation }
}

/// The presentation of one body.
pub fn project_body(body: &Body) -> (p: Presentation)
    ensures
        presents(p, *body),
{
    let half_width: i64 = body.shape.half_width() as i64;
    let half_height: i64 = body.shape.half_height() as i64;
    Presentation {
        x: body.pose.x as i64,
        y: -(body.pose.y as i64 + half_height),
        rotation: body.pose.rotation,
        width: 2 * half_width,
        height: 2 * half_height,
    }
}

/// The presentation of the body behind `handle`. Reads the registry and
/// changes nothing.
pub fn project(registry: &Registry, handle: BodyHandle) -> (res: Result<Presentation, SceneError>)
    ensures
        registry.has(handle) ==> res is Ok && presents(res->Ok_0, registry.body(handle)),
        !registry.has(handle) ==> res == Err::<Presentation, SceneError>(SceneError::NotFound),
{
    match registry.get_body(handle) {
        Ok(body) => Ok(project_body(&body)),
        Err(e) => Err(e),
    }
}

/// The presentation of every body, in handle order: what a renderer polls
/// once a frame.
pub fn project_all(registry: &Registry) -> (all: Vec<Presentation>)
    ensures
        all@.len() == registry@.len(),
        forall|i: int| 0 <= i < registry@.len() ==> presents(#[trigger] all@[i], registry@[i]),
{
    let bodies = registry.bodies();
    let mut all: Vec<Presentation> = Vec::new();
    let mut i: usize = 0;
    while i < bodies.len()
        invariant
            i <= bodies.len(),
            bodies@ == registry@,
            all@.len() == i,
            forall|j: int| 0 <= j < i ==> presents(#[trigger] all@[j], registry@[j]),
        decreases bodies.len() - i,
    {
        all.push(project_body(&bodies[i]));
        i += 1;
    }
    all
}

/// Circles are balls, boxes are ground.
pub fn class_tag(shape: &Shape) -> (tag: ClassTag)
    ensures
        tag == (match *shape {
            Shape::Circle { .. } => ClassTag::Ball,
            Shape::Box { .. } => ClassTag::Ground,
        }),
{
    match *shape {
        Shape::Circle { .. } => ClassTag::Ball,
        Shape::Box { .. } => ClassTag::Ground,
    }
}

/// The pose at which a body of this shape is presented at `(x, y)`, with the
/// rotation given. Fails with `DegenerateInput` when that pose has no place
/// in the coordinate type.
pub fn place_at(shape: &Shape, rotation: i32, x: i32, y: i32) -> (res: Result<Pose, SceneError>)
    ensures
        placeable(*shape, y as int) ==> res == Ok::<Pose, SceneError>(
            placed(*shape, rotation, x, y),
        ),
        !placeable(*shape, y as int) ==> res == Err::<Pose, SceneError>(
            SceneError::DegenerateInput,
        ),
{
    let target: i64 = -(y as i64) - shape.half_height() as i64;
    if target < i32::MIN as i64 || target > i32::MAX as i64 {
        Err(SceneError::DegenerateInput)
    } else {
        Ok(Pose { x, y: target as i32, rotation })
    }
}

/// A circle is presented as wide and as high as twice its radius, centre
/// where its position is.
pub proof fn lemma_circle_presentation(pose: Pose, radius: i32, mode: MotionMode)
    ensures
        ({
            let body = Body { mode, pose, shape: Shape::Circle { radius } };
            &&& presented_width(body.shape) == 2 * radius
            &&& presented_height(body.shape) == 2 * radius
            &&& presented_x(body) == pose.x
        }),
{
}

/// The presented `x` depends on the position's `x` alone: two bodies with
/// the same `x` are presented at the same `x`, whatever their shapes, modes,
/// heights and rotations.
pub proof fn lemma_presented_x_ignores_shape(a: Body, b: Body)
    requires
        a.pose.x == b.pose.x,
    ensures
        presented_x(a) == presented_x(b),
{
}

/// Placing undoes presenting: a body put at `placed(..)` is presented at the
/// coordinates it was placed by, at the same rotation.
pub proof fn lemma_place_then_present(body: Body, x: i32, y: i32)
    requires
        placeable(body.shape, y as int),
    ensures
        ({
            let moved = body.with_pose(placed(body.shape, body.pose.rotation, x, y));
            &&& presented_x(moved) == x
            &&& presented_y(moved) == y
            &&& moved.pose.rotation == body.pose.rotation
            &&& presented_width(moved.shape) == presented_width(body.shape)
            &&& presented_height(moved.shape) == presented_height(body.shape)
        }),
{
}

/// Presenting undoes placing: a body is placed where it stands by the
/// coordinates at which it is presented, as far as they fit a pointer's
/// coordinate type.
pub proof fn lemma_present_then_place(body: Body)
    requires
        i32::MIN <= presented_y(body) <= i32::MAX,
    ensures
        placeable(body.shape, presented_y(body)),
        placed(body.shape, body.pose.rotation, presented_x(body) as i32, presented_y(body) as i32)
            == body.pose,
{
}

} // verus!
