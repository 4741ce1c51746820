//! The plain data of a scene: poses, shapes, motion modes, handles, errors.

use vstd::prelude::*;

verus! {

/// Who moves a body.
#[derive(Clone, Copy, Debug, PartialEq, Eq, Structural)]
pub enum MotionMode {
    /// Nothing moves it.
    Fixed,
    /// The solver moves it.
    Dynamic,
    /// Its pose is written from outside, for instance by a drag gesture.
    UserDriven,
}

/// Position and rotation in simulation space, where `y` grows upwards.
#[derive(Clone, Copy, Debug, PartialEq, Eq, Structural)]
pub struct Pose {
    pub x: i32,
    pub y: i32,
    pub rotation: i32,
}

/// The outline of a body, centred on its position.
#[derive(Clone, Copy, Debug, PartialEq, Eq, Structural)]
pub enum Shape {
    Circle { radius: i32 },
    Box { half_width: i32, half_height: i32 },
}

impl Shape {
    /// A shape is valid when every extent is positive.
    pub open spec fn valid(self) -> bool {
        match self {
            Shape::Circle { radius } => radius > 0,
            Shape::Box { half_width, half_height } => half_width > 0 && half_height > 0,
        }
    }

    /// Half of the shape's horizontal extent.
    pub open spec fn half_width_spec(self) -> int {
        match self {
            Shape::Circle { radius } => radius as int,
            Shape::Box { half_width, .. } => half_width as int,
        }
    }

    /// Half of the shape's vertical extent.
    pub open spec fn half_height_spec(self) -> int {
        match self {
            Shape::Circle { radius } => radius as int,
            Shape::Box { half_height, .. } => half_height as int,
        }
    }

    pub fn is_valid(&self) -> (ok: bool)
        ensures
            ok == self.valid(),
    {
        match *self {
            Shape::Circle { radius } => radius > 0,
            Shape::Box { half_width, half_height } => half_width > 0 && half_height > 0,
        }
    }

    pub fn half_width(&self) -> (hw: i32)
        ensures
            hw == self.half_width_spec(),
    {
        match *self {
            Shape::Circle { radius } => radius,
            Shape::Box { half_width, .. } => half_width,
        }
    }

    pub fn half_height(&self) -> (hh: i32)
        ensures
            hh == self.half_height_spec(),
    {
        match *self {
            Shape::Circle { radius } => radius,
            Shape::Box { half_height, .. } => half_height,
        }
    }
}

/// One body of a scene. The shape is given at creation and never changes.
#[derive(Clone, Copy, Debug, PartialEq, Eq, Structural)]
pub struct Body {
    pub mode: MotionMode,
    pub pose: Pose,
    pub shape: Shape,
}

impl Body {
    /// The same body, moved to `pose`.
    pub open spec fn with_pose(self, pose: Pose) -> Body {
        Body { pose, ..self }
    }

    /// The same body, moved by `mode` from now on.
    pub open spec fn with_mode(self, mode: MotionMode) -> Body {
        Body { mode, ..self }
    }
}

/// Names a body of a registry: the position at which it was created.
#[derive(Clone, Copy, Debug, PartialEq, Eq, Structural)]
pub struct BodyHandle {
    index: usize,
}

impl View for BodyHandle {
    type V = nat;

    closed spec fn view(&self) -> nat {
        self.index as nat
    }
}

impl BodyHandle {
    /// The handle of the body created at position `index`.
    pub fn from_index(index: usize) -> (handle: BodyHandle)
        ensures
            handle@ == index,
    {
        BodyHandle { index }
    }

    pub fn index(&self) -> (index: usize)
        ensures
            index == self@,
    {
        self.index
    }
}

/// What can go wrong in a scene.
#[derive(Clone, Copy, Debug, PartialEq, Eq, Structural)]
pub enum SceneError {
    /// The handle names no body of the registry.
    NotFound,
    /// A radius or half-extent is zero or negative.
    InvalidShape,
    /// A pointer coordinate that names no usable point.
    DegenerateInput,
}

} // verus!
