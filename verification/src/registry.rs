//! The scene registry: every body of a scene, found by its handle.
//!
//! A registry is a sequence of bodies. A handle names the position at which
//! its body was created, and bodies are never removed, so a handle stays good
//! for as long as the registry lives. All changes to a body go through the
//! registry.

use crate::body::{Body, BodyHandle, MotionMode, Pose, SceneError, Shape};
use vstd::prelude::*;

verus! {

pub struct Registry {
    bodies: Vec<Body>,
}

impl View for Registry {
    type V = Seq<Body>;

    closed spec fn view(&self) -> Seq<Body> {
        self.bodies@
    }
}

impl Registry {
    /// Every body of a well-formed registry has a valid shape.
    pub open spec fn wf(&self) -> bool {
        forall|i: int| 0 <= i < self@.len() ==> (#[trigger] self@[i]).shape.valid()
    }

    /// Whether `handle` names a body of this registry.
    pub open spec fn has(&self, handle: BodyHandle) -> bool {
        handle@ < self@.len()
    }

    /// The body that `handle` names.
    pub open spec fn body(&self, handle: BodyHandle) -> Body
        recommends
            self.has(handle),
    {
        self@[handle@ as int]
    }

    /// A registry never holds more bodies than a handle can count.
    pub proof fn lemma_len_fits(&self)
        ensures
            self@.len() <= usize::MAX,
    {
        assert(self.bodies.len() <= usize::MAX);
    }

    /// An empty registry.
    pub fn new() -> (registry: Registry)
        ensures
            registry@ == Seq::<Body>::empty(),
            registry.wf(),
    {
        Registry { bodies: Vec::new() }
    }

    pub fn len(&self) -> (n: usize)
        ensures
            n == self@.len(),
    {
        self.bodies.len()
    }

    pub fn is_empty(&self) -> (empty: bool)
        ensures
            empty == (self@.len() == 0),
    {
        self.bodies.len() == 0
    }

    pub fn contains(&self, handle: BodyHandle) -> (known: bool)
        ensures
            known == self.has(handle),
    {
        handle.index() < self.bodies.len()
    }

    /// A copy of every body, in handle order.
    pub fn bodies(&self) -> (all: Vec<Body>)
        ensures
            all@ == self@,
    {
        let mut all: Vec<Body> = Vec::new();
        let mut i: usize = 0;
        while i < self.bodies.len()
            invariant
                i <= self.bodies.len(),
                all@ == self.bodies@.take(i as int),
            decreases self.bodies.len() - i,
        {
            all.push(self.bodies[i]);
            i += 1;
            assert(self.bodies@.take(i as int) == self.bodies@.take(i - 1).push(
                self.bodies@[i - 1],
            ));
        }
        all
    }

    /// Adds a body and returns its handle. A shape with a zero or negative
    /// extent is refused, and the registry stays as it was.
    pub fn create_body(&mut self, shape: Shape, initial_pose: Pose, mode: MotionMode) -> (res:
        Result<BodyHandle, SceneError>)
        requires
            old(self).wf(),
        ensures
            final(self).wf(),
            shape.valid() ==> res is Ok && res->Ok_0@ == old(self)@.len() && final(self)@ == old(
                self,
            )@.push((Body { mode, pose: initial_pose, shape })),
            !shape.valid() ==> res == Err::<BodyHandle, SceneError>(SceneError::InvalidShape)
                && final(self)@ == old(self)@,
    {
        if !shape.is_valid() {
            return Err(SceneError::InvalidShape);
        }
        let handle = BodyHandle::from_index(self.bodies.len());
        self.bodies.push(Body { mode, pose: initial_pose, shape });
        Ok(handle)
    }

    /// The whole body behind `handle`.
    pub fn get_body(&self, handle: BodyHandle) -> (res: Result<Body, SceneError>)
        ensures
            self.has(handle) ==> res == Ok::<Body, SceneError>(self.body(handle)),
            !self.has(handle) ==> res == Err::<Body, SceneError>(SceneError::NotFound),
    {
        let i: usize = handle.index();
        if i < self.bodies.len() {
            Ok(self.bodies[i])
        } else {
            Err(SceneError::NotFound)
        }
    }

    pub fn get_pose(&self, handle: BodyHandle) -> (res: Result<Pose, SceneError>)
        ensures
            self.has(handle) ==> res == Ok::<Pose, SceneError>(self.body(handle).pose),
            !self.has(handle) ==> res == Err::<Pose, SceneError>(SceneError::NotFound),
    {
        match self.get_body(handle) {
            Ok(body) => Ok(body.pose),
            Err(e) => Err(e),
        }
    }

    pub fn get_motion_mode(&self, handle: BodyHandle) -> (res: Result<MotionMode, SceneError>)
        ensures
            self.has(handle) ==> res == Ok::<MotionMode, SceneError>(self.body(handle).mode),
            !self.has(handle) ==> res == Err::<MotionMode, SceneError>(SceneError::NotFound),
    {
        match self.get_body(handle) {
            Ok(body) => Ok(body.mode),
            Err(e) => Err(e),
        }
    }

    pub fn get_shape(&self, handle: BodyHandle) -> (res: Result<Shape, SceneError>)
        ensures
            self.has(handle) ==> res == Ok::<Shape, SceneError>(self.body(handle).shape),
            !self.has(handle) ==> res == Err::<Shape, SceneError>(SceneError::NotFound),
    {
        match self.get_body(handle) {
            Ok(body) => Ok(body.shape),
            Err(e) => Err(e),
        }
    }

    /// Says who moves the body from now on. Nothing else about it changes.
    pub fn set_motion_mode(&mut self, handle: BodyHandle, mode: MotionMode) -> (res: Result<
        (),
        SceneError,
    >)
        requires
            old(self).wf(),
        ensures
            final(self).wf(),
            old(self).has(handle) ==> res is Ok && final(self)@ == old(self)@.update(
                handle@ as int,
                old(self).body(handle).with_mode(mode),
            ),
            !old(self).has(handle) ==> res == Err::<(), SceneError>(SceneError::NotFound)
                && final(self)@ == old(self)@,
    {
        let i: usize = handle.index();
        if i < self.bodies.len() {
            let body = self.bodies[i];
            self.bodies.set(i, Body { mode, pose: body.pose, shape: body.shape });
            Ok(())
        } else {
            Err(SceneError::NotFound)
        }
    }

    /// Writes the pose of a body that is driven from outside.
    ///
    /// Only a `UserDriven` body may be moved this way: a `Dynamic` body
    /// belongs to the solver and a `Fixed` one to nobody. Callers that cannot
    /// show this statically test `get_motion_mode` first.
    pub fn set_pose(&mut self, handle: BodyHandle, pose: Pose) -> (res: Result<(), SceneError>)
        requires
            old(self).wf(),
            old(self).has(handle) ==> old(self).body(handle).mode == MotionMode::UserDriven,
        ensures
            final(self).wf(),
            old(self).has(handle) ==> res is Ok && final(self)@ == old(self)@.update(
                handle@ as int,
                old(self).body(handle).with_pose(pose),
            ),
            !old(self).has(handle) ==> res == Err::<(), SceneError>(SceneError::NotFound)
                && final(self)@ == old(self)@,
    {
        if self.contains(handle) {
            self.store_pose(handle, pose);
            Ok(())
        } else {
            Err(SceneError::NotFound)
        }
    }

    /// Writes the pose of a body that something moves: the user, or the
    /// solver on its write-back. A `Fixed` body has no way in.
    pub(crate) fn store_pose(&mut self, handle: BodyHandle, pose: Pose)
        requires
            old(self).wf(),
            old(self).has(handle),
            old(self).body(handle).mode != MotionMode::Fixed,
        ensures
            final(self).wf(),
            final(self)@ == old(self)@.update(
                handle@ as int,
                old(self).body(handle).with_pose(pose),
            ),
    {
        let i: usize = handle.index();
        let body = self.bodies[i];
        self.bodies.set(i, Body { mode: body.mode, pose, shape: body.shape });
    }
}

} // verus!
