//! Drag gestures: picking a body up, moving it, letting it go.
//!
//! Each body is either idle or being dragged. Picking a body up records the
//! mode it had and makes it `UserDriven`; while it is held, pointer moves set
//! its pose; letting it go gives it back the recorded mode. The controller
//! keeps one table of the recorded modes, keyed by body, and reaches the
//! bodies only through the registry it is handed.

use crate::body::{Body, BodyHandle, MotionMode, SceneError};
use crate::projector::{place_at, placeable, placed, presented_x, presented_y};
use crate::registry::Registry;
use vstd::prelude::*;

verus! {

/// The three moments of a drag gesture.
#[derive(Clone, Copy, Debug, PartialEq, Eq, Structural)]
pub enum DragKind {
    Start,
    Move,
    End,
}

/// A drag event as the rendering layer emits it. The pointer is given in
/// presentation coordinates.
#[derive(Clone, Copy, Debug, PartialEq, Eq, Structural)]
pub struct DragEvent {
    pub kind: DragKind,
    pub body: BodyHandle,
    pub pointer_x: i32,
    pub pointer_y: i32,
}

/// What an event did.
#[derive(Clone, Copy, Debug, PartialEq, Eq, Structural)]
pub enum DragOutcome {
    /// The body was idle and is now being dragged.
    Started,
    /// A start on a body that is being dragged already: nothing changed.
    AlreadyDragging,
    /// The body was moved under the pointer.
    Moved,
    /// A move whose coordinate names no usable point: nothing changed.
    Degenerate,
    /// A move or an end on a body that is not being dragged: nothing changed.
    NotDragging,
    /// The body was let go and has its earlier mode again.
    Ended,
}

/// A scene as the drag rules see it: the bodies, and for each body that is
/// being dragged the mode to give back on release.
pub struct Scene {
    pub bodies: Seq<Body>,
    pub sessions: Map<nat, MotionMode>,
}

impl Scene {
    /// Whether body `h` is held: it has a session and is driven by the user.
    pub open spec fn held(self, h: nat) -> bool {
        &&& h < self.bodies.len()
        &&& self.sessions.contains_key(h)
        &&& self.bodies[h as int].mode == MotionMode::UserDriven
    }

    /// Every body with a session exists and is `UserDriven`.
    pub open spec fn consistent(self) -> bool {
        forall|h: nat| #[trigger]
            self.sessions.contains_key(h) ==> h < self.bodies.len() && self.bodies[h as int].mode
                == MotionMode::UserDriven
    }

    /// The scene after a drag start on body `h`.
    pub open spec fn start_drag(self, h: nat) -> Scene {
        if h < self.bodies.len() && !self.sessions.contains_key(h) {
            Scene {
                bodies: self.bodies.update(
                    h as int,
                    self.bodies[h as int].with_mode(MotionMode::UserDriven),
                ),
                sessions: self.sessions.insert(h, self.bodies[h as int].mode),
            }
        } else {
            self
        }
    }

    pub open spec fn start_outcome(self, h: nat) -> Result<DragOutcome, SceneError> {
        if h >= self.bodies.len() {
            Err(SceneError::NotFound)
        } else if self.sessions.contains_key(h) {
            Ok(DragOutcome::AlreadyDragging)
        } else {
            Ok(DragOutcome::Started)
        }
    }

    /// Whether a move to `(x, y)` moves body `h`: the body is held, the
    /// coordinate is not the all-zero one of a spurious event, and the body
    /// can be put there.
    pub open spec fn move_applies(self, h: nat, x: i32, y: i32) -> bool {
        &&& self.held(h)
        &&& !(x == 0 && y == 0)
        &&& placeable(self.bodies[h as int].shape, y as int)
    }

    /// The scene after a drag move of body `h` to the pointer at `(x, y)`.
    pub open spec fn move_drag(self, h: nat, x: i32, y: i32) -> Scene {
        if self.move_applies(h, x, y) {
            let body = self.bodies[h as int];
            Scene {
                bodies: self.bodies.update(
                    h as int,
                    body.with_pose(placed(body.shape, body.pose.rotation, x, y)),
                ),
                sessions: self.sessions,
            }
        } else {
            self
        }
    }

    pub open spec fn move_outcome(self, h: nat, x: i32, y: i32) -> Result<
        DragOutcome,
        SceneError,
    > {
        if h >= self.bodies.len() {
            Err(SceneError::NotFound)
        } else if !self.held(h) {
            Ok(DragOutcome::NotDragging)
        } else if self.move_applies(h, x, y) {
            Ok(DragOutcome::Moved)
        } else {
            Ok(DragOutcome::Degenerate)
        }
    }

    /// The scene after a drag end on body `h`.
    pub open spec fn end_drag(self, h: nat) -> Scene {
        if h < self.bodies.len() && self.sessions.contains_key(h) {
            Scene {
                bodies: self.bodies.update(
                    h as int,
                    self.bodies[h as int].with_mode(self.sessions[h]),
                ),
                sessions: self.sessions.remove(h),
            }
        } else {
            self
        }
    }

    pub open spec fn end_outcome(self, h: nat) -> Result<DragOutcome, SceneError> {
        if h >= self.bodies.len() {
            Err(SceneError::NotFound)
        } else if self.sessions.contains_key(h) {
            Ok(DragOutcome::Ended)
        } else {
            Ok(DragOutcome::NotDragging)
        }
    }

    /// The scene after any drag event.
    pub open spec fn after(self, event: DragEvent) -> Scene {
        match event.kind {
            DragKind::Start => self.start_drag(event.body@),
            DragKind::Move => self.move_drag(event.body@, event.pointer_x, event.pointer_y),
            DragKind::End => self.end_drag(event.body@),
        }
    }

    pub open spec fn outcome(self, event: DragEvent) -> Result<DragOutcome, SceneError> {
        match event.kind {
            DragKind::Start => self.start_outcome(event.body@),
            DragKind::Move => self.move_outcome(event.body@, event.pointer_x, event.pointer_y),
            DragKind::End => self.end_outcome(event.body@),
        }
    }
}

/// Keeps, for each body that is being dragged, the mode to give back.
pub struct InteractionController {
    /// Slot `i` belongs to the body created at position `i`.
    sessions: Vec<Option<MotionMode>>,
}

impl View for InteractionController {
    type V = Map<nat, MotionMode>;

    closed spec fn view(&self) -> Map<nat, MotionMode> {
        Map::new(
            |h: nat| h < self.sessions@.len() && self.sessions@[h as int] is Some,
            |h: nat| self.sessions@[h as int]->Some_0,
        )
    }
}

impl InteractionController {
    /// The scene that this controller and `registry` make together.
    pub open spec fn scene(&self, registry: &Registry) -> Scene {
        Scene { bodies: registry@, sessions: self@ }
    }

    /// A controller with nothing being dragged.
    pub fn new() -> (controller: InteractionController)
        ensures
            controller@ == Map::<nat, MotionMode>::empty(),
    {
        InteractionController { sessions: Vec::new() }
    }

    /// The mode that the body will get back on release, if it has a session.
    pub fn recorded_mode(&self, handle: BodyHandle) -> (mode: Option<MotionMode>)
        ensures
            self@.contains_key(handle@) ==> mode == Some(self@[handle@]),
            !self@.contains_key(handle@) ==> mode is None,
    {
        let i: usize = handle.index();
        if i < self.sessions.len() {
            self.sessions[i]
        } else {
            None
        }
    }

    /// Whether the body has a session.
    pub fn is_dragging(&self, handle: BodyHandle) -> (dragging: bool)
        ensures
            dragging == self@.contains_key(handle@),
    {
        self.recorded_mode(handle).is_some()
    }

    fn record(&mut self, handle: BodyHandle, mode: MotionMode)
        requires
            handle@ < usize::MAX,
        ensures
            final(self)@ == old(self)@.insert(handle@, mode),
    {
        let i: usize = handle.index();
        while self.sessions.len() <= i
            invariant
                i == handle@,
                i < usize::MAX,
                self@ == old(self)@,
            decreases i + 1 - self.sessions.len(),
        {
            let ghost before = self@;
            self.sessions.push(None);
            assert(self@ =~= before);
        }
        let ghost before = self@;
        self.sessions.set(i, Some(mode));
        assert(self@ =~= before.insert(handle@, mode));
    }

    fn forget(&mut self, handle: BodyHandle)
        ensures
            final(self)@ == old(self)@.remove(handle@),
    {
        let i: usize = handle.index();
        if i < self.sessions.len() {
            self.sessions.set(i, None);
        }
        assert(self@ =~= old(self)@.remove(handle@));
    }

    /// Picks the body up: records its mode and makes it `UserDriven`. On a
    /// body that is being dragged already nothing happens, so a second start
    /// cannot overwrite the recorded mode.
    pub fn drag_start(&mut self, registry: &mut Registry, handle: BodyHandle) -> (res: Result<
        DragOutcome,
        SceneError,
    >)
        requires
            old(registry).wf(),
        ensures
            final(registry).wf(),
            res == old(self).scene(old(registry)).start_outcome(handle@),
            final(registry)@ == old(self).scene(old(registry)).start_drag(handle@).bodies,
            final(self)@ == old(self).scene(old(registry)).start_drag(handle@).sessions,
    {
        let mode = match registry.get_motion_mode(handle) {
            Ok(mode) => mode,
            Err(e) => {
                return Err(e);
            },
        };
        if self.is_dragging(handle) {
            return Ok(DragOutcome::AlreadyDragging);
        }
        proof {
            registry.lemma_len_fits();
        }
        self.record(handle, mode);
        let _ = registry.set_motion_mode(handle, MotionMode::UserDriven);
        Ok(DragOutcome::Started)
    }

    /// Moves a held body under the pointer. The event is ignored, and says
    /// so, when the body is not held, when both coordinates are zero (the
    /// mark of a spurious event), or when the body cannot be put there.
    pub fn drag_move(
        &self,
        registry: &mut Registry,
        handle: BodyHandle,
        pointer_x: i32,
        pointer_y: i32,
    ) -> (res: Result<DragOutcome, SceneError>)
        requires
            old(registry).wf(),
        ensures
            final(registry).wf(),
            res == self.scene(old(registry)).move_outcome(handle@, pointer_x, pointer_y),
            final(registry)@ == self.scene(old(registry)).move_drag(
                handle@,
                pointer_x,
                pointer_y,
            ).bodies,
    {
        let body = match registry.get_body(handle) {
            Ok(body) => body,
            Err(e) => {
                return Err(e);
            },
        };
        let user_driven = match body.mode {
            MotionMode::UserDriven => true,
            _ => false,
        };
        if !self.is_dragging(handle) || !user_driven {
            return Ok(DragOutcome::NotDragging);
        }
        if pointer_x == 0 && pointer_y == 0 {
            return Ok(DragOutcome::Degenerate);
        }
        match place_at(&body.shape, body.pose.rotation, pointer_x, pointer_y) {
            Ok(pose) => {
                let _ = registry.set_pose(handle, pose);
                Ok(DragOutcome::Moved)
            },
            Err(_) => Ok(DragOutcome::Degenerate),
        }
    }

    /// Lets the body go: gives it back the recorded mode and ends its
    /// session.
    pub fn drag_end(&mut self, registry: &mut Registry, handle: BodyHandle) -> (res: Result<
        DragOutcome,
        SceneError,
    >)
        requires
            old(registry).wf(),
        ensures
            final(registry).wf(),
            res == old(self).scene(old(registry)).end_outcome(handle@),
            final(registry)@ == old(self).scene(old(registry)).end_drag(handle@).bodies,
            final(self)@ == old(self).scene(old(registry)).end_drag(handle@).sessions,
    {
        if !registry.contains(handle) {
            return Err(SceneError::NotFound);
        }
        match self.recorded_mode(handle) {
            Some(mode) => {
                let _ = registry.set_motion_mode(handle, mode);
                self.forget(handle);
                Ok(DragOutcome::Ended)
            },
            None => Ok(DragOutcome::NotDragging),
        }
    }

    /// Handles one drag event of the rendering layer.
    pub fn handle_event(&mut self, registry: &mut Registry, event: DragEvent) -> (res: Result<
        DragOutcome,
        SceneError,
    >)
        requires
            old(registry).wf(),
        ensures
            final(registry).wf(),
            res == old(self).scene(old(registry)).outcome(event),
            final(registry)@ == old(self).scene(old(registry)).after(event).bodies,
            final(self)@ == old(self).scene(old(registry)).after(event).sessions,
    {
        match event.kind {
            DragKind::Start => self.drag_start(registry, event.body),
            DragKind::Move => self.drag_move(registry, event.body, event.pointer_x, event.pointer_y),
            DragKind::End => self.drag_end(registry, event.body),
        }
    }
}

/// Picking an idle body up makes it `UserDriven`, and letting it go again
/// gives it back exactly the mode it had: the scene is as it was before.
pub proof fn lemma_release_restores_mode(s: Scene, h: nat)
    requires
        h < s.bodies.len(),
        !s.sessions.contains_key(h),
    ensures
        s.start_drag(h).bodies[h as int].mode == MotionMode::UserDriven,
        s.start_drag(h).sessions[h] == s.bodies[h as int].mode,
        s.start_drag(h).end_drag(h).bodies[h as int].mode == s.bodies[h as int].mode,
        s.start_drag(h).end_drag(h).bodies == s.bodies,
        s.start_drag(h).end_drag(h).sessions == s.sessions,
{
    assert(s.start_drag(h).end_drag(h).bodies =~= s.bodies);
    assert(s.start_drag(h).end_drag(h).sessions =~= s.sessions);
}

/// A second start on a body changes nothing: the session of the first start
/// stands, with the mode it recorded, and the body is not switched again.
pub proof fn lemma_start_is_idempotent(s: Scene, h: nat)
    ensures
        s.start_drag(h).start_drag(h) == s.start_drag(h),
        h < s.bodies.len() ==> s.start_drag(h).start_outcome(h) == Ok::<DragOutcome, SceneError>(
            DragOutcome::AlreadyDragging,
        ),
        h < s.bodies.len() && !s.sessions.contains_key(h) ==> s.start_drag(h).start_drag(
            h,
        ).sessions[h] == s.bodies[h as int].mode,
{
}

/// A move to the all-zero coordinate moves nothing, whatever the state.
pub proof fn lemma_zero_move_changes_nothing(s: Scene, h: nat)
    ensures
        s.move_drag(h, 0, 0) == s,
        s.move_outcome(h, 0, 0) != Ok::<DragOutcome, SceneError>(DragOutcome::Moved),
{
}

/// A move that is not reported as `Moved` moves nothing, and a move never
/// touches a body other than its own.
pub proof fn lemma_move_touches_one_pose(s: Scene, h: nat, x: i32, y: i32)
    ensures
        s.move_outcome(h, x, y) != Ok::<DragOutcome, SceneError>(DragOutcome::Moved)
            ==> s.move_drag(h, x, y) == s,
        s.move_drag(h, x, y).sessions == s.sessions,
        s.move_drag(h, x, y).bodies.len() == s.bodies.len(),
        forall|i: int|
            0 <= i < s.bodies.len() && i != h ==> #[trigger] s.move_drag(h, x, y).bodies[i]
                == s.bodies[i],
        h < s.bodies.len() ==> s.move_drag(h, x, y).bodies[h as int].mode == s.bodies[h as int].mode
            && s.move_drag(h, x, y).bodies[h as int].shape == s.bodies[h as int].shape,
{
}

/// After a move that took place the body is presented where the pointer is.
pub proof fn lemma_moved_body_is_under_pointer(s: Scene, h: nat, x: i32, y: i32)
    requires
        s.move_applies(h, x, y),
    ensures
        presented_x(s.move_drag(h, x, y).bodies[h as int]) == x,
        presented_y(s.move_drag(h, x, y).bodies[h as int]) == y,
        s.move_drag(h, x, y).bodies[h as int].pose.rotation == s.bodies[h as int].pose.rotation,
{
}

/// No drag event breaks the rule that a body with a session is `UserDriven`.
pub proof fn lemma_event_keeps_consistency(s: Scene, event: DragEvent)
    requires
        s.consistent(),
    ensures
        s.after(event).consistent(),
{
    let t = s.after(event);
    assert forall|h: nat| #[trigger] t.sessions.contains_key(h) implies h < t.bodies.len()
        && t.bodies[h as int].mode == MotionMode::UserDriven by {
        if h != event.body@ {
            assert(s.sessions.contains_key(h));
        }
    }
}

/// No drag event adds or removes a body or changes a shape.
pub proof fn lemma_event_keeps_shapes(s: Scene, event: DragEvent)
    ensures
        s.after(event).bodies.len() == s.bodies.len(),
        forall|i: int|
            0 <= i < s.bodies.len() ==> (#[trigger] s.after(event).bodies[i]).shape
                == s.bodies[i].shape,
{
}

/// An event about one body leaves every other body, and every other body's
/// session, as it was.
pub proof fn lemma_event_touches_one_body(s: Scene, event: DragEvent, other: nat)
    requires
        other != event.body@,
    ensures
        s.after(event).sessions.contains_key(other) == s.sessions.contains_key(other),
        s.sessions.contains_key(other) ==> s.after(event).sessions[other] == s.sessions[other],
        other < s.bodies.len() ==> s.after(event).bodies[other as int] == s.bodies[other as int],
{
}

} // verus!
