//! A scene over time: what holds after any run of events.
//!
//! Three things happen to a scene: a body is created, the solver's reports
//! are written back, a drag event is handled. This module states the scene's
//! invariants over every sequence of them.

use crate::body::{Body, MotionMode};
use crate::interaction::{DragEvent, DragKind, Scene};
use crate::simulation::{settled, SolvedPose};
use vstd::prelude::*;

verus! {

/// One thing that happens to a scene.
pub enum SceneEvent {
    /// A body is offered to the registry, which takes it if its shape is
    /// valid.
    Create(Body),
    /// The solver's reports for one step are written back.
    Step(Seq<SolvedPose>),
    /// A drag event is handled.
    Drag(DragEvent),
}

/// The scene after one event.
pub open spec fn next(s: Scene, event: SceneEvent) -> Scene {
    match event {
        SceneEvent::Create(body) => if body.shape.valid() {
            Scene { bodies: s.bodies.push(body), sessions: s.sessions }
        } else {
            s
        },
        SceneEvent::Step(reports) => Scene {
            bodies: settled(s.bodies, reports),
            sessions: s.sessions,
        },
        SceneEvent::Drag(event) => s.after(event),
    }
}

/// The scene after a run of events, the first of them first.
pub open spec fn run(s: Scene, events: Seq<SceneEvent>) -> Scene
    decreases events.len(),
{
    if events.len() == 0 {
        s
    } else {
        next(run(s, events.drop_last()), events.last())
    }
}

/// Whether the event lets body `h` go.
pub open spec fn releases(event: SceneEvent, h: nat) -> bool {
    event matches SceneEvent::Drag(drag) && drag.kind == DragKind::End && drag.body@ == h
}

/// Every shape in the scene is valid.
pub open spec fn shapes_valid(s: Scene) -> bool {
    forall|i: int| 0 <= i < s.bodies.len() ==> (#[trigger] s.bodies[i]).shape.valid()
}

/// A scene in which nothing is being dragged is consistent, whatever its
/// bodies.
pub proof fn lemma_idle_scene_is_consistent(bodies: Seq<Body>)
    ensures
        (Scene { bodies, sessions: Map::<nat, MotionMode>::empty() }).consistent(),
{
}

/// One event keeps every session's body `UserDriven`, keeps the shapes
/// valid, and neither removes a body nor changes the shape of one.
pub proof fn lemma_next_keeps_invariants(s: Scene, event: SceneEvent)
    ensures
        s.consistent() ==> next(s, event).consistent(),
        shapes_valid(s) ==> shapes_valid(next(s, event)),
        next(s, event).bodies.len() >= s.bodies.len(),
        forall|i: int|
            0 <= i < s.bodies.len() ==> (#[trigger] next(s, event).bodies[i]).shape
                == s.bodies[i].shape,
{
    let t = next(s, event);
    match event {
        SceneEvent::Create(body) => {
            if s.consistent() {
                assert forall|h: nat| #[trigger] t.sessions.contains_key(h) implies h
                    < t.bodies.len() && t.bodies[h as int].mode == MotionMode::UserDriven by {
                    assert(s.sessions.contains_key(h));
                }
            }
        },
        SceneEvent::Step(reports) => {
            if s.consistent() {
                assert forall|h: nat| #[trigger] t.sessions.contains_key(h) implies h
                    < t.bodies.len() && t.bodies[h as int].mode == MotionMode::UserDriven by {
                    assert(s.sessions.contains_key(h));
                }
            }
        },
        SceneEvent::Drag(drag) => {
            if s.consistent() {
                crate::interaction::lemma_event_keeps_consistency(s, drag);
            }
            crate::interaction::lemma_event_keeps_shapes(s, drag);
        },
    }
}

/// Whatever happens to a scene, a body with a drag session is `UserDriven`
/// for as long as the session lasts, every shape stays valid, and a body,
/// once created, keeps its handle and its shape.
pub proof fn lemma_run_keeps_invariants(s: Scene, events: Seq<SceneEvent>)
    ensures
        s.consistent() ==> run(s, events).consistent(),
        shapes_valid(s) ==> shapes_valid(run(s, events)),
        run(s, events).bodies.len() >= s.bodies.len(),
        forall|i: int|
            0 <= i < s.bodies.len() ==> (#[trigger] run(s, events).bodies[i]).shape
                == s.bodies[i].shape,
    decreases events.len(),
{
    if events.len() > 0 {
        let before = run(s, events.drop_last());
        lemma_run_keeps_invariants(s, events.drop_last());
        lemma_next_keeps_invariants(before, events.last());
    }
}

/// A session, once begun, keeps the mode it recorded until its body is let
/// go: nothing else that happens to the scene ends it or rewrites it.
pub proof fn lemma_session_lasts_until_release(s: Scene, h: nat, events: Seq<SceneEvent>)
    requires
        s.sessions.contains_key(h),
        forall|k: int| 0 <= k < events.len() ==> !releases(#[trigger] events[k], h),
    ensures
        run(s, events).sessions.contains_key(h),
        run(s, events).sessions[h] == s.sessions[h],
    decreases events.len(),
{
    if events.len() > 0 {
        let earlier = events.drop_last();
        assert forall|k: int| 0 <= k < earlier.len() implies !releases(#[trigger] earlier[k], h) by {
            assert(earlier[k] == events[k]);
        }
        lemma_session_lasts_until_release(s, h, earlier);
    }
}

/// Letting a body go gives it back the mode it had just before it was picked
/// up, however many moves, steps, creations and events about other bodies
/// came in between.
pub proof fn lemma_release_restores_mode_after_history(s: Scene, h: nat, events: Seq<SceneEvent>)
    requires
        h < s.bodies.len(),
        !s.sessions.contains_key(h),
        forall|k: int| 0 <= k < events.len() ==> !releases(#[trigger] events[k], h),
    ensures
        run(s.start_drag(h), events).end_drag(h).bodies[h as int].mode == s.bodies[h as int].mode,
        !run(s.start_drag(h), events).end_drag(h).sessions.contains_key(h),
{
    let picked = s.start_drag(h);
    lemma_session_lasts_until_release(picked, h, events);
    lemma_run_keeps_invariants(picked, events);
}

} // verus!
