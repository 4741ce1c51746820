//! One step of the simulation, on the registry's side of the solver.
//!
//! The solver is not part of this crate. A step is therefore two calls with
//! the solver's work between them: [`plan_step`] says what the solver is to be
//! given, and [`apply_step`] writes back what it reported. Whatever the
//! solver reports, only `Dynamic` bodies move: a `Fixed` or `UserDriven` body
//! is an obstacle to the others and keeps its pose.
//!
//! A solver keeps bodies of its own between steps, with velocities and
//! contacts that the registry knows nothing of. The request therefore says,
//! body by body, what the solver is to do with its copy before it steps: add
//! it, leave it where it is, or move it to where the registry has it. The
//! last is how a drag reaches the solver.

use crate::body::{Body, BodyHandle, MotionMode, Pose};
use crate::registry::Registry;
use vstd::prelude::*;

verus! {

/// What the solver is to do with its copy of a body before it steps.
#[derive(Clone, Copy, Debug, PartialEq, Eq, Structural)]
pub enum Handover {
    /// The solver has no copy yet: it adds the body as the registry has it.
    Add,
    /// The copy stands where the registry has the body: only the mode is
    /// taken over.
    Keep,
    /// The copy stands elsewhere: it is moved to the registry's pose.
    Move,
}

/// What the solver is handed for one step.
pub struct StepRequest {
    /// The length of the step, in microseconds.
    pub dt_micros: u32,
    /// Gravity, in coordinate units per second squared.
    pub gravity_x: i32,
    pub gravity_y: i32,
    /// Every body of the registry, in handle order.
    pub bodies: Vec<Body>,
    /// For each body, what the solver is to do with its copy.
    pub handover: Vec<Handover>,
}

/// The pose that the solver reports for one body after a step.
#[derive(Clone, Copy, Debug, PartialEq, Eq, Structural)]
pub struct SolvedPose {
    pub handle: BodyHandle,
    pub pose: Pose,
}

/// The pose that the last report about body `i` carries, if any report names
/// it.
pub open spec fn last_report_for(reports: Seq<SolvedPose>, i: int) -> Option<Pose>
    decreases reports.len(),
{
    if reports.len() == 0 {
        None
    } else if reports.last().handle@ == i {
        Some(reports.last().pose)
    } else {
        last_report_for(reports.drop_last(), i)
    }
}

/// One body after a step: a `Dynamic` body takes the last pose reported for
/// it, every other body stays as it is.
pub open spec fn settled_body(body: Body, report: Option<Pose>) -> Body {
    match report {
        Some(pose) if body.mode == MotionMode::Dynamic => body.with_pose(pose),
        _ => body,
    }
}

/// The bodies of a registry after the solver's reports have been written
/// back.
pub open spec fn settled(bodies: Seq<Body>, reports: Seq<SolvedPose>) -> Seq<Body> {
    Seq::new(bodies.len(), |i: int| settled_body(bodies[i], last_report_for(reports, i)))
}

/// What the solver is to do with its copy of body `i`, where `mirror` holds
/// the poses of the solver's copies in handle order.
pub open spec fn handover_for(body: Body, mirror: Seq<Pose>, i: int) -> Handover {
    if i >= mirror.len() {
        Handover::Add
    } else if mirror[i] == body.pose {
        Handover::Keep
    } else {
        Handover::Move
    }
}

/// What to hand to the solver for a step of `dt_micros` under the given
/// gravity: nothing when the registry is empty, else the step's parameters,
/// every body, and for each body what the solver is to do with its copy.
/// `mirror` holds the poses of the solver's copies, in handle order. Each
/// shape in the request is valid.
pub fn plan_step(
    registry: &Registry,
    mirror: &Vec<Pose>,
    dt_micros: u32,
    gravity_x: i32,
    gravity_y: i32,
) -> (request: Option<StepRequest>)
    requires
        registry.wf(),
    ensures
        registry@.len() == 0 ==> request is None,
        registry@.len() > 0 ==> request is Some && request->Some_0.bodies@ == registry@
            && request->Some_0.dt_micros == dt_micros && request->Some_0.gravity_x == gravity_x
            && request->Some_0.gravity_y == gravity_y,
        request matches Some(r) ==> r.handover@.len() == registry@.len() && forall|i: int|
            0 <= i < registry@.len() ==> #[trigger] r.handover@[i] == handover_for(
                registry@[i],
                mirror@,
                i,
            ),
        request matches Some(r) ==> forall|i: int|
            0 <= i < r.bodies@.len() ==> (#[trigger] r.bodies@[i]).shape.valid(),
{
    if registry.is_empty() {
        return None;
    }
    let bodies = registry.bodies();
    let mut handover: Vec<Handover> = Vec::new();
    let mut i: usize = 0;
    while i < bodies.len()
        invariant
            i <= bodies.len(),
            bodies@ == registry@,
            handover@.len() == i,
            forall|j: int|
                0 <= j < i ==> #[trigger] handover@[j] == handover_for(registry@[j], mirror@, j),
        decreases bodies.len() - i,
    {
        let what = if i >= mirror.len() {
            Handover::Add
        } else if mirror[i] == bodies[i].pose {
            Handover::Keep
        } else {
            Handover::Move
        };
        handover.push(what);
        i += 1;
    }
    Some(StepRequest { dt_micros, gravity_x, gravity_y, bodies, handover })
}

/// Writes the solver's reports back into the registry.
///
/// A report moves its body only if the handle is known and the body is
/// `Dynamic`. Of several reports about one body the last one counts. Modes
/// and shapes are never touched.
pub fn apply_step(registry: &mut Registry, reports: &Vec<SolvedPose>)
    requires
        old(registry).wf(),
    ensures
        final(registry).wf(),
        final(registry)@ == settled(old(registry)@, reports@),
        final(registry)@.len() == old(registry)@.len(),
        forall|i: int|
            0 <= i < old(registry)@.len() ==> (#[trigger] final(registry)@[i]).mode == old(
                registry,
            )@[i].mode && final(registry)@[i].shape == old(registry)@[i].shape,
        forall|i: int|
            0 <= i < old(registry)@.len() && old(registry)@[i].mode != MotionMode::Dynamic
                ==> #[trigger] final(registry)@[i] == old(registry)@[i],
{
    let mut k: usize = 0;
    while k < reports.len()
        invariant
            k <= reports.len(),
            registry.wf(),
            registry@ == settled(old(registry)@, reports@.take(k as int)),
        decreases reports.len() - k,
    {
        let report = reports[k];
        match registry.get_motion_mode(report.handle) {
            Ok(MotionMode::Dynamic) => {
                registry.store_pose(report.handle, report.pose);
            },
            _ => {},
        }
        k += 1;
        proof {
            let seen = reports@.take(k as int);
            assert(seen.drop_last() == reports@.take(k - 1));
            assert(registry@ =~= settled(old(registry)@, seen));
        }
    }
    proof {
        assert(reports@.take(k as int) == reports@);
    }
}

/// Bodies that the solver does not drive come out of a step as they went in,
/// whatever the solver reported.
pub proof fn lemma_step_moves_only_dynamic(bodies: Seq<Body>, reports: Seq<SolvedPose>, i: int)
    requires
        0 <= i < bodies.len(),
        bodies[i].mode != MotionMode::Dynamic,
    ensures
        settled(bodies, reports)[i] == bodies[i],
{
}

/// A step changes neither the number of bodies nor any mode or shape.
pub proof fn lemma_step_keeps_modes_and_shapes(bodies: Seq<Body>, reports: Seq<SolvedPose>)
    ensures
        settled(bodies, reports).len() == bodies.len(),
        forall|i: int|
            0 <= i < bodies.len() ==> (#[trigger] settled(bodies, reports)[i]).mode
                == bodies[i].mode && settled(bodies, reports)[i].shape == bodies[i].shape,
{
}

/// A step without reports changes nothing.
pub proof fn lemma_step_without_reports(bodies: Seq<Body>)
    ensures
        settled(bodies, Seq::<SolvedPose>::empty()) == bodies,
{
}

/// A `Dynamic` body that has taken the pose the solver reported for it is
/// left where it is by the next request: the solver is never asked to move a
/// body back to where the solver itself put it.
pub proof fn lemma_reported_body_is_kept(
    bodies: Seq<Body>,
    reports: Seq<SolvedPose>,
    mirror: Seq<Pose>,
    i: int,
)
    requires
        0 <= i < bodies.len(),
        i < mirror.len(),
        bodies[i].mode == MotionMode::Dynamic,
        last_report_for(reports, i) == Some(mirror[i]),
    ensures
        handover_for(settled(bodies, reports)[i], mirror, i) == Handover::Keep,
{
}

/// Of the reports about one body only the last counts, so reports written
/// back in two batches give what they give in one.
pub proof fn lemma_step_in_batches(bodies: Seq<Body>, first: Seq<SolvedPose>, second: Seq<SolvedPose>)
    ensures
        settled(settled(bodies, first), second) == settled(bodies, first + second),
{
    assert forall|i: int| 0 <= i < bodies.len() implies settled(settled(bodies, first), second)[i]
        == settled(bodies, first + second)[i] by {
        lemma_last_report_of_batches(first, second, i);
    }
    assert(settled(settled(bodies, first), second) =~= settled(bodies, first + second));
}

/// The last report about a body in two batches is the last one of the second
/// batch, or, where the second has none, the last one of the first.
pub proof fn lemma_last_report_of_batches(first: Seq<SolvedPose>, second: Seq<SolvedPose>, i: int)
    ensures
        last_report_for(first + second, i) == match last_report_for(second, i) {
            Some(pose) => Some(pose),
            None => last_report_for(first, i),
        },
    decreases second.len(),
{
    if second.len() == 0 {
    } else {
        assert((first + second).drop_last() == first + second.drop_last());
        lemma_last_report_of_batches(first, second.drop_last(), i);
    }
}

} // verus!
