use dragsim::body::{Body, BodyHandle, MotionMode, Pose, Shape};
use dragsim::driver::TICK_MICROS;
use dragsim::interaction::{DragOutcome, InteractionController};
use dragsim::registry::Registry;
use dragsim::simulation::{apply_step, plan_step, Handover, SolvedPose, StepRequest};
use rapier2d::dynamics::{
    CCDSolver, ImpulseJointSet, IntegrationParameters, IslandManager, MultibodyJointSet,
    RigidBodyBuilder, RigidBodyHandle, RigidBodySet, RigidBodyType,
};
use rapier2d::geometry::{ColliderBuilder, ColliderSet, DefaultBroadPhase, NarrowPhase};
use rapier2d::na::{UnitComplex, Vector2};
use rapier2d::pipeline::{PhysicsPipeline, QueryPipeline};

/// Coordinate ticks per simulation unit.
const TICKS: f32 = 1000.0;
/// Rotation ticks per radian.
const ANGLE_TICKS: f32 = 1_000_000.0;

fn to_ticks(value: f32, scale: f32) -> i32 {
    (value * scale).round() as i32
}

fn to_units(ticks: i32, scale: f32) -> f32 {
    ticks as f32 / scale
}

fn units(value: i32) -> i32 {
    value * 1000
}

/// A rapier world that mirrors a registry, body for body.
struct Solver {
    pipeline: PhysicsPipeline,
    islands: IslandManager,
    broad_phase: DefaultBroadPhase,
    narrow_phase: NarrowPhase,
    bodies: RigidBodySet,
    colliders: ColliderSet,
    impulse_joints: ImpulseJointSet,
    multibody_joints: MultibodyJointSet,
    ccd: CCDSolver,
    queries: QueryPipeline,
    handles: Vec<RigidBodyHandle>,
    restitution: f32,
}

impl Solver {
    fn new(restitution: f32) -> Solver {
        Solver {
            pipeline: PhysicsPipeline::new(),
            islands: IslandManager::new(),
            broad_phase: DefaultBroadPhase::new(),
            narrow_phase: NarrowPhase::new(),
            bodies: RigidBodySet::new(),
            colliders: ColliderSet::new(),
            impulse_joints: ImpulseJointSet::new(),
            multibody_joints: MultibodyJointSet::new(),
            ccd: CCDSolver::new(),
            queries: QueryPipeline::new(),
            handles: Vec::new(),
            restitution,
        }
    }

    fn body_type(mode: MotionMode) -> RigidBodyType {
        match mode {
            MotionMode::Fixed => RigidBodyType::Fixed,
            MotionMode::Dynamic => RigidBodyType::Dynamic,
            MotionMode::UserDriven => RigidBodyType::KinematicPositionBased,
        }
    }

    fn pose_of(&self, index: usize) -> Pose {
        let body = &self.bodies[self.handles[index]];
        Pose {
            x: to_ticks(body.translation().x, TICKS),
            y: to_ticks(body.translation().y, TICKS),
            rotation: to_ticks(body.rotation().angle(), ANGLE_TICKS),
        }
    }

    fn vertical_velocity(&self, handle: BodyHandle) -> f32 {
        self.bodies[self.handles[handle.index()]].linvel().y
    }

    fn insert(&mut self, body: &Body) {
        let translation =
            Vector2::new(to_units(body.pose.x, TICKS), to_units(body.pose.y, TICKS));
        let rigid_body = RigidBodyBuilder::new(Solver::body_type(body.mode))
            .translation(translation)
            .rotation(to_units(body.pose.rotation, ANGLE_TICKS))
            .build();
        let collider = match body.shape {
            Shape::Circle { radius } => ColliderBuilder::ball(to_units(radius, TICKS)),
            Shape::Box { half_width, half_height } => {
                ColliderBuilder::cuboid(to_units(half_width, TICKS), to_units(half_height, TICKS))
            }
        }
        .restitution(self.restitution)
        .build();
        let handle = self.bodies.insert(rigid_body);
        self.colliders.insert_with_parent(collider, handle, &mut self.bodies);
        self.handles.push(handle);
    }

    fn poses(&self) -> Vec<Pose> {
        (0..self.handles.len()).map(|index| self.pose_of(index)).collect()
    }

    fn solve(&mut self, request: &StepRequest) -> Vec<SolvedPose> {
        for (index, body) in request.bodies.iter().enumerate() {
            if request.handover[index] == Handover::Add {
                self.insert(body);
                continue;
            }
            let mirrored = &mut self.bodies[self.handles[index]];
            mirrored.set_body_type(Solver::body_type(body.mode), true);
            if request.handover[index] == Handover::Move {
                mirrored.set_translation(
                    Vector2::new(to_units(body.pose.x, TICKS), to_units(body.pose.y, TICKS)),
                    true,
                );
                mirrored.set_rotation(
                    UnitComplex::new(to_units(body.pose.rotation, ANGLE_TICKS)),
                    true,
                );
            }
        }
        let gravity = Vector2::new(
            to_units(request.gravity_x, TICKS),
            to_units(request.gravity_y, TICKS),
        );
        let mut parameters = IntegrationParameters::default();
        parameters.dt = request.dt_micros as f32 / 1_000_000.0;
        self.pipeline.step(
            &gravity,
            &parameters,
            &mut self.islands,
            &mut self.broad_phase,
            &mut self.narrow_phase,
            &mut self.bodies,
            &mut self.colliders,
            &mut self.impulse_joints,
            &mut self.multibody_joints,
            &mut self.ccd,
            Some(&mut self.queries),
            &(),
            &(),
        );
        self.poses()
            .into_iter()
            .enumerate()
            .map(|(index, pose)| SolvedPose { handle: BodyHandle::from_index(index), pose })
            .collect()
    }
}

fn step(registry: &mut Registry, solver: &mut Solver, dt_micros: u32, gravity_y: i32) {
    if let Some(request) = plan_step(registry, &solver.poses(), dt_micros, 0, gravity_y) {
        let reports = solver.solve(&request);
        apply_step(registry, &reports);
    }
}

fn floor(registry: &mut Registry) -> BodyHandle {
    registry
        .create_body(
            Shape::Box { half_width: units(1000), half_height: units(10) },
            Pose { x: 0, y: units(-640), rotation: 0 },
            MotionMode::Fixed,
        )
        .unwrap()
}

fn circle(registry: &mut Registry, x: i32, y: i32) -> BodyHandle {
    registry
        .create_body(
            Shape::Circle { radius: units(30) },
            Pose { x: units(x), y: units(y), rotation: 0 },
            MotionMode::Dynamic,
        )
        .unwrap()
}

const GRAVITY: i32 = -19_810;
const FLOOR_TOP: i32 = -630_000;
const RADIUS: i32 = 30_000;

#[test]
fn a_step_of_the_solver_never_moves_the_floor() {
    for (dt_micros, gravity_y) in [(16_667, GRAVITY), (1_000, -981_000), (50_000, 500_000), (16_667, 0)] {
        let mut registry = Registry::new();
        let mut solver = Solver::new(0.0);
        let ground = floor(&mut registry);
        let ball = circle(&mut registry, 0, -599);
        for _ in 0..120 {
            step(&mut registry, &mut solver, dt_micros, gravity_y);
            assert_eq!(registry.get_pose(ground), Ok(Pose { x: 0, y: units(-640), rotation: 0 }));
            assert_eq!(registry.get_motion_mode(ground), Ok(MotionMode::Fixed));
        }
        assert_eq!(registry.get_motion_mode(ball), Ok(MotionMode::Dynamic));
    }
}

#[test]
fn a_dynamic_body_falls_under_gravity() {
    let mut registry = Registry::new();
    let mut solver = Solver::new(0.0);
    let ball = circle(&mut registry, 0, -100);
    let mut last = registry.get_pose(ball).unwrap().y;
    for _ in 0..60 {
        step(&mut registry, &mut solver, TICK_MICROS, GRAVITY);
        let now = registry.get_pose(ball).unwrap().y;
        assert!(now < last);
        last = now;
    }
    assert_eq!(registry.get_pose(ball).unwrap().x, 0);
}

#[test]
fn a_body_resting_on_the_floor_comes_to_rest_without_sinking() {
    let mut registry = Registry::new();
    let mut solver = Solver::new(0.0);
    floor(&mut registry);
    let ball = circle(&mut registry, 0, -600);
    let tolerance = 500;
    for _ in 0..600 {
        step(&mut registry, &mut solver, TICK_MICROS, GRAVITY);
        let bottom = registry.get_pose(ball).unwrap().y - RADIUS;
        assert!(bottom >= FLOOR_TOP - tolerance, "sank to {bottom}");
        assert!(bottom <= FLOOR_TOP + tolerance, "rose to {bottom}");
    }
    assert!(solver.vertical_velocity(ball).abs() < 0.05);
}

#[test]
fn ten_dropped_circles_settle_on_the_floor() {
    let mut registry = Registry::new();
    let mut solver = Solver::new(0.0);
    let ground = floor(&mut registry);
    let circles: Vec<BodyHandle> =
        (0..10).map(|i| circle(&mut registry, -315 + 70 * i, -100)).collect();
    let seconds = 30;
    for _ in 0..seconds * 60 {
        step(&mut registry, &mut solver, TICK_MICROS, GRAVITY);
    }
    let tolerance = 500;
    for handle in circles {
        let bottom = registry.get_pose(handle).unwrap().y - RADIUS;
        assert!((bottom - FLOOR_TOP).abs() <= tolerance, "bottom edge at {bottom}");
        assert!(solver.vertical_velocity(handle).abs() < 0.05);
    }
    assert_eq!(registry.get_pose(ground), Ok(Pose { x: 0, y: units(-640), rotation: 0 }));
}

#[test]
fn the_same_scene_steps_the_same_way_twice() {
    let mut poses = Vec::new();
    for _ in 0..2 {
        let mut registry = Registry::new();
        let mut solver = Solver::new(0.0);
        floor(&mut registry);
        for i in 0..3 {
            circle(&mut registry, 10 * i, -560);
        }
        for _ in 0..300 {
            step(&mut registry, &mut solver, TICK_MICROS, GRAVITY);
        }
        poses.push(registry.bodies());
    }
    assert_eq!(poses[0], poses[1]);
}

#[test]
fn a_held_body_stays_under_the_pointer_while_the_solver_runs() {
    let mut registry = Registry::new();
    let mut solver = Solver::new(0.0);
    let mut controller = InteractionController::new();
    floor(&mut registry);
    let ball = circle(&mut registry, 0, -100);
    for _ in 0..30 {
        step(&mut registry, &mut solver, TICK_MICROS, GRAVITY);
    }
    assert!(registry.get_pose(ball).unwrap().y < units(-100));

    assert_eq!(controller.drag_start(&mut registry, ball), Ok(DragOutcome::Started));
    assert_eq!(
        controller.drag_move(&mut registry, ball, units(200), units(300)),
        Ok(DragOutcome::Moved)
    );
    let held = Pose { x: units(200), y: units(-330), rotation: registry.get_pose(ball).unwrap().rotation };
    for _ in 0..60 {
        step(&mut registry, &mut solver, TICK_MICROS, GRAVITY);
        assert_eq!(registry.get_pose(ball), Ok(held));
    }
    assert_eq!(solver.pose_of(ball.index()).y, held.y);

    assert_eq!(controller.drag_end(&mut registry, ball), Ok(DragOutcome::Ended));
    for _ in 0..60 {
        step(&mut registry, &mut solver, TICK_MICROS, GRAVITY);
    }
    let released = registry.get_pose(ball).unwrap();
    assert!(released.y < held.y);
    assert_eq!(registry.get_motion_mode(ball), Ok(MotionMode::Dynamic));
}
