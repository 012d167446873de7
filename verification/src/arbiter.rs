//! The hysteretic driving-mode arbiter.
//!
//! Each step the arbiter derives a candidate mode from the latest scene,
//! Emergency first, then Manual, else Autonomous. The candidate replaces the
//! current mode only when it differs from it and either is Emergency, or no
//! change has happened yet, or the cooldown since the last change has run
//! out. Speed and steering then move a little, whatever was decided, and the
//! current mode is announced.

use crate::fixed::{clamp_int, clamp_milli, max_milli, trunc_div};
use crate::messages::{CarData, DrivingMode, Scene};
use crate::random::{random_walk_milli, spec_random_walk, RandomSource, WalkDraw, WalkRule};
use vstd::prelude::*;

verus! {

/// An obstacle closer than this, in millimetres, calls for Emergency.
pub const EMERGENCY_THRESHOLD: i64 = 4_000;

/// An obstacle closer than this, in millimetres, calls for Manual.
pub const MANUAL_DISTANCE_THRESHOLD: i64 = 6_000;

/// More people than this call for Manual.
pub const MANUAL_PEOPLE_LIMIT: usize = 4;

/// More cars than this call for Manual.
pub const MANUAL_CARS_LIMIT: usize = 5;

/// Default dwell time, in milliseconds, before a non-emergency change.
pub const DEFAULT_COOLDOWN_MS: u64 = 15_000;

/// Lowest speed the vehicle is ever given, in thousandths of a km/h.
pub const MIN_SPEED: i64 = 5_000;

/// Highest speed the vehicle is ever given, in thousandths of a km/h.
pub const MAX_SPEED: i64 = 120_000;

/// Speed and target speed of a fresh arbiter.
pub const INITIAL_SPEED: i64 = 50_000;

/// Lowest target speed any mode sets.
pub const MIN_TARGET_SPEED: i64 = 10_000;

/// Highest target speed any mode sets.
pub const MAX_TARGET_SPEED: i64 = 75_000;

/// Largest steering angle to either side, in thousandths of a degree.
pub const MAX_STEERING: i64 = 10_000;

/// Brake force applied on entering Emergency, in thousandths of a percent.
pub const EMERGENCY_BRAKE_FORCE: i64 = 80_000;

/// Below this obstacle distance Manual derives its target speed from the
/// distance instead of drawing it.
pub const MANUAL_CLOSE_RANGE: i64 = 10_000;

/// Each step closes one part in this many of the gap to the target speed.
pub const SMOOTHING_DIVISOR: i64 = 10;

/// The mode the scene calls for, evaluated Emergency first, then Manual.
pub open spec fn spec_candidate_mode(scene: Scene) -> DrivingMode {
    if scene.distance_obstacle < EMERGENCY_THRESHOLD {
        DrivingMode::Emergency
    } else if scene.distance_obstacle < MANUAL_DISTANCE_THRESHOLD || scene.num_people
        > MANUAL_PEOPLE_LIMIT || scene.num_cars > MANUAL_CARS_LIMIT {
        DrivingMode::Manual
    } else {
        DrivingMode::Autonomous
    }
}

/// The mode the scene calls for, before any cooldown is considered.
pub fn candidate_mode(scene: &Scene) -> (mode: DrivingMode)
    ensures
        mode == spec_candidate_mode(*scene),
{
    if scene.distance_obstacle < EMERGENCY_THRESHOLD {
        DrivingMode::Emergency
    } else if scene.distance_obstacle < MANUAL_DISTANCE_THRESHOLD || scene.num_people
        > MANUAL_PEOPLE_LIMIT || scene.num_cars > MANUAL_CARS_LIMIT {
        DrivingMode::Manual
    } else {
        DrivingMode::Autonomous
    }
}

/// Milliseconds from `since` to `now`; zero if the clock read earlier.
pub open spec fn spec_elapsed(now: u64, since: u64) -> int {
    if now >= since {
        now - since
    } else {
        0
    }
}

/// Whether a change to `candidate` is allowed at `now`: always for Emergency,
/// always before the first change, otherwise once the cooldown has run out.
pub open spec fn spec_can_change_mode(
    candidate: DrivingMode,
    last_change: Option<u64>,
    now: u64,
    cooldown: u64,
) -> bool {
    candidate == DrivingMode::Emergency || match last_change {
        None => true,
        Some(at) => spec_elapsed(now, at) >= cooldown,
    }
}

/// The cooldown guard.
pub fn can_change_mode(
    candidate: DrivingMode,
    last_change: Option<u64>,
    now: u64,
    cooldown: u64,
) -> (allowed: bool)
    ensures
        allowed == spec_can_change_mode(candidate, last_change, now, cooldown),
{
    match candidate {
        DrivingMode::Emergency => true,
        _ => match last_change {
            None => true,
            Some(at) => {
                let elapsed: u64 = if now >= at {
                    now - at
                } else {
                    0
                };
                elapsed >= cooldown
            },
        },
    }
}

/// The random walks that shape the vehicle's behaviour.
#[derive(Clone, Copy, Debug, PartialEq, Eq, Structural)]
pub enum BehaviorWalk {
    /// Target speed on entering Manual away from obstacles.
    ManualSpeed,
    /// Brake force on entering Manual.
    ManualBrake,
    /// Target speed on entering Autonomous.
    AutonomousSpeed,
    /// Brake force on entering Autonomous.
    AutonomousBrake,
    /// Steering angle, every step.
    Steering,
}

/// Base value each behaviour walk starts from; steering starts from the
/// current angle instead.
pub open spec fn spec_walk_base(walk: BehaviorWalk) -> int {
    match walk {
        BehaviorWalk::ManualSpeed => 40_000,
        BehaviorWalk::AutonomousSpeed => 65_000,
        _ => 0,
    }
}

/// Chance, perturbation and clamp range of each behaviour walk.
pub open spec fn spec_behavior_rule(walk: BehaviorWalk) -> WalkRule {
    match walk {
        BehaviorWalk::ManualSpeed => WalkRule {
            change_percent: 30,
            max_delta: 15_000,
            lo: 25_000,
            hi: 70_000,
        },
        BehaviorWalk::ManualBrake => WalkRule {
            change_percent: 20,
            max_delta: 20_000,
            lo: 0,
            hi: 40_000,
        },
        BehaviorWalk::AutonomousSpeed => WalkRule {
            change_percent: 10,
            max_delta: 5_000,
            lo: 60_000,
            hi: 75_000,
        },
        BehaviorWalk::AutonomousBrake => WalkRule {
            change_percent: 10,
            max_delta: 5_000,
            lo: 0,
            hi: 15_000,
        },
        BehaviorWalk::Steering => WalkRule {
            change_percent: 10,
            max_delta: 2_000,
            lo: (-10_000) as i64,
            hi: 10_000,
        },
    }
}

/// Chance, perturbation and clamp range of each behaviour walk.
pub fn behavior_rule(walk: BehaviorWalk) -> (rule: WalkRule)
    ensures
        rule == spec_behavior_rule(walk),
        rule.wf(),
{
    match walk {
        BehaviorWalk::ManualSpeed => WalkRule {
            change_percent: 30,
            max_delta: 15_000,
            lo: 25_000,
            hi: 70_000,
        },
        BehaviorWalk::ManualBrake => WalkRule {
            change_percent: 20,
            max_delta: 20_000,
            lo: 0,
            hi: 40_000,
        },
        BehaviorWalk::AutonomousSpeed => WalkRule {
            change_percent: 10,
            max_delta: 5_000,
            lo: 60_000,
            hi: 75_000,
        },
        BehaviorWalk::AutonomousBrake => WalkRule {
            change_percent: 10,
            max_delta: 5_000,
            lo: 0,
            hi: 15_000,
        },
        BehaviorWalk::Steering => WalkRule {
            change_percent: 10,
            max_delta: 2_000,
            lo: -10_000,
            hi: 10_000,
        },
    }
}

/// The raw draws one arbiter step may consume.
#[derive(Clone, Copy, Debug, PartialEq, Eq, Structural)]
pub struct ArbiterDraws {
    /// For the target speed of the mode entered.
    pub speed: WalkDraw,
    /// For the brake force of the mode entered.
    pub brake: WalkDraw,
    /// For the steering angle.
    pub steering: WalkDraw,
}

impl ArbiterDraws {
    /// Takes the draws for one arbiter step from `rng`: those for the
    /// speed first, then those for the brake, then those for the steering.
    pub fn draw<R: RandomSource>(rng: &mut R) -> (draws: ArbiterDraws)
        ensures
            final(rng).drawn() == old(rng).drawn() + draws.spec_raws(),
    {
        let speed = WalkDraw::draw(rng);
        let brake = WalkDraw::draw(rng);
        let steering = WalkDraw::draw(rng);
        let draws = ArbiterDraws { speed, brake, steering };
        assert(rng.drawn() =~= old(rng).drawn() + draws.spec_raws());
        draws
    }

    /// The raw draws in the order they were taken.
    pub open spec fn spec_raws(self) -> Seq<u64> {
        self.speed.spec_raws() + self.brake.spec_raws() + self.steering.spec_raws()
    }
}

/// The target speed set on entering `mode`.
///
/// Emergency: three tenths of the current speed, at least 10 km/h.
/// Manual: 30 km/h plus three times the obstacle distance when the obstacle
/// is within 10 m, else a walk around 40 km/h; kept within 25 to 70 km/h.
/// Autonomous: a walk around 65 km/h, kept within 60 to 75 km/h.
pub open spec fn spec_target_speed(
    mode: DrivingMode,
    current_speed: int,
    distance: int,
    draw: WalkDraw,
) -> int {
    match mode {
        DrivingMode::Emergency => {
            let reduced = trunc_div(current_speed * 3, 10);
            if reduced >= MIN_TARGET_SPEED {
                reduced
            } else {
                MIN_TARGET_SPEED as int
            }
        },
        DrivingMode::Manual => {
            if distance < MANUAL_CLOSE_RANGE {
                clamp_int(30_000 + 3 * distance, 25_000, 70_000)
            } else {
                spec_random_walk(
                    spec_walk_base(BehaviorWalk::ManualSpeed),
                    spec_behavior_rule(BehaviorWalk::ManualSpeed),
                    draw,
                )
            }
        },
        DrivingMode::Autonomous => spec_random_walk(
            spec_walk_base(BehaviorWalk::AutonomousSpeed),
            spec_behavior_rule(BehaviorWalk::AutonomousSpeed),
            draw,
        ),
    }
}

/// The brake force set on entering `mode`: 80 % for Emergency, a walk from
/// zero within 0 to 40 % for Manual and within 0 to 15 % for Autonomous.
pub open spec fn spec_brake_force(mode: DrivingMode, draw: WalkDraw) -> int {
    match mode {
        DrivingMode::Emergency => EMERGENCY_BRAKE_FORCE as int,
        DrivingMode::Manual => spec_random_walk(
            spec_walk_base(BehaviorWalk::ManualBrake),
            spec_behavior_rule(BehaviorWalk::ManualBrake),
            draw,
        ),
        DrivingMode::Autonomous => spec_random_walk(
            spec_walk_base(BehaviorWalk::AutonomousBrake),
            spec_behavior_rule(BehaviorWalk::AutonomousBrake),
            draw,
        ),
    }
}

/// The speed one smoothing step leads to: a tenth of the gap to the target
/// is closed, rounded toward zero, and the result kept within 5 to 120 km/h.
pub open spec fn spec_smoothed_speed(current_speed: int, target_speed: int) -> int {
    clamp_int(
        current_speed + trunc_div(target_speed - current_speed, SMOOTHING_DIVISOR as int),
        MIN_SPEED as int,
        MAX_SPEED as int,
    )
}

/// What the arbiter did with the candidate mode.
#[derive(Clone, Copy, Debug, PartialEq, Eq, Structural)]
pub enum Decision {
    /// The candidate is the current mode.
    Unchanged,
    /// The candidate replaced the current mode.
    Approved,
    /// The candidate differs from the current mode but the cooldown holds.
    Blocked,
}

/// What one successful arbiter step hands back.
#[derive(Clone, Copy, Debug, PartialEq, Eq, Structural)]
pub struct StepReport {
    /// The announcement to publish: the mode in force after the step.
    pub car_data: CarData,
    /// The mode the scene called for.
    pub candidate: DrivingMode,
    /// What became of the candidate.
    pub decision: Decision,
    /// Whether the announced mode differs from the one announced before.
    pub newly_announced: bool,
}

/// Everything the arbiter remembers between steps.
#[derive(Clone, Copy, Debug)]
pub struct ArbiterState {
    /// The mode in force.
    pub current_mode: DrivingMode,
    /// The mode last announced, if any.
    pub previous_published_mode: Option<DrivingMode>,
    /// When the mode last changed, in milliseconds; `None` before the first change.
    pub last_change_timestamp: Option<u64>,
    /// Fixed at [`EMERGENCY_THRESHOLD`].
    pub emergency_threshold: i64,
    /// Fixed at [`MANUAL_DISTANCE_THRESHOLD`].
    pub obstacle_threshold: i64,
    /// Speed in thousandths of a km/h.
    pub current_speed: i64,
    /// The speed the vehicle is heading for.
    pub target_speed: i64,
    /// Steering angle in thousandths of a degree.
    pub steering_angle: i64,
    /// Brake force in thousandths of a percent.
    pub brake_force: i64,
    /// Dwell time in milliseconds before a non-emergency change.
    pub cooldown_duration: u64,
}

/// The state of a fresh arbiter: Manual, nothing announced, no change yet.
pub open spec fn spec_initial_state(cooldown: u64) -> ArbiterState {
    ArbiterState {
        current_mode: DrivingMode::Manual,
        previous_published_mode: None,
        last_change_timestamp: None,
        emergency_threshold: EMERGENCY_THRESHOLD,
        obstacle_threshold: MANUAL_DISTANCE_THRESHOLD,
        current_speed: INITIAL_SPEED,
        target_speed: INITIAL_SPEED,
        steering_angle: 0,
        brake_force: 0,
        cooldown_duration: cooldown,
    }
}

impl ArbiterState {
    /// Thresholds are the fixed ones and every dynamic value is in its range.
    pub open spec fn wf(&self) -> bool {
        &&& self.emergency_threshold == EMERGENCY_THRESHOLD
        &&& self.obstacle_threshold == MANUAL_DISTANCE_THRESHOLD
        &&& MIN_SPEED <= self.current_speed <= MAX_SPEED
        &&& MIN_TARGET_SPEED <= self.target_speed <= MAX_TARGET_SPEED
        &&& -MAX_STEERING <= self.steering_angle <= MAX_STEERING
        &&& 0 <= self.brake_force <= EMERGENCY_BRAKE_FORCE
    }

    /// Run-time form of [`ArbiterState::wf`].
    pub fn is_valid(&self) -> (ok: bool)
        ensures
            ok == self.wf(),
    {
        self.emergency_threshold == EMERGENCY_THRESHOLD && self.obstacle_threshold
            == MANUAL_DISTANCE_THRESHOLD && MIN_SPEED <= self.current_speed && self.current_speed
            <= MAX_SPEED && MIN_TARGET_SPEED <= self.target_speed && self.target_speed
            <= MAX_TARGET_SPEED && -MAX_STEERING <= self.steering_angle && self.steering_angle
            <= MAX_STEERING && 0 <= self.brake_force && self.brake_force <= EMERGENCY_BRAKE_FORCE
    }

    /// The state of a fresh arbiter with the given cooldown.
    pub fn initial(cooldown: u64) -> (state: ArbiterState)
        ensures
            state == spec_initial_state(cooldown),
            state.wf(),
    {
        ArbiterState {
            current_mode: DrivingMode::Manual,
            previous_published_mode: None,
            last_change_timestamp: None,
            emergency_threshold: EMERGENCY_THRESHOLD,
            obstacle_threshold: MANUAL_DISTANCE_THRESHOLD,
            current_speed: INITIAL_SPEED,
            target_speed: INITIAL_SPEED,
            steering_angle: 0,
            brake_force: 0,
            cooldown_duration: cooldown,
        }
    }

    /// Whether the candidate replaces the current mode at `now`.
    pub open spec fn spec_should_change(self, candidate: DrivingMode, now: u64) -> bool {
        candidate != self.current_mode && spec_can_change_mode(
            candidate,
            self.last_change_timestamp,
            now,
            self.cooldown_duration,
        )
    }

    /// The state with the targets of `mode` set.
    pub open spec fn spec_with_behavior(
        self,
        mode: DrivingMode,
        scene: Scene,
        draws: ArbiterDraws,
    ) -> ArbiterState {
        ArbiterState {
            target_speed: spec_target_speed(
                mode,
                self.current_speed as int,
                scene.distance_obstacle as int,
                draws.speed,
            ) as i64,
            brake_force: spec_brake_force(mode, draws.brake) as i64,
            ..self
        }
    }

    /// The state after speed and steering have moved one step.
    pub open spec fn spec_adjusted(self, steering: WalkDraw) -> ArbiterState {
        ArbiterState {
            current_speed: spec_smoothed_speed(
                self.current_speed as int,
                self.target_speed as int,
            ) as i64,
            steering_angle: spec_random_walk(
                self.steering_angle as int,
                spec_behavior_rule(BehaviorWalk::Steering),
                steering,
            ) as i64,
            ..self
        }
    }

    /// The state after the mode decision alone.
    pub open spec fn spec_decided(self, scene: Scene, now: u64, draws: ArbiterDraws) -> ArbiterState {
        let candidate = spec_candidate_mode(scene);
        if self.spec_should_change(candidate, now) {
            ArbiterState {
                current_mode: candidate,
                last_change_timestamp: Some(now),
                ..self
            }.spec_with_behavior(candidate, scene, draws)
        } else {
            self
        }
    }

    /// The state after one step on an available scene.
    pub open spec fn spec_evaluate(self, scene: Scene, now: u64, draws: ArbiterDraws) -> ArbiterState {
        let adjusted = self.spec_decided(scene, now, draws).spec_adjusted(draws.steering);
        ArbiterState { previous_published_mode: Some(adjusted.current_mode), ..adjusted }
    }

    /// What one step on an available scene reports.
    pub open spec fn spec_report(self, scene: Scene, now: u64) -> StepReport {
        let candidate = spec_candidate_mode(scene);
        let mode = if self.spec_should_change(candidate, now) {
            candidate
        } else {
            self.current_mode
        };
        StepReport {
            car_data: CarData { driving_mode: mode },
            candidate,
            decision: if candidate == self.current_mode {
                Decision::Unchanged
            } else if self.spec_should_change(candidate, now) {
                Decision::Approved
            } else {
                Decision::Blocked
            },
            newly_announced: self.previous_published_mode != Some(mode),
        }
    }

    /// The state after one step, with or without a scene: with none the step
    /// is skipped and nothing changes.
    pub open spec fn spec_step(
        self,
        scene: Option<Scene>,
        now: u64,
        draws: ArbiterDraws,
    ) -> ArbiterState {
        match scene {
            Some(seen) => self.spec_evaluate(seen, now, draws),
            None => self,
        }
    }

    /// Sets target speed and brake force for the mode just entered.
    pub fn update_vehicle_behavior(&mut self, mode: DrivingMode, scene: &Scene, draws: &ArbiterDraws)
        requires
            old(self).wf(),
        ensures
            *final(self) == old(self).spec_with_behavior(mode, *scene, *draws),
            final(self).wf(),
    {
        match mode {
            DrivingMode::Emergency => {
                let reduced: i64 = self.current_speed * 3 / 10;
                self.target_speed = max_milli(reduced, MIN_TARGET_SPEED);
                self.brake_force = EMERGENCY_BRAKE_FORCE;
            },
            DrivingMode::Manual => {
                let distance: i64 = scene.distance_obstacle;
                if distance < MANUAL_CLOSE_RANGE {
                    if distance < -2_000 {
                        self.target_speed = 25_000;
                    } else {
                        self.target_speed = clamp_milli(30_000 + 3 * distance, 25_000, 70_000);
                    }
                } else {
                    let rule = behavior_rule(BehaviorWalk::ManualSpeed);
                    self.target_speed = random_walk_milli(40_000, &rule, &draws.speed);
                }
                let brake_rule = behavior_rule(BehaviorWalk::ManualBrake);
                self.brake_force = random_walk_milli(0, &brake_rule, &draws.brake);
            },
            DrivingMode::Autonomous => {
                let rule = behavior_rule(BehaviorWalk::AutonomousSpeed);
                self.target_speed = random_walk_milli(65_000, &rule, &draws.speed);
                let brake_rule = behavior_rule(BehaviorWalk::AutonomousBrake);
                self.brake_force = random_walk_milli(0, &brake_rule, &draws.brake);
            },
        }
    }

    /// Moves the speed a tenth of the way to its target and lets the
    /// steering angle wander.
    pub fn adjust_vehicle_dynamics(&mut self, steering: &WalkDraw)
        requires
            old(self).wf(),
        ensures
            *final(self) == old(self).spec_adjusted(*steering),
            final(self).wf(),
    {
        let speed_diff: i64 = self.target_speed - self.current_speed;
        let moved: i64 = self.current_speed + speed_diff / SMOOTHING_DIVISOR;
        self.current_speed = clamp_milli(moved, MIN_SPEED, MAX_SPEED);
        let rule = behavior_rule(BehaviorWalk::Steering);
        self.steering_angle = random_walk_milli(self.steering_angle, &rule, steering);
    }

    /// One arbiter step on an available scene.
    pub fn evaluate(&mut self, scene: &Scene, now: u64, draws: &ArbiterDraws) -> (report: StepReport)
        requires
            old(self).wf(),
        ensures
            *final(self) == old(self).spec_evaluate(*scene, now, *draws),
            report == old(self).spec_report(*scene, now),
            report.car_data.driving_mode == final(self).current_mode,
            final(self).wf(),
    {
        let candidate = candidate_mode(scene);
        let differs: bool = candidate != self.current_mode;
        let allowed: bool = can_change_mode(
            candidate,
            self.last_change_timestamp,
            now,
            self.cooldown_duration,
        );
        let decision = if !differs {
            Decision::Unchanged
        } else if allowed {
            Decision::Approved
        } else {
            Decision::Blocked
        };
        if differs && allowed {
            self.current_mode = candidate;
            self.last_change_timestamp = Some(now);
            self.update_vehicle_behavior(candidate, scene, draws);
        }
        self.adjust_vehicle_dynamics(&draws.steering);
        let newly_announced: bool = match self.previous_published_mode {
            Some(announced) => announced != self.current_mode,
            None => true,
        };
        self.previous_published_mode = Some(self.current_mode);
        StepReport {
            car_data: CarData { driving_mode: self.current_mode },
            candidate,
            decision,
            newly_announced,
        }
    }
}

/// The component that owns the arbiter state and keeps it well formed.
#[derive(Clone, Copy, Debug)]
pub struct ModeArbiter {
    state: ArbiterState,
}

impl View for ModeArbiter {
    type V = ArbiterState;

    closed spec fn view(&self) -> ArbiterState {
        self.state
    }
}

impl ModeArbiter {
    #[verifier::type_invariant]
    closed spec fn inv(&self) -> bool {
        self.state.wf()
    }

    /// An arbiter in Manual with the default cooldown of 15 seconds.
    pub fn new() -> (arbiter: ModeArbiter)
        ensures
            arbiter@ == spec_initial_state(DEFAULT_COOLDOWN_MS),
    {
        ModeArbiter { state: ArbiterState::initial(DEFAULT_COOLDOWN_MS) }
    }

    /// An arbiter in Manual with a cooldown of `cooldown_ms` milliseconds.
    pub fn with_cooldown(cooldown_ms: u64) -> (arbiter: ModeArbiter)
        ensures
            arbiter@ == spec_initial_state(cooldown_ms),
    {
        ModeArbiter { state: ArbiterState::initial(cooldown_ms) }
    }

    /// A copy of the state; it is always well formed.
    pub fn state(&self) -> (state: ArbiterState)
        ensures
            state == self@,
            state.wf(),
    {
        proof {
            use_type_invariant(self);
        }
        self.state
    }

    /// The mode in force.
    pub fn current_mode(&self) -> (mode: DrivingMode)
        ensures
            mode == self@.current_mode,
    {
        self.state.current_mode
    }

    /// One step on an available scene with the given draws.
    pub fn evaluate(&mut self, scene: &Scene, now: u64, draws: &ArbiterDraws) -> (report: StepReport)
        ensures
            final(self)@ == old(self)@.spec_evaluate(*scene, now, *draws),
            report == old(self)@.spec_report(*scene, now),
            report.car_data.driving_mode == final(self)@.current_mode,
    {
        proof {
            use_type_invariant(&*self);
        }
        let mut state = self.state;
        let report = state.evaluate(scene, now, draws);
        self.state = state;
        report
    }

    /// One step: with no scene nothing happens and nothing is announced;
    /// with a scene the draws come from `rng` and the report is returned.
    pub fn step<R: RandomSource>(&mut self, scene: Option<Scene>, now: u64, rng: &mut R) -> (report:
        Option<StepReport>)
        ensures
            scene is None ==> report is None && final(self)@ == old(self)@,
            scene matches Some(seen) ==> report == Some(old(self)@.spec_report(seen, now))
                && exists|draws: ArbiterDraws|
                final(self)@ == #[trigger] old(self)@.spec_evaluate(seen, now, draws),
    {
        match scene {
            None => None,
            Some(seen) => {
                let draws = ArbiterDraws::draw(rng);
                let report = self.evaluate(&seen, now, &draws);
                Some(report)
            },
        }
    }
}

} // verus!
