use pullpiri::arbiter::{
    behavior_rule, ArbiterDraws, ArbiterState, BehaviorWalk, ModeArbiter, MAX_SPEED, MIN_SPEED,
};
use pullpiri::messages::{DrivingMode, Scene};
use pullpiri::random::{SeededRandom, WalkDraw};

fn scene_at(distance_obstacle: i64) -> Scene {
    Scene {
        num_people: 0,
        num_cars: 0,
        distance_obstacle,
        distance_left_lane: 700,
        distance_right_lane: 700,
    }
}

fn rest() -> WalkDraw {
    WalkDraw { roll: 99, delta: 0 }
}

fn moving(max_delta: i64, delta: i64) -> WalkDraw {
    WalkDraw { roll: 0, delta: (max_delta + delta) as u64 }
}

fn still() -> ArbiterDraws {
    ArbiterDraws { speed: rest(), brake: rest(), steering: rest() }
}

#[test]
fn behaviour_walks_have_their_declared_parameters() {
    let rule = behavior_rule(BehaviorWalk::ManualSpeed);
    assert_eq!((rule.change_percent, rule.max_delta, rule.lo, rule.hi), (30, 15_000, 25_000, 70_000));
    let rule = behavior_rule(BehaviorWalk::ManualBrake);
    assert_eq!((rule.change_percent, rule.max_delta, rule.lo, rule.hi), (20, 20_000, 0, 40_000));
    let rule = behavior_rule(BehaviorWalk::AutonomousSpeed);
    assert_eq!((rule.change_percent, rule.max_delta, rule.lo, rule.hi), (10, 5_000, 60_000, 75_000));
    let rule = behavior_rule(BehaviorWalk::AutonomousBrake);
    assert_eq!((rule.change_percent, rule.max_delta, rule.lo, rule.hi), (10, 5_000, 0, 15_000));
    let rule = behavior_rule(BehaviorWalk::Steering);
    assert_eq!((rule.change_percent, rule.max_delta, rule.lo, rule.hi), (10, 2_000, -10_000, 10_000));
}

#[test]
fn emergency_sets_three_tenths_of_the_speed_and_heavy_braking() {
    let mut state = ArbiterState::initial(15_000);
    state.update_vehicle_behavior(DrivingMode::Emergency, &scene_at(2_000), &still());
    assert_eq!(state.target_speed, 15_000);
    assert_eq!(state.brake_force, 80_000);

    let mut fast = ArbiterState { current_speed: 120_000, ..ArbiterState::initial(15_000) };
    fast.update_vehicle_behavior(DrivingMode::Emergency, &scene_at(2_000), &still());
    assert_eq!(fast.target_speed, 36_000);

    let mut slow = ArbiterState { current_speed: 20_000, ..ArbiterState::initial(15_000) };
    slow.update_vehicle_behavior(DrivingMode::Emergency, &scene_at(2_000), &still());
    assert_eq!(slow.target_speed, 10_000);

    let mut odd = ArbiterState { current_speed: 33_335, ..ArbiterState::initial(15_000) };
    odd.update_vehicle_behavior(DrivingMode::Emergency, &scene_at(2_000), &still());
    assert_eq!(odd.target_speed, 10_000);
    let mut odd = ArbiterState { current_speed: 33_337, ..ArbiterState::initial(15_000) };
    odd.update_vehicle_behavior(DrivingMode::Emergency, &scene_at(2_000), &still());
    assert_eq!(odd.target_speed, 10_001);
}

#[test]
fn manual_speed_follows_the_distance_within_ten_metres() {
    let mut state = ArbiterState::initial(15_000);
    let draws = ArbiterDraws { speed: moving(15_000, 9_000), brake: rest(), steering: rest() };
    state.update_vehicle_behavior(DrivingMode::Manual, &scene_at(8_000), &draws);
    assert_eq!(state.target_speed, 54_000);
    assert_eq!(state.brake_force, 0);
    state.update_vehicle_behavior(DrivingMode::Manual, &scene_at(4_000), &draws);
    assert_eq!(state.target_speed, 42_000);
    state.update_vehicle_behavior(DrivingMode::Manual, &scene_at(9_999), &draws);
    assert_eq!(state.target_speed, 59_997);
    state.update_vehicle_behavior(DrivingMode::Manual, &scene_at(-1_000), &draws);
    assert_eq!(state.target_speed, 27_000);
    state.update_vehicle_behavior(DrivingMode::Manual, &scene_at(-2_000), &draws);
    assert_eq!(state.target_speed, 25_000);
    state.update_vehicle_behavior(DrivingMode::Manual, &scene_at(i64::MIN), &draws);
    assert_eq!(state.target_speed, 25_000);
}

#[test]
fn manual_speed_walks_around_forty_beyond_ten_metres() {
    let mut state = ArbiterState::initial(15_000);
    state.update_vehicle_behavior(DrivingMode::Manual, &scene_at(10_000), &still());
    assert_eq!(state.target_speed, 40_000);
    let draws = ArbiterDraws {
        speed: moving(15_000, 12_345),
        brake: moving(20_000, 17_500),
        steering: rest(),
    };
    state.update_vehicle_behavior(DrivingMode::Manual, &scene_at(10_000), &draws);
    assert_eq!(state.target_speed, 52_345);
    assert_eq!(state.brake_force, 17_500);
    let draws = ArbiterDraws {
        speed: moving(15_000, -15_000),
        brake: moving(20_000, -3_000),
        steering: rest(),
    };
    state.update_vehicle_behavior(DrivingMode::Manual, &scene_at(i64::MAX), &draws);
    assert_eq!(state.target_speed, 25_000);
    assert_eq!(state.brake_force, 0);
}

#[test]
fn autonomous_cruises_between_sixty_and_seventy_five() {
    let mut state = ArbiterState::initial(15_000);
    state.update_vehicle_behavior(DrivingMode::Autonomous, &scene_at(40_000), &still());
    assert_eq!(state.target_speed, 65_000);
    assert_eq!(state.brake_force, 0);
    let draws = ArbiterDraws {
        speed: moving(5_000, -5_000),
        brake: moving(5_000, 4_200),
        steering: rest(),
    };
    state.update_vehicle_behavior(DrivingMode::Autonomous, &scene_at(40_000), &draws);
    assert_eq!(state.target_speed, 60_000);
    assert_eq!(state.brake_force, 4_200);
    let draws = ArbiterDraws { speed: moving(5_000, 5_000), brake: rest(), steering: rest() };
    state.update_vehicle_behavior(DrivingMode::Autonomous, &scene_at(40_000), &draws);
    assert_eq!(state.target_speed, 70_000);
}

#[test]
fn speed_closes_a_tenth_of_the_gap() {
    let mut state = ArbiterState { target_speed: 15_000, ..ArbiterState::initial(15_000) };
    state.adjust_vehicle_dynamics(&rest());
    assert_eq!(state.current_speed, 46_500);
    state.adjust_vehicle_dynamics(&rest());
    assert_eq!(state.current_speed, 43_350);
    state.adjust_vehicle_dynamics(&rest());
    assert_eq!(state.current_speed, 40_515);

    let mut rising = ArbiterState { target_speed: 65_000, ..ArbiterState::initial(15_000) };
    rising.adjust_vehicle_dynamics(&rest());
    assert_eq!(rising.current_speed, 51_500);

    let mut near = ArbiterState {
        current_speed: 50_009,
        target_speed: 50_000,
        ..ArbiterState::initial(15_000)
    };
    near.adjust_vehicle_dynamics(&rest());
    assert_eq!(near.current_speed, 50_009);
    let mut below = ArbiterState {
        current_speed: 49_985,
        target_speed: 50_000,
        ..ArbiterState::initial(15_000)
    };
    below.adjust_vehicle_dynamics(&rest());
    assert_eq!(below.current_speed, 49_986);
}

#[test]
fn steering_wanders_within_ten_degrees() {
    let mut state = ArbiterState::initial(15_000);
    state.adjust_vehicle_dynamics(&moving(2_000, 1_500));
    assert_eq!(state.steering_angle, 1_500);
    state.adjust_vehicle_dynamics(&moving(2_000, -2_000));
    assert_eq!(state.steering_angle, -500);
    state.adjust_vehicle_dynamics(&WalkDraw { roll: 10, delta: 0 });
    assert_eq!(state.steering_angle, -500);
    let mut edge = ArbiterState { steering_angle: 9_500, ..ArbiterState::initial(15_000) };
    edge.adjust_vehicle_dynamics(&moving(2_000, 2_000));
    assert_eq!(edge.steering_angle, 10_000);
    edge.adjust_vehicle_dynamics(&WalkDraw { roll: 9, delta: 4_000 });
    assert_eq!(edge.steering_angle, 10_000);
}

#[test]
fn one_step_decides_then_moves() {
    let mut arbiter = ModeArbiter::new();
    let draws = ArbiterDraws {
        speed: moving(5_000, 2_000),
        brake: moving(5_000, 1_000),
        steering: moving(2_000, -700),
    };
    arbiter.evaluate(&scene_at(40_000), 1_234, &draws);
    let state = arbiter.state();
    assert_eq!(state.current_mode, DrivingMode::Autonomous);
    assert_eq!(state.target_speed, 67_000);
    assert_eq!(state.brake_force, 1_000);
    assert_eq!(state.current_speed, 51_700);
    assert_eq!(state.steering_angle, -700);
    assert_eq!(state.last_change_timestamp, Some(1_234));
    assert_eq!(state.previous_published_mode, Some(DrivingMode::Autonomous));
}

#[test]
fn blocked_change_leaves_the_targets_alone() {
    let mut arbiter = ModeArbiter::new();
    arbiter.evaluate(&scene_at(40_000), 0, &still());
    let before = arbiter.state();
    let draws = ArbiterDraws {
        speed: moving(15_000, 9_000),
        brake: moving(20_000, 9_000),
        steering: rest(),
    };
    arbiter.evaluate(&scene_at(12_000), 1_000, &ArbiterDraws { ..draws });
    let unchanged = arbiter.state();
    assert_eq!(unchanged.current_mode, DrivingMode::Autonomous);
    assert_eq!(unchanged.target_speed, before.target_speed);
    assert_eq!(unchanged.brake_force, before.brake_force);
    arbiter.evaluate(&Scene { num_cars: 6, ..scene_at(12_000) }, 1_000, &draws);
    let blocked = arbiter.state();
    assert_eq!(blocked.current_mode, DrivingMode::Autonomous);
    assert_eq!(blocked.target_speed, before.target_speed);
    assert_eq!(blocked.brake_force, before.brake_force);
}

#[test]
fn speed_converges_monotonically_while_the_target_holds() {
    let mut arbiter = ModeArbiter::new();
    arbiter.evaluate(&scene_at(3_000), 0, &still());
    let target = arbiter.state().target_speed;
    assert_eq!(target, 15_000);
    let mut previous = arbiter.state().current_speed;
    assert_eq!(previous, 46_500);
    let mut rng = SeededRandom::new(5);
    for tick in 1..400u64 {
        arbiter.step(Some(scene_at(3_000)), tick, &mut rng);
        let state = arbiter.state();
        assert_eq!(state.target_speed, target);
        assert!(state.current_speed <= previous);
        assert!(state.current_speed >= target);
        assert!(MIN_SPEED <= state.current_speed && state.current_speed <= MAX_SPEED);
        if previous - target >= 10 {
            assert!(state.current_speed < previous);
        }
        assert_eq!(state.current_speed, previous + (target - previous) / 10);
        previous = state.current_speed;
    }
    assert!(previous - target < 10);
}

#[test]
fn speed_rises_monotonically_toward_a_higher_target() {
    let mut state = ArbiterState {
        current_speed: 5_000,
        target_speed: 75_000,
        ..ArbiterState::initial(15_000)
    };
    let mut previous = state.current_speed;
    for _ in 0..400 {
        state.adjust_vehicle_dynamics(&rest());
        assert!(previous <= state.current_speed && state.current_speed <= 75_000);
        previous = state.current_speed;
    }
    assert!(75_000 - previous < 10);
}
