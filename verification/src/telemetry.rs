//! The three per-mode telemetry publishers.
//!
//! A publisher is active when the announced mode is its own. When no
//! announcement can be read it works the mode out from the scene by itself,
//! without any cooldown. While active, and while a scene is available, it
//! derives one telemetry record per step from that scene.

use crate::fixed::{clamp_int, clamp_milli, clamp_wide, saturate, spec_saturate, trunc_div};
use crate::arbiter::spec_candidate_mode;
use crate::messages::{CarData, DrivingMode, Scene};
use vstd::prelude::*;

verus! {

/// The state of the traffic signal ahead.
#[derive(Clone, Copy, Debug, PartialEq, Eq, Structural)]
pub enum TrafficSignal {
    Green,
    Yellow,
    Red,
    Stop,
    /// Signals are overridden: the vehicle is in an emergency.
    Emergency,
}

impl TrafficSignal {
    /// The lower-case name carried on the wire.
    pub fn as_str(self) -> (name: &'static str)
        ensures
            name@ == match self {
                TrafficSignal::Green => "green"@,
                TrafficSignal::Yellow => "yellow"@,
                TrafficSignal::Red => "red"@,
                TrafficSignal::Stop => "stop"@,
                TrafficSignal::Emergency => "emergency"@,
            },
    {
        match self {
            TrafficSignal::Green => "green",
            TrafficSignal::Yellow => "yellow",
            TrafficSignal::Red => "red",
            TrafficSignal::Stop => "stop",
            TrafficSignal::Emergency => "emergency",
        }
    }
}

/// The weather the vehicle drives in.
#[derive(Clone, Copy, Debug, PartialEq, Eq, Structural)]
pub enum WeatherCondition {
    Clear,
    Rain,
    Snow,
    Fog,
}

impl WeatherCondition {
    /// The lower-case name carried on the wire.
    pub fn as_str(self) -> (name: &'static str)
        ensures
            name@ == match self {
                WeatherCondition::Clear => "clear"@,
                WeatherCondition::Rain => "rain"@,
                WeatherCondition::Snow => "snow"@,
                WeatherCondition::Fog => "fog"@,
            },
    {
        match self {
            WeatherCondition::Clear => "clear",
            WeatherCondition::Rain => "rain",
            WeatherCondition::Snow => "snow",
            WeatherCondition::Fog => "fog",
        }
    }
}

/// The state of the road surface.
#[derive(Clone, Copy, Debug, PartialEq, Eq, Structural)]
pub enum RoadCondition {
    Dry,
    Wet,
    Icy,
    Gravel,
}

impl RoadCondition {
    /// The lower-case name carried on the wire.
    pub fn as_str(self) -> (name: &'static str)
        ensures
            name@ == match self {
                RoadCondition::Dry => "dry"@,
                RoadCondition::Wet => "wet"@,
                RoadCondition::Icy => "icy"@,
                RoadCondition::Gravel => "gravel"@,
            },
    {
        match self {
            RoadCondition::Dry => "dry",
            RoadCondition::Wet => "wet",
            RoadCondition::Icy => "icy",
            RoadCondition::Gravel => "gravel",
        }
    }
}

/// What kind of emergency the vehicle is responding to.
#[derive(Clone, Copy, Debug, PartialEq, Eq, Structural)]
pub enum EmergencyType {
    CollisionAvoidance,
    Obstacle,
    Medical,
    SystemFailure,
}

impl EmergencyType {
    /// The lower-case name carried on the wire.
    pub fn as_str(self) -> (name: &'static str)
        ensures
            name@ == match self {
                EmergencyType::CollisionAvoidance => "collision_avoidance"@,
                EmergencyType::Obstacle => "obstacle"@,
                EmergencyType::Medical => "medical"@,
                EmergencyType::SystemFailure => "system_failure"@,
            },
    {
        match self {
            EmergencyType::CollisionAvoidance => "collision_avoidance",
            EmergencyType::Obstacle => "obstacle",
            EmergencyType::Medical => "medical",
            EmergencyType::SystemFailure => "system_failure",
        }
    }
}

/// Telemetry of the Autonomous mode. Quantities are in thousandths.
#[derive(Clone, Copy, Debug, PartialEq, Eq, Structural)]
pub struct AutonomousCarData {
    /// km/h.
    pub vehicle_speed: i64,
    /// Metres from the lane centre, negative to the left.
    pub lane_position: i64,
    pub obstacle_detected: bool,
    /// Metres.
    pub obstacle_distance: i64,
    pub traffic_signal: TrafficSignal,
    /// Degrees.
    pub steering_angle: i64,
    /// Percent.
    pub brake_force: i64,
    /// m/s².
    pub acceleration: i64,
    pub weather_condition: WeatherCondition,
    pub road_condition: RoadCondition,
    /// Milliseconds since the Unix epoch; not scaled.
    pub timestamp: i64,
    pub is_valid: bool,
}

/// Telemetry of the Manual mode. Quantities are in thousandths.
#[derive(Clone, Copy, Debug, PartialEq, Eq, Structural)]
pub struct ManualCarData {
    /// km/h.
    pub vehicle_speed: i64,
    /// Degrees.
    pub steering_angle: i64,
    /// Percent.
    pub brake_force: i64,
    /// m/s².
    pub acceleration: i64,
    pub weather_condition: WeatherCondition,
    pub road_condition: RoadCondition,
    pub driver_alertness: bool,
    /// Percent.
    pub throttle_position: i64,
    /// Milliseconds since the Unix epoch; not scaled.
    pub timestamp: i64,
    pub is_valid: bool,
}

/// Telemetry of the Emergency mode. Quantities are in thousandths.
#[derive(Clone, Copy, Debug, PartialEq, Eq, Structural)]
pub struct EmergencyModeData {
    /// km/h.
    pub vehicle_speed: i64,
    /// Degrees.
    pub steering_angle: i64,
    /// Percent.
    pub brake_force: i64,
    pub obstacle_detected: bool,
    /// Metres.
    pub obstacle_distance: i64,
    /// Percent.
    pub collision_risk: i64,
    pub stability_control: bool,
    pub traffic_signal: TrafficSignal,
    pub seatbelt_tightened: bool,
    pub emergency_lights: bool,
    pub emergency_type: EmergencyType,
    /// Percent.
    pub emergency_brake_force: i64,
    pub airbag_ready: bool,
    /// Milliseconds since the Unix epoch; not scaled.
    pub timestamp: i64,
    pub is_valid: bool,
}

/// The mode a publisher works out from the scene alone: Emergency below
/// four metres, else Manual below six metres or with more than four people
/// or more than five cars, else Autonomous. No cooldown applies.
pub open spec fn spec_fallback_mode(scene: Scene) -> DrivingMode {
    let emergency = scene.distance_obstacle < 4_000;
    let manual = !emergency && (scene.distance_obstacle < 6_000 || scene.num_people > 4
        || scene.num_cars > 5);
    if emergency {
        DrivingMode::Emergency
    } else if manual {
        DrivingMode::Manual
    } else {
        DrivingMode::Autonomous
    }
}

/// The mode worked out from the scene alone.
pub fn fallback_mode(scene: &Scene) -> (mode: DrivingMode)
    ensures
        mode == spec_fallback_mode(*scene),
{
    let emergency: bool = scene.distance_obstacle < 4_000;
    let manual: bool = !emergency && (scene.distance_obstacle < 6_000 || scene.num_people > 4
        || scene.num_cars > 5);
    if emergency {
        DrivingMode::Emergency
    } else if manual {
        DrivingMode::Manual
    } else {
        DrivingMode::Autonomous
    }
}

/// Whether the publisher of `target` is active: by the announcement when
/// there is one, else by the scene's own verdict, else not at all.
pub open spec fn spec_mode_is_active(
    target: DrivingMode,
    car_data: Option<CarData>,
    scene: Option<Scene>,
) -> bool {
    match car_data {
        Some(announced) => announced.driving_mode == target,
        None => match scene {
            Some(seen) => spec_fallback_mode(seen) == target,
            None => false,
        },
    }
}

/// Whether the publisher of `target` is active this step.
pub fn mode_is_active(target: DrivingMode, car_data: Option<CarData>, scene: Option<Scene>) -> (active:
    bool)
    ensures
        active == spec_mode_is_active(target, car_data, scene),
{
    match car_data {
        Some(announced) => announced.driving_mode == target,
        None => match scene {
            Some(seen) => fallback_mode(&seen) == target,
            None => false,
        },
    }
}

/// The steering correction toward the wider side of the lane: two degrees
/// right when the left marking is nearer, two left when the right one is.
pub open spec fn spec_lane_steering(scene: Scene) -> int {
    if scene.distance_left_lane < scene.distance_right_lane {
        2_000
    } else if scene.distance_right_lane < scene.distance_left_lane {
        -2_000
    } else {
        0
    }
}

/// The Autonomous cruising speed: 70, 60 or 50 km/h by obstacle distance,
/// less half a km/h per car, kept within 45 to 75 km/h.
pub open spec fn spec_autonomous_speed(scene: Scene) -> int {
    let optimal: int = if scene.distance_obstacle > 20_000 {
        70_000
    } else if scene.distance_obstacle > 15_000 {
        60_000
    } else {
        50_000
    };
    clamp_int(optimal - 500 * scene.num_cars, 45_000, 75_000)
}

/// The record the Autonomous publisher derives from a scene.
pub open spec fn spec_autonomous_telemetry(scene: Scene, timestamp: i64) -> AutonomousCarData {
    AutonomousCarData {
        vehicle_speed: spec_autonomous_speed(scene) as i64,
        lane_position: clamp_int(trunc_div(spec_lane_steering(scene), 10), -500, 500) as i64,
        obstacle_detected: scene.distance_obstacle < 30_000,
        obstacle_distance: scene.distance_obstacle,
        traffic_signal: if scene.num_cars > 5 {
            TrafficSignal::Red
        } else {
            TrafficSignal::Green
        },
        steering_angle: spec_lane_steering(scene) as i64,
        brake_force: if scene.distance_obstacle < 20_000 {
            spec_saturate((30_000 - scene.distance_obstacle) * 5) as i64
        } else {
            0
        },
        acceleration: if scene.distance_obstacle > 30_000 {
            1_500
        } else if scene.distance_obstacle < 15_000 {
            (-1_000) as i64
        } else {
            0
        },
        weather_condition: WeatherCondition::Clear,
        road_condition: RoadCondition::Dry,
        timestamp,
        is_valid: true,
    }
}

/// Derives the Autonomous telemetry record from a scene.
pub fn autonomous_telemetry(scene: &Scene, timestamp: i64) -> (record: AutonomousCarData)
    ensures
        record == spec_autonomous_telemetry(*scene, timestamp),
        45_000 <= record.vehicle_speed <= 75_000,
        -200 <= record.lane_position <= 200,
{
    let distance: i64 = scene.distance_obstacle;
    let optimal: i64 = if distance > 20_000 {
        70_000
    } else if distance > 15_000 {
        60_000
    } else {
        50_000
    };
    let vehicle_speed: i64 = clamp_wide(
        optimal as i128 - 500 * (scene.num_cars as i128),
        45_000,
        75_000,
    );
    let steering_angle: i64 = if scene.distance_left_lane < scene.distance_right_lane {
        2_000
    } else if scene.distance_right_lane < scene.distance_left_lane {
        -2_000
    } else {
        0
    };
    let brake_force: i64 = if distance < 20_000 {
        saturate((30_000 - distance as i128) * 5)
    } else {
        0
    };
    let acceleration: i64 = if distance > 30_000 {
        1_500
    } else if distance < 15_000 {
        -1_000
    } else {
        0
    };
    AutonomousCarData {
        vehicle_speed,
        lane_position: steering_angle / 10,
        obstacle_detected: distance < 30_000,
        obstacle_distance: distance,
        traffic_signal: if scene.num_cars > 5 {
            TrafficSignal::Red
        } else {
            TrafficSignal::Green
        },
        steering_angle,
        brake_force,
        acceleration,
        weather_condition: WeatherCondition::Clear,
        road_condition: RoadCondition::Dry,
        timestamp,
        is_valid: true,
    }
}

/// The Manual driving speed: 30 km/h plus three times the obstacle distance
/// within ten metres, else 45 km/h; less 2 km/h per person and 1.5 km/h per
/// car; kept within 25 to 65 km/h.
pub open spec fn spec_manual_speed(scene: Scene) -> int {
    let base: int = if scene.distance_obstacle < 10_000 {
        30_000 + 3 * scene.distance_obstacle
    } else {
        45_000
    };
    clamp_int(base - (2_000 * scene.num_people + 1_500 * scene.num_cars), 25_000, 65_000)
}

/// The Manual steering effort: one degree, or two per car beyond six, at
/// most twelve.
pub open spec fn spec_manual_steering(scene: Scene) -> int {
    clamp_int(
        if scene.num_cars > 6 {
            (scene.num_cars - 6) * 2_000
        } else {
            1_000
        },
        0,
        12_000,
    )
}

/// The record the Manual publisher derives from a scene.
pub open spec fn spec_manual_telemetry(scene: Scene, timestamp: i64) -> ManualCarData {
    ManualCarData {
        vehicle_speed: spec_manual_speed(scene) as i64,
        steering_angle: spec_manual_steering(scene) as i64,
        brake_force: if scene.distance_obstacle < 25_000 {
            spec_saturate((25_000 - scene.distance_obstacle) * 3) as i64
        } else {
            0
        },
        acceleration: if scene.distance_obstacle > 15_000 {
            1_000
        } else if scene.distance_obstacle < 8_000 {
            (-2_000) as i64
        } else {
            0
        },
        weather_condition: WeatherCondition::Clear,
        road_condition: RoadCondition::Dry,
        driver_alertness: true,
        throttle_position: clamp_int(
            trunc_div(spec_manual_speed(scene) * 100, 65),
            20_000,
            80_000,
        ) as i64,
        timestamp,
        is_valid: true,
    }
}

/// Derives the Manual telemetry record from a scene.
pub fn manual_telemetry(scene: &Scene, timestamp: i64) -> (record: ManualCarData)
    ensures
        record == spec_manual_telemetry(*scene, timestamp),
        25_000 <= record.vehicle_speed <= 65_000,
        0 <= record.steering_angle <= 12_000,
        20_000 <= record.throttle_position <= 80_000,
{
    let distance: i64 = scene.distance_obstacle;
    let base: i128 = if distance < 10_000 {
        30_000 + 3 * (distance as i128)
    } else {
        45_000
    };
    let penalty: i128 = 2_000 * (scene.num_people as i128) + 1_500 * (scene.num_cars as i128);
    let vehicle_speed: i64 = clamp_wide(base - penalty, 25_000, 65_000);
    let steering_angle: i64 = if scene.num_cars > 6 {
        clamp_wide((scene.num_cars as i128 - 6) * 2_000, 0, 12_000)
    } else {
        1_000
    };
    let brake_force: i64 = if distance < 25_000 {
        saturate((25_000 - distance as i128) * 3)
    } else {
        0
    };
    let acceleration: i64 = if distance > 15_000 {
        1_000
    } else if distance < 8_000 {
        -2_000
    } else {
        0
    };
    let throttle_position: i64 = clamp_milli(
        vehicle_speed * 100 / 65,
        20_000,
        80_000,
    );
    ManualCarData {
        vehicle_speed,
        steering_angle,
        brake_force,
        acceleration,
        weather_condition: WeatherCondition::Clear,
        road_condition: RoadCondition::Dry,
        driver_alertness: true,
        throttle_position,
        timestamp,
        is_valid: true,
    }
}

/// The Emergency speed: 5 km/h below two metres, 15 below three, else 25.
pub open spec fn spec_emergency_speed(scene: Scene) -> int {
    if scene.distance_obstacle < 2_000 {
        5_000
    } else if scene.distance_obstacle < 3_000 {
        15_000
    } else {
        25_000
    }
}

/// The kind of emergency: avoiding a collision when people are present and
/// the obstacle is within five metres, else an obstacle within three metres,
/// else a system failure.
pub open spec fn spec_emergency_type(scene: Scene) -> EmergencyType {
    if scene.num_people > 0 && scene.distance_obstacle < 5_000 {
        EmergencyType::CollisionAvoidance
    } else if scene.distance_obstacle < 3_000 {
        EmergencyType::Obstacle
    } else {
        EmergencyType::SystemFailure
    }
}

/// The evasive steering angle: 20 degrees when avoiding a collision, 15 for
/// an obstacle, else 8; to the left when the left marking is farther away,
/// else to the right.
pub open spec fn spec_emergency_steering(scene: Scene) -> int {
    let magnitude: int = match spec_emergency_type(scene) {
        EmergencyType::CollisionAvoidance => 20_000,
        EmergencyType::Obstacle => 15_000,
        _ => 8_000,
    };
    if scene.distance_left_lane > scene.distance_right_lane {
        -magnitude
    } else {
        magnitude
    }
}

/// The collision risk in percent: 100 within five metres, else ten per
/// metre short of ten metres, never below zero.
pub open spec fn spec_collision_risk(scene: Scene) -> int {
    if scene.distance_obstacle < 5_000 {
        100_000
    } else {
        clamp_int((10_000 - scene.distance_obstacle) * 10, 0, 100_000)
    }
}

/// The emergency brake force in percent: 100 within three metres, else
/// twenty per metre short of five metres, never below zero.
pub open spec fn spec_emergency_brake_force(scene: Scene) -> int {
    if scene.distance_obstacle < 3_000 {
        100_000
    } else {
        clamp_int((5_000 - scene.distance_obstacle) * 20, 0, 100_000)
    }
}

/// The record the Emergency publisher derives from a scene.
pub open spec fn spec_emergency_telemetry(scene: Scene, timestamp: i64) -> EmergencyModeData {
    EmergencyModeData {
        vehicle_speed: spec_emergency_speed(scene) as i64,
        steering_angle: spec_emergency_steering(scene) as i64,
        brake_force: spec_emergency_brake_force(scene) as i64,
        obstacle_detected: true,
        obstacle_distance: scene.distance_obstacle,
        collision_risk: spec_collision_risk(scene) as i64,
        stability_control: true,
        traffic_signal: TrafficSignal::Emergency,
        seatbelt_tightened: true,
        emergency_lights: true,
        emergency_type: spec_emergency_type(scene),
        emergency_brake_force: spec_emergency_brake_force(scene) as i64,
        airbag_ready: true,
        timestamp,
        is_valid: true,
    }
}

/// Derives the Emergency telemetry record from a scene.
pub fn emergency_telemetry(scene: &Scene, timestamp: i64) -> (record: EmergencyModeData)
    ensures
        record == spec_emergency_telemetry(*scene, timestamp),
        0 <= record.brake_force <= 100_000,
        0 <= record.collision_risk <= 100_000,
        record.emergency_brake_force == record.brake_force,
{
    let distance: i64 = scene.distance_obstacle;
    let vehicle_speed: i64 = if distance < 2_000 {
        5_000
    } else if distance < 3_000 {
        15_000
    } else {
        25_000
    };
    let emergency_type = if scene.num_people > 0 && distance < 5_000 {
        EmergencyType::CollisionAvoidance
    } else if distance < 3_000 {
        EmergencyType::Obstacle
    } else {
        EmergencyType::SystemFailure
    };
    let magnitude: i64 = match emergency_type {
        EmergencyType::CollisionAvoidance => 20_000,
        EmergencyType::Obstacle => 15_000,
        _ => 8_000,
    };
    let steering_angle: i64 = if scene.distance_left_lane > scene.distance_right_lane {
        -magnitude
    } else {
        magnitude
    };
    let collision_risk: i64 = if distance < 5_000 {
        100_000
    } else {
        clamp_wide((10_000 - distance as i128) * 10, 0, 100_000)
    };
    let emergency_brake_force: i64 = if distance < 3_000 {
        100_000
    } else {
        clamp_wide((5_000 - distance as i128) * 20, 0, 100_000)
    };
    EmergencyModeData {
        vehicle_speed,
        steering_angle,
        brake_force: emergency_brake_force,
        obstacle_detected: true,
        obstacle_distance: distance,
        collision_risk,
        stability_control: true,
        traffic_signal: TrafficSignal::Emergency,
        seatbelt_tightened: true,
        emergency_lights: true,
        emergency_type,
        emergency_brake_force,
        airbag_ready: true,
        timestamp,
        is_valid: true,
    }
}

/// After this many steps a publisher pauses briefly so that the external
/// transport can rediscover its subscribers.
pub const DISCOVERY_REFRESH_PERIOD: u32 = 100;

/// The step counter every publisher keeps for the transport's sake.
#[derive(Clone, Copy, Debug, PartialEq, Eq, Structural)]
pub struct PublisherDiscoveryState {
    /// Steps taken so far, wrapping around at the end of its range.
    pub discovery_counter: u32,
}

impl PublisherDiscoveryState {
    /// The state one step later.
    pub open spec fn spec_ticked(self) -> PublisherDiscoveryState {
        PublisherDiscoveryState { discovery_counter: self.discovery_counter.wrapping_add(1) }
    }

    /// Whether the step that led to this state calls for a pause.
    pub open spec fn spec_refresh_due(self) -> bool {
        self.discovery_counter % DISCOVERY_REFRESH_PERIOD == 0
    }

    /// Counts one step and tells whether it calls for a pause.
    pub fn tick(&mut self) -> (refresh_due: bool)
        ensures
            *final(self) == old(self).spec_ticked(),
            refresh_due == final(self).spec_refresh_due(),
    {
        self.discovery_counter = self.discovery_counter.wrapping_add(1);
        self.discovery_counter % DISCOVERY_REFRESH_PERIOD == 0
    }
}

/// What one publisher step decides.
#[derive(Clone, Copy, Debug)]
pub struct PublisherStep<T> {
    /// Whether to pause for the transport before going on.
    pub refresh_discovery: bool,
    /// Whether the publisher's mode is the active one.
    pub active: bool,
    /// The record to publish, if any.
    pub record: Option<T>,
}

/// Publishes while the vehicle drives autonomously.
#[derive(Clone, Copy, Debug)]
pub struct AutonomousPublisher {
    discovery: PublisherDiscoveryState,
}

impl AutonomousPublisher {
    /// The discovery counter.
    pub closed spec fn discovery(&self) -> PublisherDiscoveryState {
        self.discovery
    }

    /// A publisher that has taken no step yet.
    pub fn new() -> (publisher: AutonomousPublisher)
        ensures
            publisher.discovery().discovery_counter == 0,
    {
        AutonomousPublisher { discovery: PublisherDiscoveryState { discovery_counter: 0 } }
    }

    /// Steps taken so far.
    pub fn discovery_counter(&self) -> (count: u32)
        ensures
            count == self.discovery().discovery_counter,
    {
        self.discovery.discovery_counter
    }

    /// One step: counts it, decides whether the mode is active, and derives
    /// the record when it is and a scene is available.
    pub fn step(&mut self, car_data: Option<CarData>, scene: Option<Scene>, timestamp: i64) -> (out:
        PublisherStep<AutonomousCarData>)
        ensures
            final(self).discovery() == old(self).discovery().spec_ticked(),
            out.refresh_discovery == final(self).discovery().spec_refresh_due(),
            out.active == spec_mode_is_active(DrivingMode::Autonomous, car_data, scene),
            out.record == match scene {
                Some(seen) if out.active => Some(spec_autonomous_telemetry(seen, timestamp)),
                _ => None,
            },
    {
        let refresh_discovery: bool = self.discovery.tick();
        let active: bool = mode_is_active(DrivingMode::Autonomous, car_data, scene);
        let record = match scene {
            Some(seen) if active => Some(autonomous_telemetry(&seen, timestamp)),
            _ => None,
        };
        PublisherStep { refresh_discovery, active, record }
    }
}

/// Publishes while the driver is in control.
#[derive(Clone, Copy, Debug)]
pub struct ManualPublisher {
    discovery: PublisherDiscoveryState,
}

impl ManualPublisher {
    /// The discovery counter.
    pub closed spec fn discovery(&self) -> PublisherDiscoveryState {
        self.discovery
    }

    /// A publisher that has taken no step yet.
    pub fn new() -> (publisher: ManualPublisher)
        ensures
            publisher.discovery().discovery_counter == 0,
    {
        ManualPublisher { discovery: PublisherDiscoveryState { discovery_counter: 0 } }
    }

    /// Steps taken so far.
    pub fn discovery_counter(&self) -> (count: u32)
        ensures
            count == self.discovery().discovery_counter,
    {
        self.discovery.discovery_counter
    }

    /// One step: counts it, decides whether the mode is active, and derives
    /// the record when it is and a scene is available.
    pub fn step(&mut self, car_data: Option<CarData>, scene: Option<Scene>, timestamp: i64) -> (out:
        PublisherStep<ManualCarData>)
        ensures
            final(self).discovery() == old(self).discovery().spec_ticked(),
            out.refresh_discovery == final(self).discovery().spec_refresh_due(),
            out.active == spec_mode_is_active(DrivingMode::Manual, car_data, scene),
            out.record == match scene {
                Some(seen) if out.active => Some(spec_manual_telemetry(seen, timestamp)),
                _ => None,
            },
    {
        let refresh_discovery: bool = self.discovery.tick();
        let active: bool = mode_is_active(DrivingMode::Manual, car_data, scene);
        let record = match scene {
            Some(seen) if active => Some(manual_telemetry(&seen, timestamp)),
            _ => None,
        };
        PublisherStep { refresh_discovery, active, record }
    }
}

/// Publishes while the vehicle responds to an emergency.
#[derive(Clone, Copy, Debug)]
pub struct EmergencyPublisher {
    discovery: PublisherDiscoveryState,
}

impl EmergencyPublisher {
    /// The discovery counter.
    pub closed spec fn discovery(&self) -> PublisherDiscoveryState {
        self.discovery
    }

    /// A publisher that has taken no step yet.
    pub fn new() -> (publisher: EmergencyPublisher)
        ensures
            publisher.discovery().discovery_counter == 0,
    {
        EmergencyPublisher { discovery: PublisherDiscoveryState { discovery_counter: 0 } }
    }

    /// Steps taken so far.
    pub fn discovery_counter(&self) -> (count: u32)
        ensures
            count == self.discovery().discovery_counter,
    {
        self.discovery.discovery_counter
    }

    /// One step: counts it, decides whether the mode is active, and derives
    /// the record when it is and a scene is available.
    pub fn step(&mut self, car_data: Option<CarData>, scene: Option<Scene>, timestamp: i64) -> (out:
        PublisherStep<EmergencyModeData>)
        ensures
            final(self).discovery() == old(self).discovery().spec_ticked(),
            out.refresh_discovery == final(self).discovery().spec_refresh_due(),
            out.active == spec_mode_is_active(DrivingMode::Emergency, car_data, scene),
            out.record == match scene {
                Some(seen) if out.active => Some(spec_emergency_telemetry(seen, timestamp)),
                _ => None,
            },
    {
        let refresh_discovery: bool = self.discovery.tick();
        let active: bool = mode_is_active(DrivingMode::Emergency, car_data, scene);
        let record = match scene {
            Some(seen) if active => Some(emergency_telemetry(&seen, timestamp)),
            _ => None,
        };
        PublisherStep { refresh_discovery, active, record }
    }
}

/// A publisher's own verdict on a scene is the arbiter's candidate for it.
pub proof fn lemma_fallback_is_the_candidate(scene: Scene)
    ensures
        spec_fallback_mode(scene) == spec_candidate_mode(scene),
{
}

/// With an announcement or a scene to go by, exactly one of the three
/// publishers is active; with neither, none is.
pub proof fn lemma_one_publisher_is_active(car_data: Option<CarData>, scene: Option<Scene>)
    ensures
        car_data is Some || scene is Some ==> {
            let autonomous = spec_mode_is_active(DrivingMode::Autonomous, car_data, scene);
            let manual = spec_mode_is_active(DrivingMode::Manual, car_data, scene);
            let emergency = spec_mode_is_active(DrivingMode::Emergency, car_data, scene);
            &&& autonomous || manual || emergency
            &&& !(autonomous && manual)
            &&& !(autonomous && emergency)
            &&& !(manual && emergency)
        },
        car_data is None && scene is None ==> forall|target: DrivingMode|
            !spec_mode_is_active(target, car_data, scene),
{
}

/// Without an announcement the Emergency publisher is active exactly when
/// the scene shows an obstacle within four metres, and the other two are not.
pub proof fn lemma_emergency_needs_no_announcement(scene: Scene)
    ensures
        spec_mode_is_active(DrivingMode::Emergency, None, Some(scene)) <==> scene.distance_obstacle
            < 4_000,
        scene.distance_obstacle < 4_000 ==> !spec_mode_is_active(
            DrivingMode::Manual,
            None,
            Some(scene),
        ) && !spec_mode_is_active(DrivingMode::Autonomous, None, Some(scene)),
{
}

/// An announcement, when there is one, overrules the scene.
pub proof fn lemma_announcement_overrules_scene(
    target: DrivingMode,
    announced: CarData,
    scene: Option<Scene>,
)
    ensures
        spec_mode_is_active(target, Some(announced), scene) <==> announced.driving_mode == target,
{
}

} // verus!
