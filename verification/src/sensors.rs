//! The simulated camera and radar.
//!
//! The camera cycles through four traffic scenarios. Each scenario declares,
//! for the people count, the car count and the obstacle distance, how likely
//! a change is, how large it may be and the range the value is kept in. The
//! radar walks a single obstacle distance and attaches a fresh error margin.

use crate::messages::{CameraReading, RadarReading};
use crate::random::{
    gen_random_in_range, lemma_walk_is_bounded, random_walk_integer, random_walk_milli, spec_gen_random_in_range,
    spec_random_walk, RandomSource, WalkDraw, WalkRule,
};
use vstd::prelude::*;

verus! {

/// The traffic situation the camera is simulating.
#[derive(Clone, Copy, Debug, PartialEq, Eq, Structural)]
pub enum Scenario {
    Highway,
    City,
    Suburban,
    EmergencyTest,
}

impl Scenario {
    /// How many steps the scenario lasts.
    pub open spec fn spec_duration(self) -> usize {
        match self {
            Scenario::Highway => 40,
            Scenario::City => 30,
            Scenario::Suburban => 25,
            Scenario::EmergencyTest => 15,
        }
    }

    /// How many steps the scenario lasts.
    pub fn duration(self) -> (steps: usize)
        ensures
            steps == self.spec_duration(),
    {
        match self {
            Scenario::Highway => 40,
            Scenario::City => 30,
            Scenario::Suburban => 25,
            Scenario::EmergencyTest => 15,
        }
    }

    /// The scenario that follows in the fixed cycle.
    pub open spec fn spec_next(self) -> Scenario {
        match self {
            Scenario::Highway => Scenario::City,
            Scenario::City => Scenario::Suburban,
            Scenario::Suburban => Scenario::EmergencyTest,
            Scenario::EmergencyTest => Scenario::Highway,
        }
    }

    /// The scenario that follows in the fixed cycle.
    pub fn next(self) -> (following: Scenario)
        ensures
            following == self.spec_next(),
    {
        match self {
            Scenario::Highway => Scenario::City,
            Scenario::City => Scenario::Suburban,
            Scenario::Suburban => Scenario::EmergencyTest,
            Scenario::EmergencyTest => Scenario::Highway,
        }
    }

    /// The scenario's name in lower case.
    pub fn as_str(self) -> (name: &'static str)
        ensures
            name@ == match self {
                Scenario::Highway => "highway"@,
                Scenario::City => "city"@,
                Scenario::Suburban => "suburban"@,
                Scenario::EmergencyTest => "emergency_test"@,
            },
    {
        match self {
            Scenario::Highway => "highway",
            Scenario::City => "city",
            Scenario::Suburban => "suburban",
            Scenario::EmergencyTest => "emergency_test",
        }
    }
}

/// The three walks a scenario declares.
#[derive(Clone, Copy, Debug, PartialEq, Eq, Structural)]
pub struct ScenarioProfile {
    /// Walk of the people count.
    pub people: WalkRule,
    /// Walk of the car count.
    pub cars: WalkRule,
    /// Walk of the obstacle distance, in millimetres.
    pub distance: WalkRule,
}

impl ScenarioProfile {
    /// All three walks are usable and the counts cannot go negative.
    pub open spec fn wf(&self) -> bool {
        &&& self.people.wf()
        &&& self.cars.wf()
        &&& self.distance.wf()
        &&& 0 <= self.people.lo
        &&& self.people.hi <= 1_000
        &&& 0 <= self.cars.lo
        &&& self.cars.hi <= 1_000
    }

    /// Whether a reading lies in the ranges the profile declares.
    pub open spec fn holds(&self, reading: CameraReading) -> bool {
        &&& self.people.lo <= reading.num_people <= self.people.hi
        &&& self.cars.lo <= reading.num_cars <= self.cars.hi
        &&& self.distance.lo <= reading.distance_obstacle <= self.distance.hi
    }
}

/// The walks of each scenario.
///
/// | scenario       | people            | cars              | distance (m)         |
/// |----------------|-------------------|-------------------|----------------------|
/// | Highway        | 30 %, 1, 0 to 3   | 70 %, 2, 2 to 8   | 80 %, 8, 4 to 25     |
/// | City           | 90 %, 3, 3 to 9   | 90 %, 3, 4 to 10  | 100 %, 6, 3 to 12    |
/// | Suburban       | 60 %, 2, 2 to 6   | 60 %, 2, 3 to 7   | 70 %, 4, 4 to 18     |
/// | Emergency test | 40 %, 1, 0 to 3   | 40 %, 1, 1 to 4   | 100 %, 2, 1.5 to 5   |
pub open spec fn spec_profile(scenario: Scenario) -> ScenarioProfile {
    match scenario {
        Scenario::Highway => ScenarioProfile {
            people: WalkRule { change_percent: 30, max_delta: 1, lo: 0, hi: 3 },
            cars: WalkRule { change_percent: 70, max_delta: 2, lo: 2, hi: 8 },
            distance: WalkRule { change_percent: 80, max_delta: 8_000, lo: 4_000, hi: 25_000 },
        },
        Scenario::City => ScenarioProfile {
            people: WalkRule { change_percent: 90, max_delta: 3, lo: 3, hi: 9 },
            cars: WalkRule { change_percent: 90, max_delta: 3, lo: 4, hi: 10 },
            distance: WalkRule { change_percent: 100, max_delta: 6_000, lo: 3_000, hi: 12_000 },
        },
        Scenario::Suburban => ScenarioProfile {
            people: WalkRule { change_percent: 60, max_delta: 2, lo: 2, hi: 6 },
            cars: WalkRule { change_percent: 60, max_delta: 2, lo: 3, hi: 7 },
            distance: WalkRule { change_percent: 70, max_delta: 4_000, lo: 4_000, hi: 18_000 },
        },
        Scenario::EmergencyTest => ScenarioProfile {
            people: WalkRule { change_percent: 40, max_delta: 1, lo: 0, hi: 3 },
            cars: WalkRule { change_percent: 40, max_delta: 1, lo: 1, hi: 4 },
            distance: WalkRule { change_percent: 100, max_delta: 2_000, lo: 1_500, hi: 5_000 },
        },
    }
}

/// The walks of `scenario`.
pub fn profile(scenario: Scenario) -> (walks: ScenarioProfile)
    ensures
        walks == spec_profile(scenario),
        walks.wf(),
{
    match scenario {
        Scenario::Highway => ScenarioProfile {
            people: WalkRule { change_percent: 30, max_delta: 1, lo: 0, hi: 3 },
            cars: WalkRule { change_percent: 70, max_delta: 2, lo: 2, hi: 8 },
            distance: WalkRule { change_percent: 80, max_delta: 8_000, lo: 4_000, hi: 25_000 },
        },
        Scenario::City => ScenarioProfile {
            people: WalkRule { change_percent: 90, max_delta: 3, lo: 3, hi: 9 },
            cars: WalkRule { change_percent: 90, max_delta: 3, lo: 4, hi: 10 },
            distance: WalkRule { change_percent: 100, max_delta: 6_000, lo: 3_000, hi: 12_000 },
        },
        Scenario::Suburban => ScenarioProfile {
            people: WalkRule { change_percent: 60, max_delta: 2, lo: 2, hi: 6 },
            cars: WalkRule { change_percent: 60, max_delta: 2, lo: 3, hi: 7 },
            distance: WalkRule { change_percent: 70, max_delta: 4_000, lo: 4_000, hi: 18_000 },
        },
        Scenario::EmergencyTest => ScenarioProfile {
            people: WalkRule { change_percent: 40, max_delta: 1, lo: 0, hi: 3 },
            cars: WalkRule { change_percent: 40, max_delta: 1, lo: 1, hi: 4 },
            distance: WalkRule { change_percent: 100, max_delta: 2_000, lo: 1_500, hi: 5_000 },
        },
    }
}

/// Which scenario is running and how far it has got.
#[derive(Clone, Copy, Debug, PartialEq, Eq, Structural)]
pub struct ScenarioState {
    /// The scenario in effect.
    pub scenario: Scenario,
    /// Steps taken in this scenario.
    pub timer: usize,
    /// Steps after which the next scenario takes over.
    pub duration: usize,
}

impl ScenarioState {
    /// The duration is the scenario's own and the timer has not reached it.
    pub open spec fn wf(&self) -> bool {
        &&& self.duration == self.scenario.spec_duration()
        &&& self.timer < self.duration
    }

    /// The state one step later: the timer counts up, and when it reaches
    /// the duration the next scenario starts at zero.
    pub open spec fn spec_advanced(self) -> ScenarioState {
        if self.timer + 1 >= self.duration {
            ScenarioState {
                scenario: self.scenario.spec_next(),
                timer: 0,
                duration: self.scenario.spec_next().spec_duration(),
            }
        } else {
            ScenarioState { timer: (self.timer + 1) as usize, ..self }
        }
    }
}

/// The raw draws one camera step consumes.
#[derive(Clone, Copy, Debug, PartialEq, Eq, Structural)]
pub struct CameraDraws {
    /// For the people count.
    pub people: WalkDraw,
    /// For the car count.
    pub cars: WalkDraw,
    /// For the obstacle distance.
    pub distance: WalkDraw,
}

impl CameraDraws {
    /// Takes the draws for one camera step from `rng`: those for the
    /// people first, then those for the cars, then those for the distance.
    pub fn draw<R: RandomSource>(rng: &mut R) -> (draws: CameraDraws)
        ensures
            final(rng).drawn() == old(rng).drawn() + draws.spec_raws(),
    {
        let people = WalkDraw::draw(rng);
        let cars = WalkDraw::draw(rng);
        let distance = WalkDraw::draw(rng);
        let draws = CameraDraws { people, cars, distance };
        assert(rng.drawn() =~= old(rng).drawn() + draws.spec_raws());
        draws
    }

    /// The raw draws in the order they were taken.
    pub open spec fn spec_raws(self) -> Seq<u64> {
        self.people.spec_raws() + self.cars.spec_raws() + self.distance.spec_raws()
    }
}

/// Everything the camera remembers between steps.
#[derive(Clone, Copy, Debug, PartialEq, Eq, Structural)]
pub struct CameraState {
    /// The scenario in effect and its timer.
    pub scenario: ScenarioState,
    /// The reading produced last.
    pub reading: CameraReading,
}

/// The state of a fresh camera: Highway at step zero, two people, three
/// cars, an obstacle at ten metres.
pub open spec fn spec_initial_camera() -> CameraState {
    CameraState {
        scenario: ScenarioState { scenario: Scenario::Highway, timer: 0, duration: 40 },
        reading: CameraReading { num_people: 2, num_cars: 3, distance_obstacle: 10_000 },
    }
}

impl CameraState {
    /// The scenario state is well formed and the last reading lies in the
    /// ranges of the scenario in effect.
    pub open spec fn wf(&self) -> bool {
        &&& self.scenario.wf()
        &&& spec_profile(self.scenario.scenario).holds(self.reading)
    }

    /// The state one step later: the scenario advances first, and each
    /// value then walks from its previous value under the walks of the
    /// scenario now in effect.
    pub open spec fn spec_advanced(self, draws: CameraDraws) -> CameraState {
        let scenario = self.scenario.spec_advanced();
        let walks = spec_profile(scenario.scenario);
        CameraState {
            scenario,
            reading: CameraReading {
                num_people: spec_random_walk(
                    self.reading.num_people as int,
                    walks.people,
                    draws.people,
                ) as usize,
                num_cars: spec_random_walk(
                    self.reading.num_cars as int,
                    walks.cars,
                    draws.cars,
                ) as usize,
                distance_obstacle: spec_random_walk(
                    self.reading.distance_obstacle as int,
                    walks.distance,
                    draws.distance,
                ) as i64,
            },
        }
    }
}

/// The simulated camera.
#[derive(Clone, Copy, Debug)]
pub struct Camera {
    state: CameraState,
}

impl View for Camera {
    type V = CameraState;

    closed spec fn view(&self) -> CameraState {
        self.state
    }
}

impl Camera {
    #[verifier::type_invariant]
    closed spec fn inv(&self) -> bool {
        self.state.wf()
    }

    /// A camera at the start of the Highway scenario.
    pub fn new() -> (camera: Camera)
        ensures
            camera@ == spec_initial_camera(),
    {
        Camera {
            state: CameraState {
                scenario: ScenarioState { scenario: Scenario::Highway, timer: 0, duration: 40 },
                reading: CameraReading { num_people: 2, num_cars: 3, distance_obstacle: 10_000 },
            },
        }
    }

    /// A copy of the state; it is always well formed.
    pub fn state(&self) -> (state: CameraState)
        ensures
            state == self@,
            state.wf(),
    {
        proof {
            use_type_invariant(self);
        }
        self.state
    }

    /// The scenario in effect.
    pub fn scenario(&self) -> (scenario: Scenario)
        ensures
            scenario == self@.scenario.scenario,
    {
        self.state.scenario.scenario
    }

    /// Advances the camera one step with the given draws and returns the new
    /// reading, which lies in the ranges of the scenario then in effect.
    pub fn get_image(&mut self, draws: &CameraDraws) -> (reading: CameraReading)
        ensures
            final(self)@ == old(self)@.spec_advanced(*draws),
            reading == final(self)@.reading,
            spec_profile(final(self)@.scenario.scenario).holds(reading),
    {
        proof {
            use_type_invariant(&*self);
        }
        let before = self.state;
        let scenario = if before.scenario.timer + 1 >= before.scenario.duration {
            let following = before.scenario.scenario.next();
            ScenarioState { scenario: following, timer: 0, duration: following.duration() }
        } else {
            ScenarioState {
                scenario: before.scenario.scenario,
                timer: before.scenario.timer + 1,
                duration: before.scenario.duration,
            }
        };
        let walks = profile(scenario.scenario);
        let reading = CameraReading {
            num_people: random_walk_integer(before.reading.num_people, &walks.people, &draws.people),
            num_cars: random_walk_integer(before.reading.num_cars, &walks.cars, &draws.cars),
            distance_obstacle: random_walk_milli(
                before.reading.distance_obstacle,
                &walks.distance,
                &draws.distance,
            ),
        };
        self.state = CameraState { scenario, reading };
        reading
    }

    /// Advances the camera one step with draws taken from `rng`.
    pub fn step<R: RandomSource>(&mut self, rng: &mut R) -> (reading: CameraReading)
        ensures
            exists|draws: CameraDraws| final(self)@ == #[trigger] old(self)@.spec_advanced(draws),
            reading == final(self)@.reading,
            spec_profile(final(self)@.scenario.scenario).holds(reading),
    {
        let draws = CameraDraws::draw(rng);
        self.get_image(&draws)
    }
}

/// Lower end of the radar's distance range, in millimetres.
pub const RADAR_MIN_DISTANCE: i64 = 1_500;

/// Upper end of the radar's distance range, in millimetres.
pub const RADAR_MAX_DISTANCE: i64 = 30_000;

/// Largest error margin to either side, in millimetres.
pub const RADAR_MAX_ERROR: i64 = 1_000;

/// The raw draws one radar step consumes.
#[derive(Clone, Copy, Debug, PartialEq, Eq, Structural)]
pub struct RadarDraws {
    /// For the obstacle distance.
    pub distance: WalkDraw,
    /// For the error margin.
    pub error_margin: u64,
}

impl RadarDraws {
    /// Takes the draws for one radar step from `rng`: those for the
    /// distance first, then the one for the error margin.
    pub fn draw<R: RandomSource>(rng: &mut R) -> (draws: RadarDraws)
        ensures
            final(rng).drawn() == old(rng).drawn() + draws.spec_raws(),
    {
        let distance = WalkDraw::draw(rng);
        let error_margin: u64 = rng.next_raw();
        let draws = RadarDraws { distance, error_margin };
        assert(rng.drawn() =~= old(rng).drawn() + draws.spec_raws());
        draws
    }

    /// The raw draws in the order they were taken.
    pub open spec fn spec_raws(self) -> Seq<u64> {
        self.distance.spec_raws().push(self.error_margin)
    }
}

/// The radar's walk: always changing, by at most ten metres, kept between
/// 1.5 and 30 metres.
pub open spec fn spec_radar_rule() -> WalkRule {
    WalkRule {
        change_percent: 100,
        max_delta: 10_000,
        lo: RADAR_MIN_DISTANCE,
        hi: RADAR_MAX_DISTANCE,
    }
}

/// The scan that follows a previous distance: the distance walks, and the
/// error margin is drawn afresh in tenths of a metre from -1 to 1 metre.
pub open spec fn spec_radar_scan(previous: i64, draws: RadarDraws) -> RadarReading {
    RadarReading {
        distance_obstacle: spec_random_walk(previous as int, spec_radar_rule(), draws.distance)
            as i64,
        error_margin: (spec_gen_random_in_range(draws.error_margin, -10, 10) * 100) as i64,
    }
}

/// The simulated radar.
#[derive(Clone, Copy, Debug)]
pub struct Radar {
    distance_obstacle: i64,
}

impl View for Radar {
    type V = i64;

    /// The distance reported last, in millimetres.
    closed spec fn view(&self) -> i64 {
        self.distance_obstacle
    }
}

impl Radar {
    #[verifier::type_invariant]
    closed spec fn inv(&self) -> bool {
        RADAR_MIN_DISTANCE <= self.distance_obstacle <= RADAR_MAX_DISTANCE
    }

    /// A radar that last saw an obstacle at ten metres.
    pub fn new() -> (radar: Radar)
        ensures
            radar@ == 10_000,
    {
        Radar { distance_obstacle: 10_000 }
    }

    /// The distance reported last, in millimetres.
    pub fn distance_obstacle(&self) -> (distance: i64)
        ensures
            distance == self@,
            RADAR_MIN_DISTANCE <= distance <= RADAR_MAX_DISTANCE,
    {
        proof {
            use_type_invariant(self);
        }
        self.distance_obstacle
    }

    /// Advances the radar one step with the given draws and returns the scan.
    pub fn get_scan(&mut self, draws: &RadarDraws) -> (scan: RadarReading)
        ensures
            scan == spec_radar_scan(old(self)@, *draws),
            final(self)@ == scan.distance_obstacle,
            RADAR_MIN_DISTANCE <= scan.distance_obstacle <= RADAR_MAX_DISTANCE,
            -RADAR_MAX_ERROR <= scan.error_margin <= RADAR_MAX_ERROR,
    {
        let rule = WalkRule {
            change_percent: 100,
            max_delta: 10_000,
            lo: RADAR_MIN_DISTANCE,
            hi: RADAR_MAX_DISTANCE,
        };
        let distance: i64 = random_walk_milli(self.distance_obstacle, &rule, &draws.distance);
        let tenths: i64 = gen_random_in_range(draws.error_margin, -10, 10);
        self.distance_obstacle = distance;
        RadarReading { distance_obstacle: distance, error_margin: tenths * 100 }
    }

    /// Advances the radar one step with draws taken from `rng`.
    pub fn step<R: RandomSource>(&mut self, rng: &mut R) -> (scan: RadarReading)
        ensures
            exists|draws: RadarDraws| scan == #[trigger] spec_radar_scan(old(self)@, draws),
            final(self)@ == scan.distance_obstacle,
            RADAR_MIN_DISTANCE <= scan.distance_obstacle <= RADAR_MAX_DISTANCE,
            -RADAR_MAX_ERROR <= scan.error_margin <= RADAR_MAX_ERROR,
    {
        let draws = RadarDraws::draw(rng);
        self.get_scan(&draws)
    }
}

/// Whatever the draws, a camera step keeps the state well formed: the timer
/// stays below the duration and the reading lies in the scenario's ranges.
pub proof fn lemma_camera_stays_in_range(state: CameraState, draws: CameraDraws)
    requires
        state.scenario.wf(),
    ensures
        state.spec_advanced(draws).wf(),
{
    let scenario = state.scenario.spec_advanced();
    let walks = spec_profile(scenario.scenario);
    lemma_walk_is_bounded(
        state.reading.num_people as int,
        walks.people,
        draws.people,
    );
    lemma_walk_is_bounded(state.reading.num_cars as int, walks.cars, draws.cars);
    lemma_walk_is_bounded(
        state.reading.distance_obstacle as int,
        walks.distance,
        draws.distance,
    );
}

/// The scenario state after `steps` camera steps.
pub open spec fn spec_scenario_after(state: ScenarioState, steps: nat) -> ScenarioState
    decreases steps,
{
    if steps == 0 {
        state
    } else {
        spec_scenario_after(state, (steps - 1) as nat).spec_advanced()
    }
}

/// Until its duration is reached a scenario stays in effect and its timer
/// counts the steps.
pub proof fn lemma_scenario_lasts_its_duration(state: ScenarioState, steps: nat)
    requires
        state.wf(),
        state.timer + steps < state.duration,
    ensures
        spec_scenario_after(state, steps) == (ScenarioState {
            timer: (state.timer + steps) as usize,
            ..state
        }),
    decreases steps,
{
    if steps > 0 {
        lemma_scenario_lasts_its_duration(state, (steps - 1) as nat);
    }
}

/// The step on which the timer reaches the duration starts the next
/// scenario of the cycle at zero, with that scenario's own duration.
pub proof fn lemma_scenario_hands_over(state: ScenarioState)
    requires
        state.wf(),
    ensures
        spec_scenario_after(state, (state.duration - state.timer) as nat) == (ScenarioState {
            scenario: state.scenario.spec_next(),
            timer: 0,
            duration: state.scenario.spec_next().spec_duration(),
        }),
        spec_scenario_after(state, (state.duration - state.timer) as nat).wf(),
{
    let steps = (state.duration - state.timer) as nat;
    lemma_scenario_lasts_its_duration(state, (steps - 1) as nat);
}

/// The scenarios follow each other in a cycle of four: Highway, City,
/// Suburban, Emergency test, and Highway again.
pub proof fn lemma_scenarios_cycle(scenario: Scenario)
    ensures
        scenario.spec_next().spec_next().spec_next().spec_next() == scenario,
        Scenario::Highway.spec_next() == Scenario::City,
        Scenario::City.spec_next() == Scenario::Suburban,
        Scenario::Suburban.spec_next() == Scenario::EmergencyTest,
        Scenario::EmergencyTest.spec_next() == Scenario::Highway,
{
}

} // verus!
