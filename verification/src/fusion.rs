//! Fusion of the camera and radar readings into one scene.

use crate::messages::{CameraReading, RadarReading, Scene};
use crate::random::{gen_random_in_range, spec_gen_random_in_range, RandomSource};
use vstd::prelude::*;

verus! {

/// Smallest lane distance, in millimetres.
pub const MIN_LANE_DISTANCE: i64 = 500;

/// Largest lane distance, in millimetres.
pub const MAX_LANE_DISTANCE: i64 = 1_000;

/// The raw draws one fusion step consumes.
#[derive(Clone, Copy, Debug, PartialEq, Eq, Structural)]
pub struct FusionDraws {
    /// For the distance to the left lane marking.
    pub left_lane: u64,
    /// For the distance to the right lane marking.
    pub right_lane: u64,
}

impl FusionDraws {
    /// Takes the draws for one fusion step from `rng`: the one for the
    /// left lane first, then the one for the right lane.
    pub fn draw<R: RandomSource>(rng: &mut R) -> (draws: FusionDraws)
        ensures
            final(rng).drawn() == old(rng).drawn() + draws.spec_raws(),
    {
        let left_lane: u64 = rng.next_raw();
        let right_lane: u64 = rng.next_raw();
        let draws = FusionDraws { left_lane, right_lane };
        assert(rng.drawn() =~= old(rng).drawn() + draws.spec_raws());
        draws
    }

    /// The raw draws in the order they were taken.
    pub open spec fn spec_raws(self) -> Seq<u64> {
        seq![self.left_lane, self.right_lane]
    }
}

/// The lane distance a draw selects: a whole number of tenths of a metre
/// from 0.5 to 1.0 metres.
pub open spec fn spec_lane_distance(raw: u64) -> int {
    spec_gen_random_in_range(raw, 5, 10) * 100
}

/// The scene inferred from both readings: the nearer of the two obstacle
/// distances, the camera's counts unchanged, and lane distances drawn anew.
pub open spec fn spec_infer(camera: CameraReading, radar: RadarReading, draws: FusionDraws) -> Scene {
    Scene {
        num_people: camera.num_people,
        num_cars: camera.num_cars,
        distance_obstacle: if camera.distance_obstacle <= radar.distance_obstacle {
            camera.distance_obstacle
        } else {
            radar.distance_obstacle
        },
        distance_left_lane: spec_lane_distance(draws.left_lane) as i64,
        distance_right_lane: spec_lane_distance(draws.right_lane) as i64,
    }
}

/// What a fusion step produces: a scene when both readings are available,
/// nothing otherwise.
pub open spec fn spec_fuse(
    camera: Option<CameraReading>,
    radar: Option<RadarReading>,
    draws: FusionDraws,
) -> Option<Scene> {
    match (camera, radar) {
        (Some(image), Some(scan)) => Some(spec_infer(image, scan, draws)),
        _ => None,
    }
}

/// Infers the scene from a camera reading and a radar reading.
pub fn infer(camera: &CameraReading, radar: &RadarReading, draws: &FusionDraws) -> (scene: Scene)
    ensures
        scene == spec_infer(*camera, *radar, *draws),
        scene.distance_obstacle <= camera.distance_obstacle,
        scene.distance_obstacle <= radar.distance_obstacle,
        scene.distance_obstacle == camera.distance_obstacle || scene.distance_obstacle
            == radar.distance_obstacle,
        MIN_LANE_DISTANCE <= scene.distance_left_lane <= MAX_LANE_DISTANCE,
        MIN_LANE_DISTANCE <= scene.distance_right_lane <= MAX_LANE_DISTANCE,
{
    let distance_obstacle: i64 = if camera.distance_obstacle <= radar.distance_obstacle {
        camera.distance_obstacle
    } else {
        radar.distance_obstacle
    };
    let left_tenths: i64 = gen_random_in_range(draws.left_lane, 5, 10);
    let right_tenths: i64 = gen_random_in_range(draws.right_lane, 5, 10);
    Scene {
        num_people: camera.num_people,
        num_cars: camera.num_cars,
        distance_obstacle,
        distance_left_lane: left_tenths * 100,
        distance_right_lane: right_tenths * 100,
    }
}

/// The fusion stage. It keeps nothing between steps.
#[derive(Clone, Copy, Debug)]
pub struct SceneFusion {}

impl SceneFusion {
    /// A fusion stage.
    pub fn new() -> SceneFusion {
        SceneFusion {  }
    }

    /// One fusion step with the given draws: a scene when both readings are
    /// available, nothing otherwise.
    pub fn fuse(
        &self,
        camera: Option<CameraReading>,
        radar: Option<RadarReading>,
        draws: &FusionDraws,
    ) -> (scene: Option<Scene>)
        ensures
            scene == spec_fuse(camera, radar, *draws),
            scene is Some <==> camera is Some && radar is Some,
    {
        match camera {
            Some(image) => match radar {
                Some(scan) => Some(infer(&image, &scan, draws)),
                None => None,
            },
            None => None,
        }
    }

    /// One fusion step with draws taken from `rng`; none are taken when a
    /// reading is missing.
    pub fn step<R: RandomSource>(
        &self,
        camera: Option<CameraReading>,
        radar: Option<RadarReading>,
        rng: &mut R,
    ) -> (scene: Option<Scene>)
        ensures
            scene is Some <==> camera is Some && radar is Some,
            scene matches Some(fused) ==> exists|draws: FusionDraws|
                fused == #[trigger] spec_infer(camera->Some_0, radar->Some_0, draws),
    {
        match camera {
            Some(image) => match radar {
                Some(scan) => {
                    let draws = FusionDraws::draw(rng);
                    Some(infer(&image, &scan, &draws))
                },
                None => None,
            },
            None => None,
        }
    }
}

} // verus!
