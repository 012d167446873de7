use pullpiri::fusion::{infer, FusionDraws, SceneFusion};
use pullpiri::messages::{CameraReading, RadarReading, Scene};
use pullpiri::random::SeededRandom;

fn image(distance_obstacle: i64) -> CameraReading {
    CameraReading { num_people: 3, num_cars: 7, distance_obstacle }
}

fn scan(distance_obstacle: i64) -> RadarReading {
    RadarReading { distance_obstacle, error_margin: -400 }
}

#[test]
fn fusion_takes_the_nearer_obstacle_and_keeps_the_counts() {
    let draws = FusionDraws { left_lane: 0, right_lane: 5 };
    let scene = infer(&image(12_000), &scan(9_500), &draws);
    assert_eq!(
        scene,
        Scene {
            num_people: 3,
            num_cars: 7,
            distance_obstacle: 9_500,
            distance_left_lane: 500,
            distance_right_lane: 1_000,
        }
    );
    assert_eq!(infer(&image(4_000), &scan(9_500), &draws).distance_obstacle, 4_000);
    assert_eq!(infer(&image(7_000), &scan(7_000), &draws).distance_obstacle, 7_000);
}

#[test]
fn lane_distances_come_in_tenths_from_half_a_metre_to_one() {
    for (raw, expected) in [(0u64, 500i64), (1, 600), (2, 700), (3, 800), (4, 900), (5, 1_000), (6, 500)] {
        let scene = infer(&image(1), &scan(2), &FusionDraws { left_lane: raw, right_lane: raw + 1 });
        assert_eq!(scene.distance_left_lane, expected);
    }
}

#[test]
fn fusion_needs_both_readings() {
    let fusion = SceneFusion::new();
    let draws = FusionDraws { left_lane: 1, right_lane: 2 };
    assert_eq!(fusion.fuse(None, None, &draws), None);
    assert_eq!(fusion.fuse(Some(image(5_000)), None, &draws), None);
    assert_eq!(fusion.fuse(None, Some(scan(5_000)), &draws), None);
    assert_eq!(
        fusion.fuse(Some(image(5_000)), Some(scan(6_000)), &draws),
        Some(infer(&image(5_000), &scan(6_000), &draws))
    );
}

#[test]
fn fusion_step_resamples_the_lanes_each_time() {
    let fusion = SceneFusion::new();
    let mut rng = SeededRandom::new(21);
    assert_eq!(fusion.step(None, Some(scan(5_000)), &mut rng), None);
    assert_eq!(fusion.step(Some(image(5_000)), None, &mut rng), None);
    let mut lefts = std::collections::BTreeSet::new();
    for _ in 0..2_000 {
        let scene = fusion.step(Some(image(8_000)), Some(scan(6_500)), &mut rng).unwrap();
        assert_eq!(scene.distance_obstacle, 6_500);
        assert_eq!((scene.num_people, scene.num_cars), (3, 7));
        for lane in [scene.distance_left_lane, scene.distance_right_lane] {
            assert!(500 <= lane && lane <= 1_000 && lane % 100 == 0);
        }
        lefts.insert(scene.distance_left_lane);
    }
    assert_eq!(lefts.len(), 6);
}
