use pullpiri::forwarder::CarDataForwarder;
use pullpiri::messages::{CarData, DrivingMode};

fn announce(mode: DrivingMode) -> Option<CarData> {
    Some(CarData { driving_mode: mode })
}

fn publishes(forwarder: &mut CarDataForwarder, modes: &[DrivingMode]) -> Vec<DrivingMode> {
    modes
        .iter()
        .filter_map(|mode| forwarder.step(announce(*mode)))
        .map(|data| data.driving_mode)
        .collect()
}

#[test]
fn one_publish_per_run_of_equal_modes() {
    let a = DrivingMode::Autonomous;
    let b = DrivingMode::Manual;
    let mut forwarder = CarDataForwarder::new();
    assert_eq!(forwarder.last_published_mode(), None);
    let sent = publishes(&mut forwarder, &[a, a, a, b, b, a]);
    assert_eq!(sent, vec![a, b, a]);
    assert_eq!(sent.len(), 3);
    assert_eq!(forwarder.last_published_mode(), Some(a));
}

#[test]
fn first_announcement_is_always_published() {
    for mode in [DrivingMode::Autonomous, DrivingMode::Manual, DrivingMode::Emergency] {
        let mut forwarder = CarDataForwarder::new();
        assert_eq!(forwarder.step(announce(mode)), announce(mode));
        assert_eq!(forwarder.step(announce(mode)), None);
        assert_eq!(forwarder.last_published_mode(), Some(mode));
    }
}

#[test]
fn long_runs_publish_once() {
    let mut forwarder = CarDataForwarder::new();
    let modes = vec![DrivingMode::Emergency; 10_000];
    assert_eq!(publishes(&mut forwarder, &modes), vec![DrivingMode::Emergency]);
    assert_eq!(publishes(&mut forwarder, &[]), vec![]);
}

#[test]
fn alternating_modes_publish_every_time() {
    let mut forwarder = CarDataForwarder::new();
    let modes: Vec<DrivingMode> = (0..100)
        .map(|i| if i % 2 == 0 { DrivingMode::Manual } else { DrivingMode::Emergency })
        .collect();
    assert_eq!(publishes(&mut forwarder, &modes), modes);
}

#[test]
fn missing_announcement_changes_nothing() {
    let mut forwarder = CarDataForwarder::new();
    assert_eq!(forwarder.step(None), None);
    assert_eq!(forwarder.last_published_mode(), None);
    assert_eq!(forwarder.step(announce(DrivingMode::Manual)), announce(DrivingMode::Manual));
    assert_eq!(forwarder.step(None), None);
    assert_eq!(forwarder.last_published_mode(), Some(DrivingMode::Manual));
    assert_eq!(forwarder.step(announce(DrivingMode::Manual)), None);
    assert_eq!(
        forwarder.step(announce(DrivingMode::Autonomous)),
        announce(DrivingMode::Autonomous)
    );
}
