use keplemon::enums::ReferenceFrame::{ECR, EFG, J2000, TEME};
use keplemon::ephemeris::SampleCollector;
use keplemon::frames::frame_route;
use keplemon::estimation::measurement::{
    layout, MeasurementKind, NoiseTerm, ObservedFields, SensorNoiseFields,
};
use keplemon::handles::{KeyLedger, ResourceError};
use keplemon::screening::{report_order, screening_pairs};

#[test]
fn ephemeris_fails_on_interior_step() {
    let mut c: SampleCollector<u32> = SampleCollector::new();
    assert!(c.push(Some(1)));
    assert!(c.push(Some(2)));
    assert!(!c.push(None));
    assert!(c.has_failed());
    assert!(!c.push(Some(4)));
    assert_eq!(c.finish(), None);
}

#[test]
fn ephemeris_fails_on_first_step() {
    let mut c: SampleCollector<u32> = SampleCollector::new();
    assert!(!c.push(None));
    assert_eq!(c.finish(), None);
}

#[test]
fn ephemeris_keeps_every_step() {
    let mut c: SampleCollector<u32> = SampleCollector::new();
    for k in 0..5 {
        assert!(c.push(Some(k * 10)));
    }
    assert!(!c.has_failed());
    assert_eq!(c.finish(), Some(vec![0, 10, 20, 30, 40]));
}

#[test]
fn empty_ephemeris_run() {
    let c: SampleCollector<u32> = SampleCollector::new();
    assert_eq!(c.finish(), Some(vec![]));
}

#[test]
fn layout_angles_only() {
    let o = ObservedFields { range: false, range_rate: false, right_ascension_rate: false, declination_rate: false };
    let n = SensorNoiseFields { range: true, range_rate: true, angular_rate: true };
    assert_eq!(layout(&o, &n), vec![MeasurementKind::RightAscension, MeasurementKind::Declination]);
}

#[test]
fn layout_full() {
    let o = ObservedFields { range: true, range_rate: true, right_ascension_rate: true, declination_rate: true };
    let n = SensorNoiseFields { range: true, range_rate: true, angular_rate: true };
    assert_eq!(
        layout(&o, &n),
        vec![
            MeasurementKind::RightAscension,
            MeasurementKind::Declination,
            MeasurementKind::Range,
            MeasurementKind::RangeRate,
            MeasurementKind::RightAscensionRate,
            MeasurementKind::DeclinationRate,
        ]
    );
}

#[test]
fn layout_needs_noise_and_observation() {
    let o = ObservedFields { range: true, range_rate: false, right_ascension_rate: false, declination_rate: true };
    let n = SensorNoiseFields { range: false, range_rate: true, angular_rate: true };
    assert_eq!(
        layout(&o, &n),
        vec![MeasurementKind::RightAscension, MeasurementKind::Declination, MeasurementKind::DeclinationRate]
    );
    assert_eq!(MeasurementKind::DeclinationRate.noise_term(), NoiseTerm::AngularRate);
    assert_eq!(MeasurementKind::Range.noise_term(), NoiseTerm::Range);
    assert_eq!(MeasurementKind::RightAscension.noise_term(), NoiseTerm::Angular);
}

#[test]
fn ledger_clone_drop_rounds_return_to_baseline() {
    let mut ledger = KeyLedger::new();
    ledger.register(7).unwrap();
    let baseline = ledger.live_count();
    let mut next: i64 = 100;
    for _ in 0..50 {
        let owner_key = next;
        let clone_key = next + 1;
        next += 2;
        ledger.register(owner_key).unwrap();
        ledger.register(clone_key).unwrap();
        assert_eq!(ledger.live_count(), baseline + 2);
        ledger.release(owner_key).unwrap();
        ledger.release(clone_key).unwrap();
        assert_eq!(ledger.live_count(), baseline);
    }
    assert!(ledger.is_live(7));
    assert!(!ledger.is_live(100));
}

#[test]
fn ledger_refuses_double_release_and_aliasing() {
    let mut ledger = KeyLedger::new();
    assert_eq!(ledger.register(5), Ok(()));
    assert_eq!(ledger.register(5), Err(ResourceError::DuplicateKey));
    assert_eq!(ledger.register(0), Err(ResourceError::DuplicateKey));
    assert_eq!(ledger.register(-1), Err(ResourceError::InvalidKey));
    assert_eq!(ledger.live_count(), 1);
    assert_eq!(ledger.release(5), Ok(()));
    assert_eq!(ledger.release(5), Err(ResourceError::InvalidKey));
    assert_eq!(ledger.live_count(), 0);
}

#[test]
fn screening_pairs_cover_each_pair_once() {
    assert_eq!(screening_pairs(0), vec![]);
    assert_eq!(screening_pairs(1), vec![]);
    assert_eq!(screening_pairs(4), vec![(0, 1), (0, 2), (0, 3), (1, 2), (1, 3), (2, 3)]);
    assert_eq!(screening_pairs(30).len(), 435);
}

#[test]
fn report_order_is_stable_sort_by_ids() {
    let keys = vec![(3, 4), (1, 9), (3, 2), (1, 9), (0, 5)];
    assert_eq!(report_order(&keys), vec![4, 1, 3, 2, 0]);
    assert_eq!(report_order(&vec![]), Vec::<usize>::new());
}

#[test]
fn frame_routes_follow_the_rotation_chain() {
    assert_eq!(frame_route(TEME, TEME), vec![]);
    assert_eq!(frame_route(TEME, J2000), vec![J2000]);
    assert_eq!(frame_route(TEME, ECR), vec![EFG, ECR]);
    assert_eq!(frame_route(J2000, ECR), vec![TEME, EFG, ECR]);
    assert_eq!(frame_route(ECR, J2000), vec![EFG, TEME, J2000]);
    assert_eq!(frame_route(EFG, TEME), vec![TEME]);
}
