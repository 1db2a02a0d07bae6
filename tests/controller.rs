use flyer::controller::{control_tick, required_engine_thrusts, EngineState, VehicleState};
use flyer::estimator::Tilt;
use flyer::fixed::FixedVec3;
use flyer::input::{AxisPair, FlyerAction, KeySet, PilotInput};
use flyer::thrusts::EngineThrusts;

fn level_vehicle(mass: u32, engine_mass: u32) -> VehicleState {
    let engine = EngineState { mass: engine_mass, up: FixedVec3::up() };
    VehicleState { mass, tilt: Tilt::level(), engines: [engine; 4] }
}

#[test]
fn total_mass_counts_every_engine() {
    let mut v = level_vehicle(90_000, 2_500);
    assert_eq!(v.total_mass(), 100_000);
    v.engines[2].mass = 1;
    assert_eq!(v.total_mass(), 97_501);
    let heavy = level_vehicle(u32::MAX, u32::MAX);
    assert_eq!(heavy.total_mass(), 5 * u32::MAX as u64);
}

#[test]
fn baseline_is_an_even_share() {
    let v = level_vehicle(90_000, 2_500);
    assert_eq!(required_engine_thrusts(9810, &v), EngineThrusts::uniform(245_250_000));
}

#[test]
fn baseline_rounds_down_and_floors_at_zero() {
    assert_eq!(EngineThrusts::baseline(10), EngineThrusts::uniform(2));
    assert_eq!(EngineThrusts::baseline(-10), EngineThrusts::uniform(0));
    assert_eq!(EngineThrusts::baseline(0), EngineThrusts::uniform(0));
    let mut v = level_vehicle(100_000, 0);
    v.tilt = Tilt::new(2_094_395, -500_000);
    assert_eq!(required_engine_thrusts(9810, &v), EngineThrusts::uniform(0));
}

#[test]
fn hover_tick_is_yaw_neutral() {
    let v = level_vehicle(90_000, 2_500);
    let input = PilotInput::new(None, None, KeySet::none());
    let r = control_tick(9810, &v, &input);
    for f in r.iter() {
        assert_eq!(f.force, FixedVec3::new(0, 245_250_000, 0));
    }
    let yaw: i64 = r.iter().map(|f| f.torque.y).sum();
    assert_eq!(yaw, 0);
    let lift: i64 = r.iter().map(|f| f.force.y).sum();
    assert_eq!(lift, 981_000_000);
}

#[test]
fn tick_runs_every_stage_in_order() {
    let v = level_vehicle(100_000, 0);
    let mut keys = KeySet::none();
    keys.press(FlyerAction::ThrustUp);
    let input = PilotInput::new(Some(AxisPair::new(0, 400)), Some(-1000), keys);
    let r = control_tick(9810, &v, &input);
    let b: i64 = 245_250_000;
    assert_eq!(r[0].force.y, 2 * (b - 400 - 1_000_000));
    assert_eq!(r[1].torque.y, -2 * (b - 400 - 1_000_000));
    assert_eq!(r[2].force.y, 2 * (b + 400 - 1_000_000));
    assert_eq!(r[3].torque.y, 2 * (b + 400 - 1_000_000));
}

#[test]
fn tick_is_memoryless() {
    let v = level_vehicle(100_000, 0);
    let input = PilotInput::new(Some(AxisPair::new(900, 900)), Some(300), KeySet::none());
    let first = control_tick(9810, &v, &input);
    let second = control_tick(9810, &v, &input);
    assert_eq!(first, second);
}
