use flyer::input::{clamp_axis, AxisPair, FlyerAction, KeySet, PilotInput};
use flyer::mixer::{handle_gamepad_input, handle_keyboard_input, mix};
use flyer::thrusts::EngineThrusts;

const B: i64 = 245_250_000;

fn keys(actions: &[FlyerAction]) -> KeySet {
    let mut k = KeySet::none();
    for a in actions {
        k.press(*a);
    }
    k
}

fn stick(x: i64, y: i64) -> PilotInput {
    PilotInput::new(Some(AxisPair::new(x, y)), None, KeySet::none())
}

fn only_keys(actions: &[FlyerAction]) -> PilotInput {
    PilotInput::new(None, None, keys(actions))
}

#[test]
fn idle_input_keeps_baseline() {
    let baseline = EngineThrusts(1, -2, 300, B);
    assert_eq!(mix(&baseline, &PilotInput::new(None, None, KeySet::none())), baseline);
    assert_eq!(mix(&baseline, &stick(0, 0)), baseline);
    let centred = PilotInput::new(Some(AxisPair::new(0, 0)), Some(0), KeySet::none());
    assert_eq!(mix(&baseline, &centred), baseline);
}

#[test]
fn forward_pitch_moves_thrust_to_the_rear() {
    let baseline = EngineThrusts::uniform(B);
    let r = mix(&baseline, &stick(0, 500));
    assert_eq!(r, EngineThrusts(B - 500, B - 500, B + 500, B + 500));
    let before: i64 = baseline.to_array().iter().sum();
    let after: i64 = r.to_array().iter().sum();
    assert_eq!(before, after);
}

#[test]
fn full_forward_pitch() {
    let r = mix(&EngineThrusts::uniform(B), &stick(0, 1000));
    assert_eq!(r, EngineThrusts(B - 1000, B - 1000, B + 1000, B + 1000));
}

#[test]
fn backward_pitch_is_ignored() {
    let baseline = EngineThrusts::uniform(B);
    assert_eq!(mix(&baseline, &stick(0, -800)), baseline);
}

#[test]
fn pitch_dead_zone_edge() {
    let baseline = EngineThrusts::uniform(B);
    assert_eq!(mix(&baseline, &stick(0, 240)), baseline);
    assert_eq!(mix(&baseline, &stick(0, 249)), baseline);
    assert_eq!(mix(&baseline, &stick(0, 250)), EngineThrusts(B - 250, B - 250, B + 250, B + 250));
}

#[test]
fn yaw_acts_on_engines_zero_and_three() {
    let baseline = EngineThrusts::uniform(B);
    assert_eq!(mix(&baseline, &stick(500, 0)), EngineThrusts(B + 5000, B, B, B + 5000));
    assert_eq!(mix(&baseline, &stick(-300, 0)), EngineThrusts(B - 3000, B, B, B - 3000));
    assert_eq!(mix(&baseline, &stick(200, 0)), baseline);
    assert_eq!(mix(&baseline, &stick(-250, 0)), EngineThrusts(B - 2500, B, B, B - 2500));
}

#[test]
fn pitch_and_yaw_together() {
    let r = mix(&EngineThrusts::uniform(B), &stick(400, 600));
    assert_eq!(r, EngineThrusts(B - 600 + 4000, B - 600, B + 600, B + 600 + 4000));
}

#[test]
fn lift_adds_to_every_engine() {
    let baseline = EngineThrusts(10, 20, 30, 40);
    let up = PilotInput::new(None, Some(500), KeySet::none());
    assert_eq!(mix(&baseline, &up), EngineThrusts(500_010, 500_020, 500_030, 500_040));
    let down = PilotInput::new(None, Some(-1000), KeySet::none());
    assert_eq!(mix(&baseline, &down), EngineThrusts(-999_990, -999_980, -999_970, -999_960));
}

#[test]
fn lift_is_clamped_to_full_deflection() {
    let input = PilotInput::new(None, Some(5000), KeySet::none());
    assert_eq!(input.lift, Some(1000));
    assert_eq!(mix(&EngineThrusts::uniform(0), &input), EngineThrusts::uniform(1_000_000));
}

#[test]
fn axis_readings_are_clamped() {
    assert_eq!(AxisPair::new(1500, -7000), AxisPair { x: 1000, y: -1000 });
    assert_eq!(AxisPair::new(12, -34), AxisPair { x: 12, y: -34 });
    assert_eq!(clamp_axis(i64::MIN), -1000);
    assert_eq!(clamp_axis(1000), 1000);
}

#[test]
fn left_and_right_keys() {
    let baseline = EngineThrusts::uniform(1_000_000);
    assert_eq!(
        mix(&baseline, &only_keys(&[FlyerAction::Left])),
        EngineThrusts(1_100_000, 1_000_000, 1_000_000, 1_100_000)
    );
    assert_eq!(
        mix(&baseline, &only_keys(&[FlyerAction::Right])),
        EngineThrusts(1_000_000, 1_100_000, 1_100_000, 1_000_000)
    );
}

#[test]
fn up_and_down_keys() {
    let baseline = EngineThrusts::uniform(1_000_000);
    assert_eq!(
        mix(&baseline, &only_keys(&[FlyerAction::Up])),
        EngineThrusts(900_000, 900_000, 1_100_000, 1_100_000)
    );
    assert_eq!(
        mix(&baseline, &only_keys(&[FlyerAction::Down])),
        EngineThrusts(1_100_000, 1_100_000, 900_000, 900_000)
    );
    // up then down, each rounded toward zero
    assert_eq!(
        mix(&EngineThrusts::uniform(1_001), &only_keys(&[FlyerAction::Up, FlyerAction::Down])),
        EngineThrusts(990, 990, 990, 990)
    );
}

#[test]
fn thrust_keys() {
    let baseline = EngineThrusts(1_000, -8, 7, 0);
    assert_eq!(
        mix(&baseline, &only_keys(&[FlyerAction::ThrustUp])),
        EngineThrusts(2_000, -16, 14, 0)
    );
    assert_eq!(
        mix(&baseline, &only_keys(&[FlyerAction::ThrustDown])),
        EngineThrusts(-250, 2, -1, 0)
    );
    assert_eq!(
        mix(&baseline, &only_keys(&[FlyerAction::ThrustUp, FlyerAction::ThrustDown])),
        EngineThrusts(-500, 4, -3, 0)
    );
}

#[test]
fn negative_thrust_scales_toward_zero() {
    let r = mix(&EngineThrusts::uniform(-105), &only_keys(&[FlyerAction::Left, FlyerAction::ThrustDown]));
    assert_eq!(r, EngineThrusts(28, 26, 26, 28));
}

#[test]
fn keys_apply_after_the_stick() {
    let input = PilotInput::new(None, Some(1000), keys(&[FlyerAction::ThrustUp]));
    assert_eq!(mix(&EngineThrusts::uniform(5), &input), EngineThrusts::uniform(2_000_010));
}

#[test]
fn axis_actions_press_no_key() {
    assert_eq!(keys(&[FlyerAction::Tilt, FlyerAction::Lift]), KeySet::none());
    let k = keys(&[FlyerAction::Left, FlyerAction::ThrustDown]);
    assert!(k.left && k.thrust_down && !k.right && !k.up && !k.down && !k.thrust_up);
}

#[test]
fn handlers_run_in_place() {
    let mut t = EngineThrusts::uniform(B);
    handle_gamepad_input(&mut t, &stick(0, 300));
    assert_eq!(t, EngineThrusts(B - 300, B - 300, B + 300, B + 300));
    handle_keyboard_input(&mut t, &only_keys(&[FlyerAction::ThrustUp]));
    assert_eq!(t, EngineThrusts(2 * (B - 300), 2 * (B - 300), 2 * (B + 300), 2 * (B + 300)));
}

#[test]
fn largest_baseline_with_every_input() {
    let max = flyer::thrusts::MAX_ENGINE_THRUST;
    let all = [
        FlyerAction::Left,
        FlyerAction::Right,
        FlyerAction::Down,
        FlyerAction::ThrustUp,
    ];
    let input = PilotInput::new(Some(AxisPair::new(-1000, 1000)), Some(1000), keys(&all));
    let r = mix(&EngineThrusts::uniform(max), &input);
    for t in r.to_array() {
        assert!(t > max && t <= flyer::mixer::MAX_MIXED_THRUST);
    }
}
