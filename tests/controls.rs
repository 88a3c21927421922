use mat_ctrl::ctrl::{CtrlId, CtrlState, CtrlsState};
use mat_ctrl::mode::CtrlMode;

fn run(m: CtrlMode, v: f32) -> f32 {
    match m {
        CtrlMode::Normal => v,
        CtrlMode::Sin => v.sin(),
        CtrlMode::NegSin => (-(v.abs())).sin(),
        CtrlMode::Cos => v.cos(),
        CtrlMode::NegCos => (-(v.abs())).cos(),
        CtrlMode::Tan => v.tan(),
        CtrlMode::NegTan => (-(v.abs())).tan(),
    }
}

#[test]
fn mode_prefixes() {
    assert_eq!(CtrlMode::Normal.get_str(), "");
    assert_eq!(CtrlMode::Sin.get_str(), "s");
    assert_eq!(CtrlMode::NegSin.get_str(), "-s");
    assert_eq!(CtrlMode::Cos.get_str(), "c");
    assert_eq!(CtrlMode::NegCos.get_str(), "-c");
    assert_eq!(CtrlMode::Tan.get_str(), "t");
    assert_eq!(CtrlMode::NegTan.get_str(), "-t");
}

#[test]
fn mode_names_and_order() {
    let names: Vec<&str> = CtrlMode::all().iter().map(|m| m.name()).collect();
    assert_eq!(names, vec!["Normal", "Sin", "NegSin", "Cos", "NegCos", "Tan", "NegTan"]);
    assert_eq!(CtrlMode::default(), CtrlMode::Normal);
    assert!(CtrlMode::Normal.is_normal());
    assert!(!CtrlMode::NegTan.is_normal());
}

#[test]
fn ctrl_id_from_usize() {
    let id: CtrlId = 7usize.into();
    assert_eq!(id, CtrlId(7));
}

#[test]
fn fresh_state_and_reset_value() {
    let mut s = CtrlState::new(1.5f32);
    assert_eq!(s.value, 1.5);
    assert_eq!(s.mode, CtrlMode::Normal);
    assert!(!s.is_changed);
    s.value = -3.0;
    s.reset_value();
    assert_eq!(s.value, 1.5);
}

#[test]
fn register_keeps_known_controls() {
    let mut s: CtrlsState<f32> = CtrlsState::new();
    assert!(!s.contains(CtrlId(0)));
    assert!(s.get(CtrlId(0)).is_none());
    s.register(CtrlId(0), 1.0);
    assert_eq!(s.get(CtrlId(0)).unwrap().value, 1.0);
    s.settle(CtrlId(0), 0.25, true, run);
    s.register(CtrlId(0), 9.0);
    let c = s.get(CtrlId(0)).unwrap();
    assert_eq!(c.value, 0.25);
    assert_eq!(c.default_value, 1.0);
}

#[test]
fn settle_without_edit_keeps_value() {
    let mut s: CtrlsState<f32> = CtrlsState::default();
    s.register(CtrlId(2), 0.0);
    s.set_mode(CtrlId(2), CtrlMode::Cos);
    let v = s.settle(CtrlId(2), 0.5, false, run);
    assert_eq!(v, 0.5);
    assert_eq!(s.get(CtrlId(2)).unwrap().value, 0.5);
}

#[test]
fn settle_runs_mode_on_edit() {
    let mut s: CtrlsState<f32> = CtrlsState::new();
    s.register(CtrlId(1), 0.0);
    s.set_mode(CtrlId(1), CtrlMode::NegSin);
    let v = s.settle(CtrlId(1), 0.5, true, run);
    assert_eq!(v, (-0.5f32).sin());
    let c = s.get(CtrlId(1)).unwrap();
    assert_eq!(c.value, (-0.5f32).sin());
    assert!(!c.is_changed);
    assert_eq!(c.mode, CtrlMode::NegSin);
}

#[test]
fn set_mode_on_unknown_id_does_nothing() {
    let mut s: CtrlsState<f32> = CtrlsState::new();
    s.set_mode(CtrlId(4), CtrlMode::Tan);
    assert!(!s.contains(CtrlId(4)));
}

#[test]
fn theta_reaches_only_moded_controls() {
    let mut s: CtrlsState<f32> = CtrlsState::new();
    s.register(CtrlId(0), 1.0);
    s.register(CtrlId(1), 0.0);
    s.set_mode(CtrlId(1), CtrlMode::Sin);
    s.apply_theta(2.0);
    let a = s.get(CtrlId(0)).unwrap();
    let b = s.get(CtrlId(1)).unwrap();
    assert_eq!(a.value, 1.0);
    assert!(!a.is_changed);
    assert_eq!(b.value, 2.0);
    assert!(b.is_changed);
    // The pending edit goes through the mode on the next frame.
    let v = s.settle(CtrlId(1), b.value, false, run);
    assert_eq!(v, 2.0f32.sin());
    assert!(!s.get(CtrlId(1)).unwrap().is_changed);
}

#[test]
fn reset_values_keeps_modes() {
    let mut s: CtrlsState<f32> = CtrlsState::new();
    s.register(CtrlId(5), 1.0);
    s.register(CtrlId(6), 0.0);
    s.set_mode(CtrlId(6), CtrlMode::Tan);
    s.settle(CtrlId(5), 3.0, true, run);
    s.settle(CtrlId(6), 0.5, true, run);
    s.reset_values();
    assert_eq!(s.get(CtrlId(5)).unwrap().value, 1.0);
    assert_eq!(s.get(CtrlId(6)).unwrap().value, 0.0);
    assert_eq!(s.get(CtrlId(6)).unwrap().mode, CtrlMode::Tan);
}

#[test]
fn reset_modes_keeps_values() {
    let mut s: CtrlsState<f32> = CtrlsState::new();
    s.register(CtrlId(8), 0.0);
    s.set_mode(CtrlId(8), CtrlMode::NegCos);
    s.settle(CtrlId(8), 0.75, false, run);
    s.reset_modes();
    let c = s.get(CtrlId(8)).unwrap();
    assert_eq!(c.mode, CtrlMode::Normal);
    assert_eq!(c.value, 0.75);
    // With every mode back to Normal the shared angle changes nothing.
    s.apply_theta(1.0);
    assert_eq!(s.get(CtrlId(8)).unwrap().value, 0.75);
}

#[test]
fn reset_all_forgets_controls() {
    let mut s: CtrlsState<f32> = CtrlsState::new();
    s.register(CtrlId(3), 0.0);
    s.set_mode(CtrlId(3), CtrlMode::Sin);
    s.reset_all();
    assert!(!s.contains(CtrlId(3)));
    s.register(CtrlId(3), 0.0);
    assert_eq!(s.get(CtrlId(3)).unwrap().mode, CtrlMode::Normal);
}

#[test]
fn empty_table_resets_are_harmless() {
    let mut s: CtrlsState<u32> = CtrlsState::new();
    s.reset_values();
    s.reset_modes();
    s.apply_theta(3);
    assert!(!s.contains(CtrlId(0)));
}
