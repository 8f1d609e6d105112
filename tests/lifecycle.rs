use libcnb::launch::Launch;
use libcnb::lifecycle::{
    build_effects, detect_effects, BuildPlan, DetectResult, PhaseError, EXIT_DETECT_FAIL, EXIT_FAILURE,
    EXIT_SUCCESS,
};

#[test]
fn detect_fail_exits_with_reserved_status_and_writes_nothing() {
    let effects = detect_effects(&Ok(DetectResult::Fail));
    assert_eq!(effects.exit_code, 100);
    assert_eq!(effects.exit_code, EXIT_DETECT_FAIL);
    assert!(!effects.touch_layers);
    assert!(!effects.write_launch);
    assert!(!effects.write_plan);
}

#[test]
fn detect_pass_writes_plan_when_given() {
    let plan = BuildPlan { provides: vec![String::from("ruby")], requires: vec![] };
    let with_plan = detect_effects(&Ok(DetectResult::Pass { plan: Some(plan) }));
    assert_eq!(with_plan.exit_code, EXIT_SUCCESS);
    assert!(with_plan.write_plan);
    let without = detect_effects(&Ok(DetectResult::Pass { plan: None }));
    assert_eq!(without.exit_code, 0);
    assert!(!without.write_plan);
}

#[test]
fn detect_error_is_not_a_fail() {
    let effects = detect_effects(&Err(PhaseError::Io {
        path: String::from("/platform"),
        message: String::from("denied"),
    }));
    assert_eq!(effects.exit_code, EXIT_FAILURE);
    assert_ne!(effects.exit_code, EXIT_DETECT_FAIL);
    assert!(!effects.write_plan);
}

#[test]
fn build_writes_launch_only_on_success() {
    let ok = build_effects(&Ok(Some(Launch::new())));
    assert_eq!(ok.exit_code, 0);
    assert!(ok.write_launch);
    let none = build_effects(&Ok(None));
    assert!(!none.write_launch);
    let err = build_effects(&Err(PhaseError::Author(String::from("download failed"))));
    assert_eq!(err.exit_code, 1);
    assert!(!err.write_launch);
    assert!(!err.touch_layers);
}
