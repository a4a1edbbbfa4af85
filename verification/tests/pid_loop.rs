use vav_control::{ControlError, PIDController, PIDSettings};

#[test]
fn test_pid_output_capped_at_one_hundred() {
    // kp = 50.0 on a 5.0 degree error wants 250 %; the cap holds it at 100 %.
    let mut pid = PIDController::new(PIDSettings::new(50_000, 1_000, 0), 22_000);
    let output = pid.update(17_000).unwrap();
    assert_eq!(output, 100_000);
}

#[test]
fn test_anti_windup_plateau_under_sustained_saturation() {
    // Under a sustained constant saturating error the integral stops
    // growing: each saturated tick undoes its own tentative advance.
    let mut pid = PIDController::new(PIDSettings::new(50_000, 1_000, 0), 22_000);
    assert_eq!(pid.update(17_000).unwrap(), 100_000);
    assert_eq!(pid.integral, 0);
    assert_eq!(pid.update(17_000).unwrap(), 100_000);
    assert_eq!(pid.integral, 0);
    assert_eq!(pid.update(17_000).unwrap(), 100_000);
    assert_eq!(pid.integral, 0);
}

#[test]
fn test_unsaturated_ticks_accumulate_integral() {
    // kp = 1.0, ki = 1.0 on a 1.0 degree error: output grows with the
    // integral while the cap does not bite.
    let mut pid = PIDController::new(PIDSettings::new(1_000, 1_000, 0), 22_000);
    assert_eq!(pid.update(21_000).unwrap(), 2_000);
    assert_eq!(pid.integral, 1_000);
    assert_eq!(pid.update(21_000).unwrap(), 3_000);
    assert_eq!(pid.integral, 2_000);
}

#[test]
fn test_derivative_term_sees_error_change() {
    // kd alone: the first tick sees the full error step, the second none.
    let mut pid = PIDController::new(PIDSettings::new(0, 0, 1_000), 0);
    assert_eq!(pid.update(-1_000).unwrap(), 1_000);
    assert_eq!(pid.update(-1_000).unwrap(), 0);
}

#[test]
fn test_set_setpoint_keeps_integral_and_history() {
    let mut pid = PIDController::new(PIDSettings::new(1_000, 1_000, 0), 22_000);
    pid.update(21_000).unwrap();
    let integral_before = pid.integral;
    let previous_error_before = pid.previous_error;
    pid.set_setpoint(30_000);
    assert_eq!(pid.setpoint, 30_000);
    assert_eq!(pid.integral, integral_before);
    assert_eq!(pid.previous_error, previous_error_before);
}

#[test]
fn test_update_rejects_out_of_range_reading() {
    let mut pid = PIDController::new(PIDSettings::new(1_000, 1_000, 0), 22_000);
    let result = pid.update(2_000_000_000_000);
    assert_eq!(result, Err(ControlError::InvalidInput));
    assert_eq!(pid.integral, 0);
    assert_eq!(pid.previous_error, 0);
}

#[test]
fn test_negative_output_is_not_capped_below() {
    // The loop itself caps only from above; the caller clamps at zero.
    let mut pid = PIDController::new(PIDSettings::new(1_000, 0, 0), 22_000);
    assert_eq!(pid.update(25_000).unwrap(), -3_000);
}
