use vav_control::{PIDSettings, VavBox, VavState};

fn default_box(setpoint: i64, deadband: i64) -> VavBox {
    VavBox::new(
        setpoint,
        PIDSettings::new(1_000, 10, 1),
        PIDSettings::new(1_200, 20, 2),
        deadband,
    )
    .unwrap()
}

#[test]
fn test_heating() {
    let mut vav = default_box(22_000, 1_000);
    // Simulate a significant decrease in temperature
    vav.change_temp(-5_000).unwrap();
    assert_eq!(vav.state, VavState::Heating);
}

#[test]
fn test_cooling() {
    let mut vav = default_box(22_000, 1_000);
    // Simulate a significant increase in temperature
    vav.change_temp(5_000).unwrap();
    assert_eq!(vav.state, VavState::Cooling);
}

#[test]
fn test_satisfied() {
    let mut vav = default_box(22_000, 1_000);
    // Simulate a minor temperature change within the satisfied threshold
    vav.change_temp(400).unwrap();
    assert_eq!(vav.state, VavState::Satisfied);
}

#[test]
fn test_mode_example_deadband_one_degree() {
    // deadband 1.0, setpoint 22.0: 17.0 heats, 27.0 cools, 22.4 satisfies
    let mut vav = default_box(22_000, 1_000);
    let (mode, _) = vav.update_temperature(17_000).unwrap();
    assert_eq!(mode, VavState::Heating);
    let (mode, _) = vav.update_temperature(27_000).unwrap();
    assert_eq!(mode, VavState::Cooling);
    let (mode, _) = vav.update_temperature(22_400).unwrap();
    assert_eq!(mode, VavState::Satisfied);
}

#[test]
fn test_mode_at_half_deadband_boundary() {
    // A deviation of exactly deadband/2 is outside the satisfied band.
    let mut vav = default_box(22_000, 1_000);
    let (mode, _) = vav.update_temperature(21_500).unwrap();
    assert_eq!(mode, VavState::Heating);
    let (mode, _) = vav.update_temperature(22_500).unwrap();
    assert_eq!(mode, VavState::Cooling);
    let (mode, _) = vav.update_temperature(22_499).unwrap();
    assert_eq!(mode, VavState::Satisfied);
}

#[test]
fn test_discharge_staging_low_heating_output() {
    // Heating output 30 %: temperature interpolated 30 % of the way from
    // the supply temperature (60.0) to the maximum discharge temperature
    // (110.0), flow held at the heating minimum (400.0).
    let mut vav = VavBox::new(
        22_000,
        PIDSettings::new(5_000, 0, 0),
        PIDSettings::new(5_000, 0, 0),
        1_000,
    )
    .unwrap();
    let (mode, outputs) = vav.update_temperature(16_000).unwrap();
    assert_eq!(mode, VavState::Heating);
    assert_eq!(vav.get_pid_output_heating(), 30_000);
    assert_eq!(outputs.discharge_air_temp_setpoint, 75_000);
    assert_eq!(outputs.discharge_air_flow_setpoint, 400_000);
}

#[test]
fn test_discharge_staging_high_heating_output() {
    // Heating output 70 %: temperature clamped to the maximum discharge
    // temperature, flow interpolated 70 % of the way from the heating
    // minimum (400.0) to the heating maximum (800.0).
    let mut vav = VavBox::new(
        22_000,
        PIDSettings::new(5_000, 0, 0),
        PIDSettings::new(5_000, 0, 0),
        1_000,
    )
    .unwrap();
    let (mode, outputs) = vav.update_temperature(8_000).unwrap();
    assert_eq!(mode, VavState::Heating);
    assert_eq!(vav.get_pid_output_heating(), 70_000);
    assert_eq!(outputs.discharge_air_temp_setpoint, 110_000);
    assert_eq!(outputs.discharge_air_flow_setpoint, 680_000);
}

#[test]
fn test_cooling_flow_modulates_continuously() {
    // Cooling interpolates flow over the full output range with no 50 %
    // gate; with negative cooling gains a hot zone drives a real output.
    let mut vav = VavBox::new(
        22_000,
        PIDSettings::new(5_000, 0, 0),
        PIDSettings::new(-5_000, 0, 0),
        1_000,
    )
    .unwrap();
    // error = 22.0 - 28.0 = -6.0; raw = -5.0 * -6.0 = 30.0
    let (mode, outputs) = vav.update_temperature(28_000).unwrap();
    assert_eq!(mode, VavState::Cooling);
    assert_eq!(vav.get_pid_output_cooling(), 30_000);
    // no reheat while cooling: discharge temperature is the supply (60.0)
    assert_eq!(outputs.discharge_air_temp_setpoint, 60_000);
    // flow 30 % of the way from 500.0 to 1000.0
    assert_eq!(outputs.discharge_air_flow_setpoint, 650_000);
}

#[test]
fn test_satisfied_outputs() {
    let mut vav = default_box(22_000, 1_000);
    let (mode, outputs) = vav.update_temperature(22_100).unwrap();
    assert_eq!(mode, VavState::Satisfied);
    assert_eq!(vav.get_pid_output_heating(), 0);
    assert_eq!(vav.get_pid_output_cooling(), 0);
    assert_eq!(outputs.discharge_air_temp_setpoint, 60_000);
    assert_eq!(outputs.discharge_air_flow_setpoint, 450_000);
}

#[test]
fn test_inactive_loop_does_not_advance() {
    let mut vav = VavBox::new(
        22_000,
        PIDSettings::new(1_000, 1_000, 0),
        PIDSettings::new(1_200, 1_000, 0),
        1_000,
    )
    .unwrap();
    vav.update_temperature(17_000).unwrap();
    assert_eq!(vav.heating_pid.integral, 5_000);
    assert_eq!(vav.cooling_pid.integral, 0);
    vav.update_temperature(17_000).unwrap();
    assert_eq!(vav.heating_pid.integral, 10_000);
    assert_eq!(vav.cooling_pid.integral, 0);
}

#[test]
fn test_update_temperature_rejects_out_of_range() {
    let mut vav = default_box(22_000, 1_000);
    let before_temp = vav.current_temp;
    let result = vav.update_temperature(2_000_000_000_000);
    assert_eq!(result, Err(vav_control::ControlError::InvalidInput));
    assert_eq!(vav.current_temp, before_temp);
    assert_eq!(vav.state, VavState::Satisfied);
}

#[test]
fn test_state_codes_and_control_signal() {
    let mut vav = default_box(22_000, 1_000);
    assert_eq!(vav.get_state_code(), 3);
    assert_eq!(vav.control_signal(), 0);
    vav.change_temp(-5_000).unwrap();
    assert_eq!(vav.get_state_code(), 1);
    assert_eq!(vav.control_signal(), 1_000);
    vav.change_temp(10_000).unwrap();
    assert_eq!(vav.get_state_code(), 2);
    assert_eq!(vav.control_signal(), -1_000);
}

#[test]
fn test_setpoint_setter_reaches_both_loops() {
    let mut vav = default_box(22_000, 1_000);
    vav.set_zone_air_temp_setpoint(24_000).unwrap();
    assert_eq!(vav.setpoint_temp, 24_000);
    assert_eq!(vav.heating_pid.setpoint, 24_000);
    assert_eq!(vav.cooling_pid.setpoint, 24_000);
}

#[test]
fn test_deadband_setter_rejects_negative() {
    let mut vav = default_box(22_000, 1_000);
    assert_eq!(
        vav.set_zone_air_temp_deadband(-1),
        Err(vav_control::ControlError::InvalidInput)
    );
    assert_eq!(vav.deadband, 1_000);
    vav.set_zone_air_temp_deadband(5_000).unwrap();
    assert_eq!(vav.deadband, 5_000);
}

#[test]
fn test_new_rejects_out_of_range_setpoint() {
    let result = VavBox::new(
        2_000_000_000_000,
        PIDSettings::new(1_000, 10, 1),
        PIDSettings::new(1_200, 20, 2),
        1_000,
    );
    assert!(result.is_err());
}

#[test]
fn test_interpolate_output_midpoint() {
    assert_eq!(vav_control::interpolate_output(50_000, 110_000, 60_000), 85_000);
    assert_eq!(vav_control::interpolate_output(0, 110_000, 60_000), 60_000);
    assert_eq!(vav_control::interpolate_output(100_000, 110_000, 60_000), 110_000);
}

#[test]
fn test_heating_output_saturates_at_cap() {
    // An aggressive gain saturates the loop; the retained output holds at
    // 100 % and the loop's integral plateaus instead of winding up.
    let mut vav = VavBox::new(
        22_000,
        PIDSettings::new(50_000, 1_000, 0),
        PIDSettings::new(1_200, 20, 2),
        1_000,
    )
    .unwrap();
    vav.update_temperature(17_000).unwrap();
    assert_eq!(vav.get_pid_output_heating(), 100_000);
    assert_eq!(vav.heating_pid.integral, 0);
    vav.update_temperature(17_000).unwrap();
    assert_eq!(vav.get_pid_output_heating(), 100_000);
    assert_eq!(vav.heating_pid.integral, 0);
}
