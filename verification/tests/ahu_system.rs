use vav_control::{
    breathing_zone_oa, calculate_ahu_percent_oa, version, zone_flow_setpoint, AshraeStandards,
    ControlError, SystemConfig, TemperatureSensor, Zone,
};

fn default_standards() -> AshraeStandards {
    AshraeStandards::new(800, 40_000, 10, 150).unwrap()
}

fn setup_default_system_config() -> SystemConfig {
    let mut config = SystemConfig::new(default_standards()).unwrap();
    config
        .upsert_zone(
            "zone1".to_string(),
            Zone::new(1_000_000, 1_000, 5_000, 200_000, 500_000, 12).unwrap(),
        )
        .unwrap();
    config
        .upsert_zone(
            "zone2".to_string(),
            Zone::new(2_000_000, 1_000, 5_000, 400_000, 1_000_000, 15).unwrap(),
        )
        .unwrap();
    config
        .upsert_zone(
            "zone3".to_string(),
            Zone::new(1_500_000, 1_000, 5_000, 300_000, 750_000, 8).unwrap(),
        )
        .unwrap();
    config
}

fn setpoint_for<'a>(
    setpoints: &'a [(String, Option<i64>)],
    zone_name: &str,
) -> Option<&'a Option<i64>> {
    setpoints
        .iter()
        .find(|(name, _)| name == zone_name)
        .map(|(_, setpoint)| setpoint)
}

#[test]
fn test_calculate_ahu_percent_oa() {
    let mixed_air_temp = 60_000;
    let return_air_temp = 72_100;
    let outside_air_temp = 40_200;
    let ahu_outside_air_damper_cmd = 55_500;
    let percent_oa = calculate_ahu_percent_oa(
        mixed_air_temp,
        return_air_temp,
        outside_air_temp,
        ahu_outside_air_damper_cmd,
    )
    .unwrap();
    assert!(percent_oa > 0);
}

#[test]
fn test_percent_oa_equal_temperatures_is_zero() {
    // With the outside-air and return-air temperatures equal the estimate
    // is undefined and the defined fallback of exactly zero is returned.
    assert_eq!(calculate_ahu_percent_oa(60_000, 72_100, 72_100, 0), Ok(0));
}

#[test]
fn test_percent_oa_damper_floor_wins() {
    // raw = (60 - 72.1) / (40.2 - 72.1) = 0.379...; floor = 0.555
    assert_eq!(calculate_ahu_percent_oa(60_000, 72_100, 40_200, 55_500), Ok(555));
}

#[test]
fn test_percent_oa_temperature_estimate_wins() {
    // raw 0.379 beats a 10 % damper floor
    assert_eq!(calculate_ahu_percent_oa(60_000, 72_100, 40_200, 10_000), Ok(379));
}

#[test]
fn test_percent_oa_rejects_out_of_range() {
    assert_eq!(
        calculate_ahu_percent_oa(2_000_000_000_000, 72_100, 40_200, 0),
        Err(ControlError::InvalidInput)
    );
}

#[test]
fn test_breathing_zone_oa_formula() {
    // (5.0 * 12 + 1.0 * 1000) / 0.8 = 1325.0
    let zone = Zone::new(1_000_000, 1_000, 5_000, 200_000, 500_000, 12).unwrap();
    assert_eq!(breathing_zone_oa(&zone, 800), Some(1_325_000));
}

#[test]
fn test_zone_flow_setpoint_formula() {
    // 1325.0 / 0.555 = 2387.387...
    let zone = Zone::new(1_000_000, 1_000, 5_000, 200_000, 500_000, 12).unwrap();
    assert_eq!(zone_flow_setpoint(&zone, 800, 555), Some(2_387_387));
}

#[test]
fn test_calculate_vav_flow_setpoints() {
    let config = setup_default_system_config();
    let percent_oa = calculate_ahu_percent_oa(60_000, 72_100, 40_200, 55_500).unwrap();
    let setpoints = config.calculate_vav_flow_setpoints(percent_oa).unwrap();
    assert!(!setpoints.is_empty());
    assert!(setpoint_for(&setpoints, "zone1").unwrap().is_some());
}

#[test]
fn test_update_people_count_and_calculate_flow_setpoints() {
    // Setup initial configuration
    let mut config = setup_default_system_config();

    // Zone to update
    let zone_name = "zone1".to_string();
    let new_people_count = 20;

    // Update people count
    assert_eq!(config.update_occupancy(&zone_name, new_people_count), Ok(()));

    // Calculate VAV flow setpoints after update
    let percent_oa = calculate_ahu_percent_oa(60_000, 72_100, 40_200, 55_500).unwrap();
    let setpoints = config.calculate_vav_flow_setpoints(percent_oa).unwrap();

    // Check the updated people count impact
    let updated_setpoint = setpoint_for(&setpoints, "zone1").unwrap().unwrap();
    assert!(updated_setpoint > 0);
}

#[test]
fn test_flow_setpoint_exact_after_occupancy_update() {
    let mut config = setup_default_system_config();
    config.update_occupancy(&"zone1".to_string(), 20).unwrap();
    assert_eq!(config.get_zone(&"zone1".to_string()).unwrap().people_count, 20);
    let setpoints = config.calculate_vav_flow_setpoints(555).unwrap();
    // (5.0 * 20 + 1.0 * 1000) / 0.8 = 1375.0; 1375.0 / 0.555 = 2477.477...
    assert_eq!(setpoint_for(&setpoints, "zone1").unwrap(), &Some(2_477_477));
}

#[test]
fn test_update_occupancy_unknown_zone() {
    // An unknown id is reported as not found, the registry is unchanged,
    // and the id still resolves to nothing afterwards.
    let mut config = setup_default_system_config();
    let unknown = "unknown".to_string();
    assert_eq!(config.update_occupancy(&unknown, 5), Err(ControlError::NotFound));
    assert!(config.get_zone(&unknown).is_none());
    assert_eq!(config.get_zone(&"zone1".to_string()).unwrap().people_count, 12);
}

#[test]
fn test_update_occupancy_rejects_negative_count() {
    let mut config = setup_default_system_config();
    assert_eq!(
        config.update_occupancy(&"zone1".to_string(), -1),
        Err(ControlError::InvalidInput)
    );
    assert_eq!(config.get_zone(&"zone1".to_string()).unwrap().people_count, 12);
}

#[test]
fn test_upsert_zone_replaces_existing() {
    let mut config = setup_default_system_config();
    let replacement = Zone::new(500_000, 2_000, 2_500, 100_000, 300_000, 3).unwrap();
    config.upsert_zone("zone1".to_string(), replacement).unwrap();
    assert_eq!(config.get_zone(&"zone1".to_string()), Some(replacement));
    // the other zones are untouched
    assert_eq!(config.get_zone(&"zone2".to_string()).unwrap().people_count, 15);
}

#[test]
fn test_zone_new_rejects_bad_parameters() {
    // non-positive area
    assert!(Zone::new(0, 1_000, 5_000, 200_000, 500_000, 12).is_err());
    // negative rate
    assert!(Zone::new(1_000_000, -1, 5_000, 200_000, 500_000, 12).is_err());
    // flow limits out of order
    assert!(Zone::new(1_000_000, 1_000, 5_000, 500_000, 200_000, 12).is_err());
    // negative occupant count
    assert!(Zone::new(1_000_000, 1_000, 5_000, 200_000, 500_000, -1).is_err());
}

#[test]
fn test_ashrae_standards_effectiveness_bounds() {
    assert!(AshraeStandards::new(0, 40_000, 10, 150).is_err());
    assert!(AshraeStandards::new(1_001, 40_000, 10, 150).is_err());
    assert!(AshraeStandards::new(1_000, 40_000, 10, 150).is_ok());
}

#[test]
fn test_zero_outside_air_fraction_is_rejected() {
    let config = setup_default_system_config();
    assert_eq!(
        config.calculate_vav_flow_setpoints(0).map(|_| ()),
        Err(ControlError::ZeroOutsideAirFraction)
    );
}

#[test]
fn test_flow_setpoints_reject_out_of_range_fraction() {
    let config = setup_default_system_config();
    assert_eq!(
        config.calculate_vav_flow_setpoints(2_000_000_000_000).map(|_| ()),
        Err(ControlError::InvalidInput)
    );
}

#[test]
fn test_version() {
    let version_info = version();
    assert_eq!(version_info, "Version 1.0 of HVAC System Configurations");
}

#[test]
fn test_temperature_sensor_remembers_reading() {
    let sensor = TemperatureSensor::new(21_900);
    assert_eq!(sensor.last_reading, 21_900);
}
