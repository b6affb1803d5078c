//! The decisions on MeterValues requests. The currents that the central system computes from
//! the measured values (6255.9 W and 9 A offered at 695.9 V give a limit of 15 A) and from the
//! inverter's power flow are given as the integers it arrives at, in tenths of an ampere.
use ocpp_central::charge_point_state::{ChargePointState, RequestToSend};
use ocpp_central::hooks::{
    build_grid_based_smart_charging_tx_profile, evaluate_meter_values,
    get_updated_max_charging_current, grid_profile_is_well_formed, needs_cheapest_period,
    pv_profile_is_well_formed, PvChargingCurrent,
};
use ocpp_central::messages::{
    ChargingProfile, ChargingSchedule, ChargingSchedulePeriod, ClearChargingProfileRequest,
    OcppRequest, SetChargingProfileRequest,
};
use ocpp_central::ocpp_types::MessageTypeName;
use ocpp_central::types::{
    ChargingProfileKindType, ChargingProfilePurposeType, ChargingRateUnitType, SmartChargingMode,
};

/// The limit that the measured values of the examples give: 15 A.
const MEASURED_LIMIT: i64 = 150;
/// The configured default current, which clamps the PV current: 16 A.
const DEFAULT_CURRENT: i64 = 160;
const PERIOD_START: i32 = 300;

/// Handles MeterValues as the central system does, with the limit and PV current computed.
fn evaluate(state: &mut ChargePointState, limit: i64, pv: PvChargingCurrent) {
    let max_current = get_updated_max_charging_current(state, limit);
    if let Some(grid_current) = evaluate_meter_values(state, max_current, pv).unwrap() {
        assert!(!needs_cheapest_period(state));
        build_grid_based_smart_charging_tx_profile(state, grid_current, None, 0).unwrap();
    }
}

fn state(max_current: Option<i64>, mode: SmartChargingMode) -> ChargePointState {
    let mut charge_point_state = ChargePointState::default();
    if let Some(m) = max_current {
        charge_point_state.set_max_current(m);
    }
    charge_point_state.set_smart_charging_mode(mode);
    charge_point_state
}

fn set_profile(request: &RequestToSend) -> &SetChargingProfileRequest {
    assert_eq!(request.message_type, MessageTypeName::SetChargingProfile);
    match &request.payload {
        OcppRequest::SetChargingProfile(p) => p,
        other => panic!("not a SetChargingProfile payload: {:?}", other),
    }
}

fn period(start_period: i32, limit: i64) -> ChargingSchedulePeriod {
    ChargingSchedulePeriod { start_period, limit, number_phases: None }
}

fn assert_pv_profile(request: &RequestToSend, limit: i64) {
    let p = &set_profile(request).cs_charging_profiles;
    assert_eq!(p.stack_level, 1);
    assert_eq!(p.charging_profile_kind, ChargingProfileKindType::Relative);
    assert_eq!(p.charging_profile_purpose, ChargingProfilePurposeType::TxProfile);
    assert_eq!(p.charging_schedule.charging_rate_unit, ChargingRateUnitType::A);
    assert_eq!(p.charging_schedule.charging_schedule_period, vec![period(0, limit)]);
}

fn installed_profile(id: i32, stack_level: u32, kind: ChargingProfileKindType, periods: Vec<ChargingSchedulePeriod>) -> ChargingProfile {
    ChargingProfile {
        charging_profile_id: id,
        transaction_id: None,
        stack_level,
        charging_profile_purpose: ChargingProfilePurposeType::TxProfile,
        charging_profile_kind: kind,
        recurrency_kind: None,
        valid_from: None,
        valid_to: None,
        charging_schedule: ChargingSchedule {
            duration: None,
            start_schedule: None,
            charging_rate_unit: ChargingRateUnitType::A,
            charging_schedule_period: periods,
            min_charging_rate: None,
        },
    }
}

#[test]
fn valid_meter_values_request() {
    // No PV current: the sample interval is not configured.
    let mut charge_point_state = state(None, SmartChargingMode::Instant);
    evaluate(&mut charge_point_state, MEASURED_LIMIT, PvChargingCurrent::Unavailable);
    let requests = charge_point_state.get_requests_to_send();
    assert!(!requests.is_empty());
    let p = &set_profile(&requests[0]).cs_charging_profiles;
    assert_eq!(p.stack_level, 0);
    assert_eq!(p.charging_profile_kind, ChargingProfileKindType::Relative);
    assert_eq!(p.charging_profile_purpose, ChargingProfilePurposeType::TxDefaultProfile);
    assert_eq!(p.charging_schedule.charging_rate_unit, ChargingRateUnitType::A);
    assert_eq!(p.charging_schedule.charging_schedule_period, vec![period(0, 150)]);
}

#[test]
fn no_power_flow_and_unchanged_max_charging_current() {
    let mut charge_point_state = state(Some(150), SmartChargingMode::Instant);
    evaluate(&mut charge_point_state, MEASURED_LIMIT, PvChargingCurrent::Unavailable);
    assert!(charge_point_state.get_requests_to_send().is_empty());
}

#[test]
fn max_power_flow_and_unchanged_max_charging_current() {
    // 14 kW of PV: far above the default current, so the PV current is clamped to 16 A.
    let mut charge_point_state = state(Some(150), SmartChargingMode::PVOverProductionAndGridBased);
    evaluate(&mut charge_point_state, MEASURED_LIMIT, PvChargingCurrent::Limit(DEFAULT_CURRENT));
    let requests = charge_point_state.get_requests_to_send();
    assert!(!requests.is_empty());
    assert_pv_profile(&requests[0], DEFAULT_CURRENT);
}

#[test]
fn max_power_flow_and_changed_max_charging_current() {
    let mut charge_point_state = state(Some(40), SmartChargingMode::PVOverProductionAndGridBased);
    charge_point_state.add_charging_profile(&installed_profile(
        2,
        0,
        ChargingProfileKindType::Absolute,
        vec![period(0, 0), period(PERIOD_START, 50)],
    ));
    evaluate(&mut charge_point_state, MEASURED_LIMIT, PvChargingCurrent::Limit(DEFAULT_CURRENT));
    let requests = charge_point_state.get_requests_to_send();
    assert_pv_profile(&requests[0], DEFAULT_CURRENT);
    let grid = &set_profile(&requests[1]).cs_charging_profiles;
    assert_eq!(grid.stack_level, 0);
    assert_eq!(grid.charging_profile_kind, ChargingProfileKindType::Absolute);
    assert_eq!(grid.charging_profile_purpose, ChargingProfilePurposeType::TxProfile);
    assert_eq!(grid.charging_schedule.charging_rate_unit, ChargingRateUnitType::A);
    assert_eq!(grid.charging_schedule.charging_schedule_period, vec![period(0, 0), period(PERIOD_START, 150)]);
}

#[test]
fn pv_overproduction_charging_profile() {
    let mut charge_point_state = state(Some(40), SmartChargingMode::PVOverProduction);
    evaluate(&mut charge_point_state, MEASURED_LIMIT, PvChargingCurrent::Limit(DEFAULT_CURRENT));
    let requests = charge_point_state.get_requests_to_send();
    assert_pv_profile(&requests[0], DEFAULT_CURRENT);
    assert_eq!(requests.len(), 1);
}

#[test]
fn insufficient_power_flow_and_unchanged_max_charging_current() {
    // 500 W of PV: below the minimum current.
    let mut charge_point_state = state(Some(150), SmartChargingMode::PVOverProductionAndGridBased);
    evaluate(&mut charge_point_state, MEASURED_LIMIT, PvChargingCurrent::NotAboveMinimum);
    assert!(charge_point_state.get_requests_to_send().is_empty());
}

#[test]
fn insufficient_power_flow_with_existing_pv_profile_and_unchanged_max_charging_current() {
    let mut charge_point_state = state(Some(150), SmartChargingMode::PVOverProductionAndGridBased);
    charge_point_state.add_charging_profile(&installed_profile(5, 1, ChargingProfileKindType::Relative, vec![period(0, 60)]));
    evaluate(&mut charge_point_state, MEASURED_LIMIT, PvChargingCurrent::NotAboveMinimum);
    let requests = charge_point_state.get_requests_to_send();
    assert_eq!(requests[0].message_type, MessageTypeName::ClearChargingProfile);
    assert_eq!(
        requests[0].payload,
        OcppRequest::ClearChargingProfile(ClearChargingProfileRequest {
            id: Some(5),
            connector_id: Some(1),
            charging_profile_purpose: Some(ChargingProfilePurposeType::TxProfile),
            stack_level: Some(1),
        })
    );
}

#[test]
fn changed_power_flow_with_existing_pv_profile_and_unchanged_max_charging_current() {
    // 9 kW of PV: 12.7 A.
    let mut charge_point_state = state(Some(150), SmartChargingMode::PVOverProductionAndGridBased);
    charge_point_state.add_charging_profile(&installed_profile(5, 1, ChargingProfileKindType::Relative, vec![period(0, 160)]));
    evaluate(&mut charge_point_state, MEASURED_LIMIT, PvChargingCurrent::Limit(127));
    let requests = charge_point_state.get_requests_to_send();
    assert_pv_profile(&requests[0], 127);
}

#[test]
fn pv_profile_is_built_beside_a_grid_profile_without_periods() {
    let mut charge_point_state = state(Some(150), SmartChargingMode::PVOverProduction);
    charge_point_state.add_charging_profile(&installed_profile(2, 0, ChargingProfileKindType::Absolute, vec![]));
    assert!(!grid_profile_is_well_formed(&charge_point_state));
    assert!(pv_profile_is_well_formed(&charge_point_state));
    evaluate(&mut charge_point_state, MEASURED_LIMIT, PvChargingCurrent::Limit(DEFAULT_CURRENT));
    assert_pv_profile(&charge_point_state.get_requests_to_send()[0], DEFAULT_CURRENT);
}

#[test]
fn grid_profile_is_updated_beside_a_pv_profile_without_periods() {
    let mut charge_point_state = state(Some(40), SmartChargingMode::PVOverProductionAndGridBased);
    charge_point_state.add_charging_profile(&installed_profile(5, 1, ChargingProfileKindType::Relative, vec![]));
    charge_point_state.add_charging_profile(&installed_profile(
        2,
        0,
        ChargingProfileKindType::Absolute,
        vec![period(0, 0), period(PERIOD_START, 50)],
    ));
    assert!(!pv_profile_is_well_formed(&charge_point_state));
    assert!(grid_profile_is_well_formed(&charge_point_state));
    evaluate(&mut charge_point_state, MEASURED_LIMIT, PvChargingCurrent::Unavailable);
    let grid = &set_profile(&charge_point_state.get_requests_to_send()[0]).cs_charging_profiles;
    assert_eq!(grid.charging_schedule.charging_schedule_period, vec![period(0, 0), period(PERIOD_START, 150)]);
}
