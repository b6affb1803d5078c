use ocpp_central::central_system::{answer_request, CentralSystemResponse, ChargePointRequest};
use ocpp_central::charge_point_state::ChargePointState;
use ocpp_central::hooks::{
    apply_status_notification, evaluate_status_notification, StatusNotificationStep,
    TransitionAction, CONNECTOR_ID,
};
use ocpp_central::messages::{
    ChargingProfile, ChargingSchedule, ClearChargingProfileRequest, OcppRequest,
};
use ocpp_central::ocpp_types::MessageTypeName;
use ocpp_central::types::{
    ChargePointStatus, ChargingProfileKindType, ChargingProfilePurposeType, ChargingRateUnitType,
    SmartChargingMode,
};

/// What the inverter was asked to do while a status notification was handled.
struct BatteryCalls {
    block_battery_for_duration_called: bool,
    unblock_battery_called: bool,
}

/// Handles a StatusNotification reporting `status` as the central system does, recording
/// the battery calls instead of making them.
fn evaluate(charge_point_state: &mut ChargePointState, status: ChargePointStatus) -> BatteryCalls {
    let step = evaluate_status_notification(charge_point_state, status);
    let calls = match step {
        StatusNotificationStep::Transition(TransitionAction::BlockBattery) => BatteryCalls {
            block_battery_for_duration_called: true,
            unblock_battery_called: false,
        },
        StatusNotificationStep::Transition(TransitionAction::UnblockBattery)
        | StatusNotificationStep::Transition(TransitionAction::UnblockBatteryAndClearProfiles) => {
            BatteryCalls { block_battery_for_duration_called: false, unblock_battery_called: true }
        }
        _ => BatteryCalls { block_battery_for_duration_called: false, unblock_battery_called: false },
    };
    apply_status_notification(charge_point_state, status, step).unwrap();
    calls
}

fn charge_point_state_with_status(status: ChargePointStatus) -> ChargePointState {
    let mut charge_point_state = ChargePointState::default();
    charge_point_state.set_charge_point_status(status);
    charge_point_state
}

fn charge_point_state_with_dummy_charge_profile(status: ChargePointStatus) -> ChargePointState {
    let mut charge_point_state = charge_point_state_with_status(status);
    charge_point_state.add_charging_profile(&ChargingProfile {
        charging_profile_id: 1,
        transaction_id: None,
        stack_level: 0,
        charging_profile_purpose: ChargingProfilePurposeType::TxProfile,
        charging_profile_kind: ChargingProfileKindType::Relative,
        recurrency_kind: None,
        valid_from: None,
        valid_to: None,
        charging_schedule: ChargingSchedule {
            duration: None,
            start_schedule: None,
            charging_rate_unit: ChargingRateUnitType::A,
            charging_schedule_period: vec![],
            min_charging_rate: None,
        },
    });
    charge_point_state
}

/// The single queued request must clear the dummy profile.
fn assert_dummy_profile_cleared(charge_point_state: &ChargePointState) {
    let requests_to_send = charge_point_state.get_requests_to_send();
    assert_eq!(requests_to_send.len(), 1);
    let clear_charging_profile_request = requests_to_send.first().unwrap();
    assert_eq!(clear_charging_profile_request.message_type, MessageTypeName::ClearChargingProfile);
    assert_eq!(
        clear_charging_profile_request.payload,
        OcppRequest::ClearChargingProfile(ClearChargingProfileRequest {
            id: Some(1),
            connector_id: Some(CONNECTOR_ID),
            charging_profile_purpose: Some(ChargingProfilePurposeType::TxProfile),
            stack_level: Some(0),
        })
    );
    assert_eq!(charge_point_state.get_smart_charging_mode(), SmartChargingMode::Instant);
}

#[test]
fn initial_state_notification() {
    let mut charge_point_state = ChargePointState::default();
    let calls = evaluate(&mut charge_point_state, ChargePointStatus::Available);
    assert!(!calls.block_battery_for_duration_called);
    assert_eq!(charge_point_state.get_charge_point_status(), &Some(ChargePointStatus::Available));
}

#[test]
fn available_to_preparing() {
    let mut charge_point_state = charge_point_state_with_status(ChargePointStatus::Available);
    let calls = evaluate(&mut charge_point_state, ChargePointStatus::Preparing);
    assert!(!calls.block_battery_for_duration_called);
    assert!(!calls.unblock_battery_called);
    assert_eq!(charge_point_state.get_charge_point_status(), &Some(ChargePointStatus::Preparing));
}

#[test]
fn available_to_charging() {
    let mut charge_point_state = charge_point_state_with_status(ChargePointStatus::Available);
    let calls = evaluate(&mut charge_point_state, ChargePointStatus::Charging);
    assert!(calls.block_battery_for_duration_called);
    assert_eq!(charge_point_state.get_charge_point_status(), &Some(ChargePointStatus::Charging));
}

#[test]
fn preparing_to_available() {
    let mut charge_point_state =
        charge_point_state_with_dummy_charge_profile(ChargePointStatus::Preparing);
    let calls = evaluate(&mut charge_point_state, ChargePointStatus::Available);
    assert!(!calls.block_battery_for_duration_called);
    assert!(calls.unblock_battery_called);
    assert_eq!(charge_point_state.get_charge_point_status(), &Some(ChargePointStatus::Available));
    assert_dummy_profile_cleared(&charge_point_state);
}

#[test]
fn preparing_to_charging() {
    let mut charge_point_state = charge_point_state_with_status(ChargePointStatus::Preparing);
    let calls = evaluate(&mut charge_point_state, ChargePointStatus::Charging);
    assert!(calls.block_battery_for_duration_called);
    assert!(!calls.unblock_battery_called);
    assert_eq!(charge_point_state.get_charge_point_status(), &Some(ChargePointStatus::Charging));
}

#[test]
fn preparing_to_finishing() {
    let mut charge_point_state =
        charge_point_state_with_dummy_charge_profile(ChargePointStatus::Preparing);
    let calls = evaluate(&mut charge_point_state, ChargePointStatus::Finishing);
    assert!(!calls.block_battery_for_duration_called);
    assert!(calls.unblock_battery_called);
    assert_eq!(charge_point_state.get_charge_point_status(), &Some(ChargePointStatus::Finishing));
    assert_dummy_profile_cleared(&charge_point_state);
}

#[test]
fn charging_to_available() {
    let mut charge_point_state =
        charge_point_state_with_dummy_charge_profile(ChargePointStatus::Charging);
    let calls = evaluate(&mut charge_point_state, ChargePointStatus::Available);
    assert!(!calls.block_battery_for_duration_called);
    assert!(calls.unblock_battery_called);
    assert_eq!(charge_point_state.get_charge_point_status(), &Some(ChargePointStatus::Available));
    assert_dummy_profile_cleared(&charge_point_state);
}

#[test]
fn charging_to_suspended_ev() {
    let mut charge_point_state = charge_point_state_with_status(ChargePointStatus::Charging);
    let calls = evaluate(&mut charge_point_state, ChargePointStatus::SuspendedEV);
    assert!(!calls.block_battery_for_duration_called);
    assert!(calls.unblock_battery_called);
    assert_eq!(charge_point_state.get_charge_point_status(), &Some(ChargePointStatus::SuspendedEV));
    assert!(charge_point_state.get_requests_to_send().is_empty());
}

#[test]
fn charging_to_suspended_evse() {
    let mut charge_point_state = charge_point_state_with_status(ChargePointStatus::Charging);
    let calls = evaluate(&mut charge_point_state, ChargePointStatus::SuspendedEVSE);
    assert!(!calls.block_battery_for_duration_called);
    assert!(calls.unblock_battery_called);
    assert_eq!(charge_point_state.get_charge_point_status(), &Some(ChargePointStatus::SuspendedEVSE));
    assert!(charge_point_state.get_requests_to_send().is_empty());
}

#[test]
fn charging_to_finishing() {
    let mut charge_point_state =
        charge_point_state_with_dummy_charge_profile(ChargePointStatus::Charging);
    let calls = evaluate(&mut charge_point_state, ChargePointStatus::Finishing);
    assert!(!calls.block_battery_for_duration_called);
    assert!(calls.unblock_battery_called);
    assert_eq!(charge_point_state.get_charge_point_status(), &Some(ChargePointStatus::Finishing));
    assert_dummy_profile_cleared(&charge_point_state);
}

#[test]
fn suspended_ev_to_available() {
    let mut charge_point_state =
        charge_point_state_with_dummy_charge_profile(ChargePointStatus::SuspendedEV);
    let calls = evaluate(&mut charge_point_state, ChargePointStatus::Available);
    assert!(!calls.block_battery_for_duration_called);
    assert!(calls.unblock_battery_called);
    assert_eq!(charge_point_state.get_charge_point_status(), &Some(ChargePointStatus::Available));
    assert_dummy_profile_cleared(&charge_point_state);
}

#[test]
fn suspended_ev_to_charging() {
    let mut charge_point_state = charge_point_state_with_status(ChargePointStatus::SuspendedEV);
    let calls = evaluate(&mut charge_point_state, ChargePointStatus::Charging);
    assert!(calls.block_battery_for_duration_called);
    assert!(!calls.unblock_battery_called);
    assert_eq!(charge_point_state.get_charge_point_status(), &Some(ChargePointStatus::Charging));
}

#[test]
fn suspended_ev_to_finishing() {
    let mut charge_point_state =
        charge_point_state_with_dummy_charge_profile(ChargePointStatus::SuspendedEV);
    let calls = evaluate(&mut charge_point_state, ChargePointStatus::Finishing);
    assert!(!calls.block_battery_for_duration_called);
    assert!(calls.unblock_battery_called);
    assert_eq!(charge_point_state.get_charge_point_status(), &Some(ChargePointStatus::Finishing));
    assert_dummy_profile_cleared(&charge_point_state);
}

#[test]
fn suspended_evse_to_available() {
    let mut charge_point_state =
        charge_point_state_with_dummy_charge_profile(ChargePointStatus::SuspendedEVSE);
    let calls = evaluate(&mut charge_point_state, ChargePointStatus::Available);
    assert!(!calls.block_battery_for_duration_called);
    assert!(calls.unblock_battery_called);
    assert_eq!(charge_point_state.get_charge_point_status(), &Some(ChargePointStatus::Available));
    assert_dummy_profile_cleared(&charge_point_state);
}

#[test]
fn suspended_evse_to_charging() {
    let mut charge_point_state = charge_point_state_with_status(ChargePointStatus::SuspendedEVSE);
    let calls = evaluate(&mut charge_point_state, ChargePointStatus::Charging);
    assert!(calls.block_battery_for_duration_called);
    assert!(!calls.unblock_battery_called);
    assert_eq!(charge_point_state.get_charge_point_status(), &Some(ChargePointStatus::Charging));
}

#[test]
fn suspended_evse_to_finishing() {
    let mut charge_point_state =
        charge_point_state_with_dummy_charge_profile(ChargePointStatus::SuspendedEVSE);
    let calls = evaluate(&mut charge_point_state, ChargePointStatus::Finishing);
    assert!(!calls.block_battery_for_duration_called);
    assert!(calls.unblock_battery_called);
    assert_eq!(charge_point_state.get_charge_point_status(), &Some(ChargePointStatus::Finishing));
    assert_dummy_profile_cleared(&charge_point_state);
}

#[test]
fn finishing_to_available() {
    let mut charge_point_state =
        charge_point_state_with_dummy_charge_profile(ChargePointStatus::Finishing);
    let calls = evaluate(&mut charge_point_state, ChargePointStatus::Available);
    assert!(!calls.block_battery_for_duration_called);
    assert!(calls.unblock_battery_called);
    assert_eq!(charge_point_state.get_charge_point_status(), &Some(ChargePointStatus::Available));
    assert_dummy_profile_cleared(&charge_point_state);
}

#[test]
fn faulted_status_ignores_notifications() {
    let mut charge_point_state = charge_point_state_with_dummy_charge_profile(ChargePointStatus::Faulted);
    let calls = evaluate(&mut charge_point_state, ChargePointStatus::Available);
    assert!(!calls.block_battery_for_duration_called);
    assert!(!calls.unblock_battery_called);
    assert_eq!(charge_point_state.get_charge_point_status(), &Some(ChargePointStatus::Faulted));
    assert!(charge_point_state.get_requests_to_send().is_empty());
}

#[test]
fn finishing_to_charging_changes_status_only() {
    let mut charge_point_state = charge_point_state_with_dummy_charge_profile(ChargePointStatus::Finishing);
    let calls = evaluate(&mut charge_point_state, ChargePointStatus::Charging);
    assert!(!calls.block_battery_for_duration_called);
    assert!(!calls.unblock_battery_called);
    assert_eq!(charge_point_state.get_charge_point_status(), &Some(ChargePointStatus::Charging));
    assert!(charge_point_state.get_requests_to_send().is_empty());
    assert_eq!(charge_point_state.get_active_charging_profiles().len(), 1);
}

/// Runs the StatusNotifications of a session from a fresh state and collects the calls.
fn run_notifications(statuses: &[ChargePointStatus]) -> BatteryCalls {
    let mut charge_point_state = ChargePointState::default();
    let mut all = BatteryCalls { block_battery_for_duration_called: false, unblock_battery_called: false };
    for status in statuses {
        let calls = evaluate(&mut charge_point_state, *status);
        all.block_battery_for_duration_called |= calls.block_battery_for_duration_called;
        all.unblock_battery_called |= calls.unblock_battery_called;
    }
    all
}

#[test]
fn integration_test_charging_status_notification() {
    let calls = run_notifications(&[ChargePointStatus::Available, ChargePointStatus::Charging]);
    assert!(calls.block_battery_for_duration_called);
}

#[test]
fn available_status_notification() {
    let calls = run_notifications(&[ChargePointStatus::Available]);
    assert!(!calls.block_battery_for_duration_called);
    assert!(!calls.unblock_battery_called);
}

#[test]
fn suspendedev_status_notification() {
    let calls = run_notifications(&[
        ChargePointStatus::Available,
        ChargePointStatus::Charging,
        ChargePointStatus::SuspendedEV,
    ]);
    assert!(calls.block_battery_for_duration_called);
    assert!(calls.unblock_battery_called);
}

#[test]
fn status_notification() {
    let mut charge_point_state = ChargePointState::default();
    let calls = evaluate(&mut charge_point_state, ChargePointStatus::Available);
    assert!(!calls.block_battery_for_duration_called);
    assert_eq!(charge_point_state.get_charge_point_status(), &Some(ChargePointStatus::Available));
    match answer_request(ChargePointRequest::StatusNotification, &vec![], &String::new(), 60, &mut charge_point_state) {
        Ok(CentralSystemResponse::Empty(t)) => assert_eq!(t, MessageTypeName::StatusNotification),
        other => panic!("unexpected {:?}", other),
    }
}
