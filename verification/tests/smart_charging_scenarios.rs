//! Whole charging sessions, driven through the library as the central system drives it: the
//! charge point answers every request with `Accepted`, and the currents that the central
//! system computes from the measured values are given as the integers it arrives at.
use ocpp_central::central_system::{
    answer_request, complete_response, get_boot_message_request, lookup_response_request,
    setup_initial_configuration, CentralSystemResponse, ChargePointRequest,
};
use ocpp_central::charge_point_state::{ChargePointState, RequestToSend};
use ocpp_central::hooks::{
    apply_status_notification, build_grid_based_smart_charging_tx_profile,
    evaluate_authorization, evaluate_meter_values, evaluate_status_notification,
    get_updated_max_charging_current, needs_cheapest_period, ChargingPeriod, PvChargingCurrent,
    StatusNotificationStep, TransitionAction,
};
use ocpp_central::messages::{
    ChargingSchedulePeriod, ClearChargingProfileRequest, OcppRequest, SetChargingProfileRequest,
};
use ocpp_central::ocpp_types::MessageTypeName;
use ocpp_central::types::{
    AuthorizationStatus, ChargePointStatus, ChargingProfileKindType, ChargingProfilePurposeType,
    ChargingRateUnitType, ConfigSetting, IdTag, SmartChargingMode,
};

/// The time at which the test takes its bearings, in nanoseconds since the Unix epoch.
const NOW: i128 = 1_769_630_400_000_000_000;
/// The time at which the central system handles the messages, a little later.
const HANDLED_AT: i128 = NOW + 40_000_000;
const HOUR_MS: i64 = 3_600_000;
/// 16 A, what the defaults give before any value was measured.
const DEFAULT_LIMIT: i64 = 160;

struct Session {
    state: ChargePointState,
    tags: Vec<IdTag>,
    block_battery_for_duration_called: bool,
    unblock_battery_called: bool,
}

impl Session {
    /// A session after the initial requests were sent and accepted.
    fn new(id: &str, mode: SmartChargingMode, config_parameters: &Vec<ConfigSetting>) -> Session {
        let initial = setup_initial_configuration(config_parameters, DEFAULT_LIMIT).unwrap();
        let mut state = ChargePointState::with_initial_requests(initial);
        let boot = get_boot_message_request(&mut state).unwrap();
        let mut session = Session {
            state,
            tags: vec![IdTag { id: id.to_owned(), smart_charging_mode: mode }],
            block_battery_for_duration_called: false,
            unblock_battery_called: false,
        };
        let mut sent = vec![boot];
        sent.extend(session.accept(sent[0].clone()));
        assert_eq!(sent.len(), 5 + config_parameters.len());
        assert!(!session.state.waiting_for_response());
        session
    }

    /// Accepts `request` and every request handed out after it; those requests.
    fn accept(&mut self, request: RequestToSend) -> Vec<RequestToSend> {
        let mut out = Vec::new();
        let mut next = Some(request);
        let mut first = true;
        while let Some(r) = next {
            let t = lookup_response_request(&self.state, &r.uuid).unwrap();
            next = complete_response(&mut self.state, &r.uuid, t);
            if !first {
                out.push(r);
            }
            first = false;
        }
        out
    }

    /// The requests that go out now, each accepted.
    fn sent_requests(&mut self) -> Vec<RequestToSend> {
        match self.state.take_pending_message() {
            Some(r) => {
                let mut out = vec![r.clone()];
                out.extend(self.accept(r));
                out
            }
            None => vec![],
        }
    }

    fn status_notification(&mut self, status: ChargePointStatus) {
        let step = evaluate_status_notification(&self.state, status);
        match step {
            StatusNotificationStep::Transition(TransitionAction::BlockBattery) => {
                self.block_battery_for_duration_called = true
            }
            StatusNotificationStep::Transition(TransitionAction::UnblockBattery)
            | StatusNotificationStep::Transition(TransitionAction::UnblockBatteryAndClearProfiles) => {
                self.unblock_battery_called = true
            }
            _ => {}
        }
        apply_status_notification(&mut self.state, status, step).unwrap();
        self.answer(ChargePointRequest::StatusNotification);
    }

    /// Installs or updates the grid based profile with the limit `max_current`.
    fn grid_profile(&mut self, max_current: i64, period: ChargingPeriod) {
        let cheapest = if needs_cheapest_period(&self.state) { Some(period) } else { None };
        build_grid_based_smart_charging_tx_profile(&mut self.state, max_current, cheapest, HANDLED_AT)
            .unwrap();
    }

    /// An Authorize request; `max_current` is the limit that the central system computes.
    fn authorize(&mut self, id: &str, max_current: i64, period: ChargingPeriod) {
        let mode = evaluate_authorization(&mut self.state, &self.tags, &id.to_owned(), HANDLED_AT)
            .unwrap();
        if mode == SmartChargingMode::PVOverProductionAndGridBased {
            if let Some(m) = get_updated_max_charging_current(&mut self.state, max_current) {
                self.grid_profile(m, period);
            }
        }
        match self.answer(ChargePointRequest::Authorize { id_tag: id.to_owned() }) {
            CentralSystemResponse::Authorize(a) => assert_eq!(a.id_tag_info.status, AuthorizationStatus::Accepted),
            other => panic!("unexpected {:?}", other),
        }
    }

    /// A MeterValues request, with the limit and the PV current that the central system
    /// computes from its values.
    fn meter_values(&mut self, max_current: i64, pv: PvChargingCurrent, period: ChargingPeriod) {
        let updated = get_updated_max_charging_current(&mut self.state, max_current);
        if let Some(grid_current) = evaluate_meter_values(&mut self.state, updated, pv).unwrap() {
            self.grid_profile(grid_current, period);
        }
        match self.answer(ChargePointRequest::MeterValues) {
            CentralSystemResponse::Empty(t) => assert_eq!(t, MessageTypeName::MeterValues),
            other => panic!("unexpected {:?}", other),
        }
    }

    fn start_transaction(&mut self, id: &str) {
        match self.answer(ChargePointRequest::StartTransaction { id_tag: id.to_owned(), meter_start: 0 }) {
            CentralSystemResponse::StartTransaction(a) => {
                assert_eq!(a.id_tag_info.status, AuthorizationStatus::Accepted);
                assert_eq!(a.transaction_id, 1);
            }
            other => panic!("unexpected {:?}", other),
        }
    }

    fn stop_transaction(&mut self) {
        match self.answer(ChargePointRequest::StopTransaction { transaction_id: 1, meter_stop: 253580 }) {
            CentralSystemResponse::StopTransaction(a) => {
                assert_eq!(a.id_tag_info.unwrap().status, AuthorizationStatus::Accepted)
            }
            other => panic!("unexpected {:?}", other),
        }
    }

    fn answer(&mut self, request: ChargePointRequest) -> CentralSystemResponse {
        answer_request(request, &self.tags, &String::new(), 60, &mut self.state).unwrap()
    }
}

fn cheapest_period() -> ChargingPeriod {
    let now_ms = (NOW / 1_000_000) as i64;
    ChargingPeriod { start_timestamp: now_ms + HOUR_MS, end_timestamp: now_ms + 5 * HOUR_MS }
}

fn sample_interval() -> Vec<ConfigSetting> {
    vec![ConfigSetting { key: "MeterValueSampleInterval".to_owned(), value: "60".to_owned() }]
}

fn set_profile(request: &RequestToSend) -> &SetChargingProfileRequest {
    assert_eq!(request.message_type, MessageTypeName::SetChargingProfile);
    match &request.payload {
        OcppRequest::SetChargingProfile(p) => p,
        other => panic!("not a SetChargingProfile payload: {:?}", other),
    }
}

fn validate_grid_based_profile(request: &RequestToSend, period: ChargingPeriod, limit: i64) {
    let p = &set_profile(request).cs_charging_profiles;
    assert_eq!(p.charging_profile_id, 2);
    assert_eq!(p.charging_profile_purpose, ChargingProfilePurposeType::TxProfile);
    assert_eq!(p.charging_profile_kind, ChargingProfileKindType::Absolute);
    assert!((p.valid_from.unwrap() - NOW).abs() <= 100_000_000);
    assert_eq!(p.valid_to.unwrap() / 1_000_000, period.end_timestamp as i128);
    assert!((p.charging_schedule.duration.unwrap() as i64 - 5 * 3600).abs() <= 1);
    assert!((p.charging_schedule.start_schedule.unwrap() - NOW).abs() <= 100_000_000);
    assert_eq!(p.charging_schedule.charging_rate_unit, ChargingRateUnitType::A);
    let start_in_seconds = (period.start_timestamp as i128 * 1_000_000 - NOW) / 1_000_000_000;
    assert_eq!(
        p.charging_schedule.charging_schedule_period,
        vec![
            ChargingSchedulePeriod { start_period: 0, limit: 0, number_phases: None },
            ChargingSchedulePeriod { start_period: (start_in_seconds - 1) as i32, limit, number_phases: None },
        ]
    );
}

fn validate_pv_preparation_profile(request: &RequestToSend) {
    let p = &set_profile(request).cs_charging_profiles;
    assert_eq!(p.charging_profile_id, 4);
    assert_eq!(p.charging_profile_purpose, ChargingProfilePurposeType::TxProfile);
    assert_eq!(p.charging_profile_kind, ChargingProfileKindType::Absolute);
    assert!((p.valid_from.unwrap() - NOW).abs() <= 100_000_000);
    assert!((p.charging_schedule.start_schedule.unwrap() - NOW).abs() <= 100_000_000);
    assert_eq!(p.charging_schedule.charging_rate_unit, ChargingRateUnitType::A);
    assert_eq!(
        p.charging_schedule.charging_schedule_period,
        vec![ChargingSchedulePeriod { start_period: 0, limit: 0, number_phases: None }]
    );
}

fn validate_pv_based_profile(request: &RequestToSend, limit: i64) {
    let p = &set_profile(request).cs_charging_profiles;
    assert_eq!(p.charging_profile_id, 5);
    assert_eq!(p.stack_level, 1);
    assert_eq!(p.charging_profile_purpose, ChargingProfilePurposeType::TxProfile);
    assert_eq!(p.charging_profile_kind, ChargingProfileKindType::Relative);
    assert!(p.valid_from.is_none());
    assert!(p.valid_to.is_none());
    assert!(p.charging_schedule.duration.is_none());
    assert!(p.charging_schedule.start_schedule.is_none());
    assert_eq!(p.charging_schedule.charging_rate_unit, ChargingRateUnitType::A);
    assert_eq!(
        p.charging_schedule.charging_schedule_period,
        vec![ChargingSchedulePeriod { start_period: 0, limit, number_phases: None }]
    );
}

fn validate_clear(request: &RequestToSend, id: i32, stack_level: i32) {
    assert_eq!(request.message_type, MessageTypeName::ClearChargingProfile);
    assert_eq!(
        request.payload,
        OcppRequest::ClearChargingProfile(ClearChargingProfileRequest {
            id: Some(id),
            connector_id: Some(1),
            charging_profile_purpose: Some(ChargingProfilePurposeType::TxProfile),
            stack_level: Some(stack_level),
        })
    );
}

#[test]
fn grid_based_smart_charging() {
    let id = "GRID_BASED_SMART_CHARGING";
    let mut session = Session::new(id, SmartChargingMode::PVOverProductionAndGridBased, &vec![]);
    let period = cheapest_period();

    session.status_notification(ChargePointStatus::Available);
    session.authorize(id, DEFAULT_LIMIT, period);
    let sent = session.sent_requests();
    assert_eq!(sent.len(), 1);
    validate_grid_based_profile(&sent[0], period, 160);
    session.start_transaction(id);

    session.status_notification(ChargePointStatus::Charging);
    assert!(session.block_battery_for_duration_called);

    // 180 V on each phase, 11 kW and 5 A offered: the limit drops to the minimum of 6 A; the
    // sample interval is not configured, so no PV current is known.
    session.meter_values(60, PvChargingCurrent::Unavailable, period);
    let sent = session.sent_requests();
    assert_eq!(sent.len(), 1);
    validate_grid_based_profile(&sent[0], period, 60);
    session.stop_transaction();

    session.status_notification(ChargePointStatus::Available);
    let sent = session.sent_requests();
    validate_clear(&sent[0], 2, 0);
    assert!(session.unblock_battery_called);
}

#[test]
fn grid_based_smart_charging_with_pv_overproduction() {
    let id = "GRID_BASED_SMART_CHARGING";
    let mut session =
        Session::new(id, SmartChargingMode::PVOverProductionAndGridBased, &sample_interval());
    let period = cheapest_period();

    session.status_notification(ChargePointStatus::Available);
    session.authorize(id, DEFAULT_LIMIT, period);
    let sent = session.sent_requests();
    assert_eq!(sent.len(), 1);
    validate_grid_based_profile(&sent[0], period, 160);
    session.start_transaction(id);
    session.status_notification(ChargePointStatus::Charging);
    assert!(session.block_battery_for_duration_called);

    // 14 kW of PV against a load of 11.3 kW, 3.7 kW drawn on each phase: 19 A possible,
    // clamped to 16 A; the limit from the measured values stays at 16 A.
    session.meter_values(160, PvChargingCurrent::Limit(160), period);
    let sent = session.sent_requests();
    assert_eq!(sent.len(), 1);
    validate_pv_based_profile(&sent[0], 160);

    // 1 kW of PV: 1 A possible, below the minimum, so the PV profile is cleared.
    session.meter_values(160, PvChargingCurrent::NotAboveMinimum, period);
    let sent = session.sent_requests();
    assert_eq!(sent.len(), 1);
    validate_clear(&sent[0], 5, 1);

    session.stop_transaction();
    session.status_notification(ChargePointStatus::Available);
    assert!(session.unblock_battery_called);
}

#[test]
fn pv_smart_charging_with_pv_overproduction() {
    let id = "PV_SMART_CHARGING";
    let mut session = Session::new(id, SmartChargingMode::PVOverProduction, &sample_interval());
    let period = cheapest_period();

    session.status_notification(ChargePointStatus::Available);
    session.authorize(id, DEFAULT_LIMIT, period);
    let sent = session.sent_requests();
    assert_eq!(sent.len(), 1);
    validate_pv_preparation_profile(&sent[0]);
    session.start_transaction(id);
    session.status_notification(ChargePointStatus::Charging);
    assert!(session.block_battery_for_duration_called);

    session.meter_values(160, PvChargingCurrent::Limit(160), period);
    let sent = session.sent_requests();
    assert_eq!(sent.len(), 1);
    validate_pv_based_profile(&sent[0], 160);

    session.meter_values(160, PvChargingCurrent::NotAboveMinimum, period);
    let sent = session.sent_requests();
    assert_eq!(sent.len(), 1);
    validate_clear(&sent[0], 5, 1);

    session.stop_transaction();
    session.status_notification(ChargePointStatus::Available);
    assert!(session.unblock_battery_called);
}

#[test]
fn repeated_pv_smart_charging_with_pv_overproduction() {
    let id = "PV_SMART_CHARGING";
    let mut session = Session::new(id, SmartChargingMode::PVOverProduction, &sample_interval());
    let period = cheapest_period();

    session.status_notification(ChargePointStatus::Available);
    session.authorize(id, DEFAULT_LIMIT, period);
    validate_pv_preparation_profile(&session.sent_requests()[0]);
    session.start_transaction(id);
    session.status_notification(ChargePointStatus::Charging);
    assert!(session.block_battery_for_duration_called);

    // A window of five minutes: the PV current is known from the fifth meter values on.
    for _ in 0..4 {
        session.meter_values(160, PvChargingCurrent::Unavailable, period);
        assert!(session.sent_requests().is_empty());
    }
    session.meter_values(160, PvChargingCurrent::Limit(160), period);
    let sent = session.sent_requests();
    assert_eq!(sent.len(), 1);
    validate_pv_based_profile(&sent[0], 160);

    session.stop_transaction();
    session.status_notification(ChargePointStatus::Available);
    let sent = session.sent_requests();
    validate_clear(&sent[0], 5, 1);
    assert!(session.unblock_battery_called);

    // Another transaction: no power until enough values were measured again.
    session.authorize(id, DEFAULT_LIMIT, period);
    validate_pv_preparation_profile(&session.sent_requests()[0]);
    session.start_transaction(id);
    session.meter_values(160, PvChargingCurrent::Unavailable, period);
    assert!(session.sent_requests().is_empty());
    session.stop_transaction();
    session.status_notification(ChargePointStatus::Available);
}
