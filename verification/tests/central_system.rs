use ocpp_central::central_system::{
    answer_request, charge_point_error, complete_response, dispatch_message, is_handled_request_action,
    get_boot_message_request, lookup_response_request, queue_initial_configuration,
    setup_initial_configuration, CentralSystemResponse, ChargePointRequest,
};
use ocpp_central::charge_point_state::ChargePointState;
use ocpp_central::messages::{
    ChangeConfigurationRequest, ChargingSchedulePeriod, ClearChargingProfileRequest,
    OcppRequest, TriggerMessageRequest,
};
use ocpp_central::ocpp_types::{serialze_ocpp_response, CustomError, MessageTypeName};
use ocpp_central::types::{
    AuthorizationStatus, ChargingProfilePurposeType, ConfigSetting, IdTag, MessageTrigger,
    RegistrationStatus, SmartChargingMode,
};

fn settings() -> Vec<ConfigSetting> {
    vec![ConfigSetting { key: "MeterValueSampleInterval".to_owned(), value: "60".to_owned() }]
}

fn trigger(requested_message: MessageTrigger) -> OcppRequest {
    OcppRequest::TriggerMessage(TriggerMessageRequest { requested_message, connector_id: None })
}

fn clear_all() -> OcppRequest {
    OcppRequest::ClearChargingProfile(ClearChargingProfileRequest {
        id: None,
        connector_id: None,
        charging_profile_purpose: None,
        stack_level: None,
    })
}

#[test]
fn initial_configuration_requests() {
    let requests = setup_initial_configuration(&settings(), 160).unwrap();
    assert_eq!(requests.len(), 5);
    assert_eq!(requests[0].message_type, MessageTypeName::TriggerMessage);
    assert_eq!(requests[0].payload, trigger(MessageTrigger::MeterValues));
    assert_eq!(requests[1].message_type, MessageTypeName::ChangeConfiguration);
    assert_eq!(
        requests[1].payload,
        OcppRequest::ChangeConfiguration(ChangeConfigurationRequest {
            key: "MeterValueSampleInterval".to_owned(),
            value: "60".to_owned(),
        })
    );
    assert_eq!(requests[2].message_type, MessageTypeName::SetChargingProfile);
    match &requests[2].payload {
        OcppRequest::SetChargingProfile(p) => {
            assert_eq!(p.connector_id, 0);
            assert_eq!(p.cs_charging_profiles.charging_profile_id, 3);
            assert_eq!(
                p.cs_charging_profiles.charging_profile_purpose,
                ChargingProfilePurposeType::ChargePointMaxProfile
            );
            assert_eq!(
                p.cs_charging_profiles.charging_schedule.charging_schedule_period,
                vec![ChargingSchedulePeriod { start_period: 0, limit: 160, number_phases: None }]
            );
        }
        other => panic!("unexpected payload {:?}", other),
    }
    assert_eq!(requests[3].message_type, MessageTypeName::ClearChargingProfile);
    assert_eq!(requests[3].payload, clear_all());
    assert_eq!(requests[4].message_type, MessageTypeName::TriggerMessage);
    assert_eq!(requests[4].payload, trigger(MessageTrigger::StatusNotification));
    for r in &requests {
        assert_eq!(r.uuid.len(), 36);
        let chars: Vec<char> = r.uuid.chars().collect();
        for (i, c) in chars.iter().enumerate() {
            if i == 8 || i == 13 || i == 18 || i == 23 {
                assert_eq!(*c, '-');
            } else {
                assert!(c.is_ascii_hexdigit() && !c.is_ascii_uppercase());
            }
        }
        assert_eq!(chars[14], '4');
        assert!(['8', '9', 'a', 'b'].contains(&chars[19]));
    }
    assert_ne!(requests[0].uuid, requests[4].uuid);
}

#[test]
fn queued_configuration_follows_queue() {
    let mut charge_point_state = ChargePointState::default();
    queue_initial_configuration(&mut charge_point_state, &settings()).unwrap();
    let requests = charge_point_state.get_requests_to_send();
    assert_eq!(requests.len(), 3);
    assert_eq!(requests[0].payload, trigger(MessageTrigger::MeterValues));
    assert_eq!(requests[1].message_type, MessageTypeName::ChangeConfiguration);
    assert_eq!(requests[2].payload, clear_all());
}

#[test]
fn boot_notification_request_awaits_response() {
    let mut charge_point_state = ChargePointState::default();
    let request = get_boot_message_request(&mut charge_point_state).unwrap();
    assert_eq!(request.message_type, MessageTypeName::TriggerMessage);
    assert_eq!(request.payload, trigger(MessageTrigger::BootNotification));
    assert!(charge_point_state.waiting_for_response());
    assert_eq!(
        lookup_response_request(&charge_point_state, &request.uuid).unwrap(),
        MessageTypeName::TriggerMessage
    );
}

#[test]
fn one_request_in_flight_at_a_time() {
    let initial = setup_initial_configuration(&settings(), 160).unwrap();
    let last_uuid = initial[4].uuid.clone();
    let mut charge_point_state = ChargePointState::with_initial_requests(initial);
    let boot = get_boot_message_request(&mut charge_point_state).unwrap();

    // Nothing goes out while the boot trigger awaits its response.
    assert!(charge_point_state.take_pending_message().is_none());

    // The response releases the last queued request.
    let next = complete_response(&mut charge_point_state, &boot.uuid, MessageTypeName::TriggerMessage)
        .unwrap();
    assert_eq!(next.uuid, last_uuid);
    assert_eq!(next.payload, trigger(MessageTrigger::StatusNotification));
    assert_eq!(charge_point_state.get_requests_to_send().len(), 4);
    assert_eq!(charge_point_state.get_requests_awaiting_confirmation().len(), 1);
    assert!(charge_point_state.take_pending_message().is_none());
}

#[test]
fn response_to_unknown_request_fails() {
    let charge_point_state = ChargePointState::default();
    match lookup_response_request(&charge_point_state, &"1367122111".to_owned()) {
        Err(CustomError::Common(m)) => assert_eq!(m, "Could not find request with uuid 1367122111"),
        other => panic!("unexpected result {:?}", other),
    }
}

#[test]
fn dispatch_sends_answer_then_pending_request() {
    let mut charge_point_state =
        ChargePointState::with_initial_requests(setup_initial_configuration(&vec![], 160).unwrap());
    let (answer, pending) =
        dispatch_message(Ok("[3,\"1\",{}]".to_owned()), &mut charge_point_state);
    assert_eq!(answer, Some("[3,\"1\",{}]".to_owned()));
    assert_eq!(pending.unwrap().payload, trigger(MessageTrigger::StatusNotification));

    let (answer, pending) = dispatch_message(Ok(String::new()), &mut charge_point_state);
    assert_eq!(answer, None);
    assert!(pending.is_none());

    let (answer, pending) = dispatch_message(
        Err(CustomError::Common("broken".to_owned())),
        &mut charge_point_state,
    );
    assert_eq!(answer, None);
    assert!(pending.is_none());
}

#[test]
fn error_frame_becomes_error() {
    let e = charge_point_error(
        &"PropertyConstraintViolation".to_owned(),
        &"".to_owned(),
        &"{}".to_owned(),
    );
    match e {
        CustomError::Common(m) => {
            assert_eq!(m, "Received error from ChargePoint: PropertyConstraintViolation  {}")
        }
        other => panic!("unexpected error {:?}", other),
    }
}

fn answer(request: ChargePointRequest, state: &mut ChargePointState) -> Result<CentralSystemResponse, CustomError> {
    let tags = vec![IdTag { id: "VALID_ID_TAG".to_owned(), smart_charging_mode: SmartChargingMode::Instant }];
    answer_request(request, &tags, &"SERIAL".to_owned(), 60, state)
}

#[test]
fn requests_are_answered() {
    let mut state = ChargePointState::default();
    match answer(ChargePointRequest::Authorize { id_tag: "1".to_owned() }, &mut state) {
        Ok(CentralSystemResponse::Authorize(a)) => assert_eq!(a.id_tag_info.status, AuthorizationStatus::Blocked),
        other => panic!("unexpected {:?}", other),
    }
    match answer(ChargePointRequest::BootNotification { charge_point_serial_number: Some("SERIAL".to_owned()) }, &mut state) {
        Ok(CentralSystemResponse::BootNotification(b)) => {
            assert_eq!(b.interval, 60);
            assert_eq!(b.status, RegistrationStatus::Accepted);
        }
        other => panic!("unexpected {:?}", other),
    }
    assert!(answer(ChargePointRequest::BootNotification { charge_point_serial_number: None }, &mut state).is_err());
    match answer(ChargePointRequest::Heartbeat, &mut state) {
        Ok(CentralSystemResponse::Heartbeat) => {}
        other => panic!("unexpected {:?}", other),
    }
    match answer(ChargePointRequest::StatusNotification, &mut state) {
        Ok(CentralSystemResponse::Empty(t)) => assert_eq!(t, MessageTypeName::StatusNotification),
        other => panic!("unexpected {:?}", other),
    }
    match answer(ChargePointRequest::StartTransaction { id_tag: "VALID_ID_TAG".to_owned(), meter_start: 7 }, &mut state) {
        Ok(CentralSystemResponse::StartTransaction(a)) => {
            assert_eq!(a.id_tag_info.status, AuthorizationStatus::Accepted);
            assert_eq!(a.transaction_id, 1);
        }
        other => panic!("unexpected {:?}", other),
    }
    match answer(ChargePointRequest::StopTransaction { transaction_id: 1, meter_stop: 9 }, &mut state) {
        Ok(CentralSystemResponse::StopTransaction(a)) => {
            assert_eq!(a.id_tag_info.unwrap().status, AuthorizationStatus::Accepted)
        }
        other => panic!("unexpected {:?}", other),
    }
    assert!(state.get_running_transaction_ids().is_empty());
}

fn assert_empty_answer(request: ChargePointRequest, action: MessageTypeName) {
    let mut state = ChargePointState::default();
    match answer(request, &mut state) {
        Ok(CentralSystemResponse::Empty(t)) => assert_eq!(t, action),
        other => panic!("unexpected {:?}", other),
    }
}

#[test]
fn firmware_status_notification() {
    assert_empty_answer(ChargePointRequest::FirmwareStatusNotification, MessageTypeName::FirmwareStatusNotification);
}

#[test]
fn log_status_request() {
    assert_empty_answer(ChargePointRequest::LogStatusNotification, MessageTypeName::LogStatusNotification);
}

#[test]
fn security_event_notification_request() {
    assert_empty_answer(ChargePointRequest::SecurityEventNotification, MessageTypeName::SecurityEventNotification);
}

/// Answers each request that the central system sends after the connection is set up with
/// `Accepted`, checking the order in which they come, and returns the state afterwards.
fn validate_initial_messages(config_parameters: &Vec<ConfigSetting>) -> ChargePointState {
    let initial = setup_initial_configuration(config_parameters, 160).unwrap();
    let mut state = ChargePointState::with_initial_requests(initial);
    let mut next = Some(get_boot_message_request(&mut state).unwrap());
    let mut seen: Vec<OcppRequest> = Vec::new();
    while let Some(request) = next {
        seen.push(request.payload.clone());
        let message_type = lookup_response_request(&state, &request.uuid).unwrap();
        assert_eq!(message_type, request.message_type);
        next = complete_response(&mut state, &request.uuid, message_type);
    }
    let expected_count = 5 + config_parameters.len();
    assert_eq!(seen.len(), expected_count);
    assert_eq!(seen[0], trigger(MessageTrigger::BootNotification));
    assert_eq!(seen[1], trigger(MessageTrigger::StatusNotification));
    assert_eq!(seen[2], clear_all());
    match &seen[3] {
        OcppRequest::SetChargingProfile(p) => {
            assert_eq!(p.connector_id, 0);
            assert_eq!(p.cs_charging_profiles.charging_profile_id, 3);
            assert_eq!(
                p.cs_charging_profiles.charging_schedule.charging_schedule_period,
                vec![ChargingSchedulePeriod { start_period: 0, limit: 160, number_phases: None }]
            );
        }
        other => panic!("unexpected payload {:?}", other),
    }
    assert_eq!(seen[expected_count - 1], trigger(MessageTrigger::MeterValues));
    assert!(state.get_requests_to_send().is_empty());
    assert!(!state.waiting_for_response());
    state
}

#[test]
fn integration_test_boot_notification() {
    validate_initial_messages(&vec![]);
}

#[test]
fn initial_messages_with_config_parameters() {
    let state = validate_initial_messages(&settings());
    assert!(state.get_requests_awaiting_confirmation().is_empty());
}

#[test]
fn heartbeat() {
    let mut state = validate_initial_messages(&vec![]);
    match answer(ChargePointRequest::Heartbeat, &mut state) {
        Ok(CentralSystemResponse::Heartbeat) => {}
        other => panic!("unexpected {:?}", other),
    }
    let frame = serialze_ocpp_response(&"12345".to_owned(), &"{}".to_owned());
    assert!(frame.starts_with("[3,\"12345\","));
}

#[test]
fn central_system_actions_are_not_handled_as_requests() {
    use_handled_actions();
}

fn use_handled_actions() {
    for t in [
        MessageTypeName::RemoteStartTransaction,
        MessageTypeName::RemoteStopTransaction,
        MessageTypeName::TriggerMessage,
        MessageTypeName::SetChargingProfile,
        MessageTypeName::GetDiagnostics,
        MessageTypeName::ChangeConfiguration,
        MessageTypeName::ClearChargingProfile,
    ] {
        assert!(!is_handled_request_action(t));
    }
    for t in [MessageTypeName::Authorize, MessageTypeName::Heartbeat, MessageTypeName::SignedFirmwareStatusNotification] {
        assert!(is_handled_request_action(t));
    }
}
