//! The request/response bookkeeping of the central system.
use vstd::prelude::*;
use vstd::string::*;

use crate::charge_point_state::{
    after_take_pending, first_with_uuid, taken_pending, without_uuid, ChargePointState,
    ChargePointStateView, RequestToSend, RequestToSendView,
};
use crate::messages::{
    ChargingProfileView, ChargingScheduleView, ChargingSchedulePeriod,
};
use crate::builders::ChargingProfileBuilder;
use crate::ocpp_types::{CustomError, MessageTypeName};
use crate::requests::{
    change_configuration_payload, change_configuration_request,
    clear_all_charging_profiles_request, clear_payload, is_request, set_charging_profile_request,
    set_profile_payload, trigger_message_request, trigger_payload,
};
use crate::handlers::{
    handle_authorize_request, handle_boot_notification_request, handle_data_transfer_request,
    handle_start_transaction_request, handle_stop_transaction_request, AuthorizeResponse,
    BootNotificationResponse, DataTransferResponse, IdTagInfo, StartTransactionResponse,
    StopTransactionResponse,
};
use crate::types::{
    has_tag, AuthorizationStatus, ChargingProfileKindType, ChargingProfilePurposeType,
    ChargingRateUnitType, ConfigSetting, DataTransferStatus, IdTag, MessageTrigger,
    RegistrationStatus,
};

verus! {

/// Asks the charge point for a BootNotification; the request is recorded as awaiting a
/// response.
pub fn get_boot_message_request(charge_point_state: &mut ChargePointState) -> (r: Result<
    RequestToSend,
    CustomError,
>)
    ensures
        r matches Ok(q) && is_request(
            q@,
            MessageTypeName::TriggerMessage,
            trigger_payload(MessageTrigger::BootNotification),
        ) && final(charge_point_state)@ == (ChargePointStateView {
            requests_awaiting_confirmation: old(
                charge_point_state,
            )@.requests_awaiting_confirmation.push(q@),
            ..old(charge_point_state)@
        }),
{
    let request_to_send = match trigger_message_request(MessageTrigger::BootNotification) {
        Ok(q) => q,
        Err(e) => return Err(e),
    };
    charge_point_state.add_request_awaiting_confirmation(request_to_send.copy_of());
    Ok(request_to_send)
}

/// The requests queued when a charge point connects, after the requests `q` of `before`:
/// a TriggerMessage for MeterValues, one ChangeConfiguration per setting, and a
/// ClearChargingProfile for every profile.
pub open spec fn queued_initial_configuration(
    q: Seq<RequestToSendView>,
    before: nat,
    settings: Seq<ConfigSetting>,
) -> bool {
    &&& q.len() == before + settings.len() + 2
    &&& is_request(
        q[before as int],
        MessageTypeName::TriggerMessage,
        trigger_payload(MessageTrigger::MeterValues),
    )
    &&& forall|i: int|
        0 <= i < settings.len() ==> is_request(
            #[trigger] q[before + 1 + i],
            MessageTypeName::ChangeConfiguration,
            change_configuration_payload(settings[i].key@, settings[i].value@),
        )
    &&& is_request(
        q[before + settings.len() + 1 as int],
        MessageTypeName::ClearChargingProfile,
        clear_payload(None, None, None, None),
    )
}

/// Queues the requests sent to a charge point when it connects (see
/// [`queued_initial_configuration`]).
pub fn queue_initial_configuration(
    charge_point_state: &mut ChargePointState,
    config_parameters: &Vec<ConfigSetting>,
) -> (r: Result<(), CustomError>)
    ensures
        r is Ok,
        final(charge_point_state)@.requests_to_send.subrange(
            0,
            old(charge_point_state)@.requests_to_send.len() as int,
        ) == old(charge_point_state)@.requests_to_send,
        queued_initial_configuration(
            final(charge_point_state)@.requests_to_send,
            old(charge_point_state)@.requests_to_send.len(),
            config_parameters@,
        ),
        final(charge_point_state)@ == (ChargePointStateView {
            requests_to_send: final(charge_point_state)@.requests_to_send,
            ..old(charge_point_state)@
        }),
{
    let ghost old_state = charge_point_state@;
    let ghost n0 = old_state.requests_to_send.len();
    let trigger = match trigger_message_request(MessageTrigger::MeterValues) {
        Ok(q) => q,
        Err(e) => return Err(e),
    };
    charge_point_state.add_request_to_send(trigger);
    let mut i: usize = 0;
    while i < config_parameters.len()
        invariant
            i <= config_parameters@.len(),
            charge_point_state@ == (ChargePointStateView {
                requests_to_send: charge_point_state@.requests_to_send,
                ..old_state
            }),
            charge_point_state@.requests_to_send.len() == n0 + 1 + i,
            charge_point_state@.requests_to_send.subrange(0, n0 as int)
                == old_state.requests_to_send,
            is_request(
                charge_point_state@.requests_to_send[n0 as int],
                MessageTypeName::TriggerMessage,
                trigger_payload(MessageTrigger::MeterValues),
            ),
            forall|j: int|
                0 <= j < i ==> is_request(
                    #[trigger] charge_point_state@.requests_to_send[n0 + 1 + j],
                    MessageTypeName::ChangeConfiguration,
                    change_configuration_payload(
                        config_parameters@[j].key@,
                        config_parameters@[j].value@,
                    ),
                ),
        decreases config_parameters.len() - i,
    {
        let setting = &config_parameters[i];
        let request = match change_configuration_request(
            setting.key.clone(),
            setting.value.clone(),
        ) {
            Ok(q) => q,
            Err(e) => return Err(e),
        };
        let ghost before = charge_point_state@.requests_to_send;
        charge_point_state.add_request_to_send(request);
        assert(charge_point_state@.requests_to_send.subrange(0, n0 as int) =~= before.subrange(
            0,
            n0 as int,
        ));
        i = i + 1;
    }
    let clear = match clear_all_charging_profiles_request() {
        Ok(q) => q,
        Err(e) => return Err(e),
    };
    let ghost before = charge_point_state@.requests_to_send;
    charge_point_state.add_request_to_send(clear);
    assert(charge_point_state@.requests_to_send.subrange(0, n0 as int) =~= before.subrange(
        0,
        n0 as int,
    ));
    Ok(())
}

/// The profile that caps the charging current of the whole charge point.
pub open spec fn charge_point_max_profile(default_current: i64) -> ChargingProfileView {
    ChargingProfileView {
        charging_profile_id: 3,
        transaction_id: None,
        stack_level: 0,
        charging_profile_purpose: ChargingProfilePurposeType::ChargePointMaxProfile,
        charging_profile_kind: ChargingProfileKindType::Absolute,
        recurrency_kind: None,
        valid_from: None,
        valid_to: None,
        charging_schedule: ChargingScheduleView {
            duration: None,
            start_schedule: None,
            charging_rate_unit: ChargingRateUnitType::A,
            charging_schedule_period: seq![
                ChargingSchedulePeriod { start_period: 0, limit: default_current, number_phases: None },
            ],
            min_charging_rate: None,
        },
    }
}

/// The requests that the central system queues before it accepts a charge point: a
/// TriggerMessage for MeterValues, one ChangeConfiguration per setting, a SetChargingProfile
/// capping the whole charge point (connector 0) at `default_current` (tenths of an
/// ampere), a ClearChargingProfile for every profile and a TriggerMessage for
/// StatusNotification.
pub fn setup_initial_configuration(
    config_parameters: &Vec<ConfigSetting>,
    default_current: i64,
) -> (r: Result<Vec<RequestToSend>, CustomError>)
    ensures
        r is Ok,
        r matches Ok(v) && ({
            let q = crate::charge_point_state::request_views(v@);
            let n = config_parameters@.len() as int;
            &&& q.len() == n + 4
            &&& is_request(
                q[0],
                MessageTypeName::TriggerMessage,
                trigger_payload(MessageTrigger::MeterValues),
            )
            &&& forall|i: int|
                0 <= i < n ==> is_request(
                    #[trigger] q[1 + i],
                    MessageTypeName::ChangeConfiguration,
                    change_configuration_payload(
                        config_parameters@[i].key@,
                        config_parameters@[i].value@,
                    ),
                )
            &&& is_request(
                q[n + 1 as int],
                MessageTypeName::SetChargingProfile,
                set_profile_payload(0, charge_point_max_profile(default_current)),
            )
            &&& is_request(
                q[n + 2 as int],
                MessageTypeName::ClearChargingProfile,
                clear_payload(None, None, None, None),
            )
            &&& is_request(
                q[n + 3 as int],
                MessageTypeName::TriggerMessage,
                trigger_payload(MessageTrigger::StatusNotification),
            )
        }),
{
    let mut state = ChargePointState::default();
    match queue_initial_configuration(&mut state, config_parameters) {
        Ok(()) => {},
        Err(e) => return Err(e),
    }
    let ghost after_queue = state@.requests_to_send;
    let n = config_parameters.len();
    let mut requests = state.into_requests_to_send();
    let clear = requests.pop();
    let profile = ChargingProfileBuilder::new(
        3,
        ChargingProfilePurposeType::ChargePointMaxProfile,
        ChargingProfileKindType::Absolute,
        ChargingRateUnitType::A,
    ).add_charging_schedule_period(0, default_current, None).get();
    proof {
        assert(profile@.charging_schedule.charging_schedule_period =~= seq![
            ChargingSchedulePeriod { start_period: 0, limit: default_current, number_phases: None },
        ]);
    }
    let set_profile = match set_charging_profile_request(0, profile) {
        Ok(q) => q,
        Err(e) => return Err(e),
    };
    let status = match trigger_message_request(MessageTrigger::StatusNotification) {
        Ok(q) => q,
        Err(e) => return Err(e),
    };
    let ghost prefix = crate::charge_point_state::request_views(requests@);
    requests.push(set_profile);
    match clear {
        Some(c) => requests.push(c),
        None => {},
    }
    requests.push(status);
    proof {
        let q = crate::charge_point_state::request_views(requests@);
        assert(prefix =~= after_queue.drop_last());
        assert(q.len() == n + 4);
        assert(q[0] == after_queue[0]);
        assert forall|i: int| 0 <= i < n implies #[trigger] q[1 + i] == after_queue[1 + i] by {}
        assert(q[n + 2] == after_queue[n + 1]);
    }
    Ok(requests)
}

/// The message of the error for a response to no awaited request.
pub open spec fn unknown_response_message(uuid: Seq<char>) -> Seq<char> {
    "Could not find request with uuid "@ + uuid
}

/// The action of the awaited request that a response with uuid `uuid` answers, or an error
/// when no request with that uuid awaits a response.
pub fn lookup_response_request(charge_point_state: &ChargePointState, uuid: &String) -> (r:
    Result<MessageTypeName, CustomError>)
    ensures
        first_with_uuid(charge_point_state@.requests_awaiting_confirmation, uuid@) is None ==> (
        r matches Err(CustomError::Common(m)) && m@ == unknown_response_message(uuid@)),
        first_with_uuid(charge_point_state@.requests_awaiting_confirmation, uuid@) matches Some(
            i,
        ) ==> r == Ok::<MessageTypeName, CustomError>(
            charge_point_state@.requests_awaiting_confirmation[i].message_type,
        ),
{
    match charge_point_state.find_awaiting_request(uuid) {
        Some(t) => Ok(t),
        None => {
            let mut m = String::from_str("Could not find request with uuid ");
            m.append(uuid.as_str());
            Err(CustomError::Common(m))
        },
    }
}

/// Whether a response to a request with action `t` ends the wait for it.
pub open spec fn response_confirms(t: MessageTypeName) -> bool {
    match t {
        MessageTypeName::TriggerMessage | MessageTypeName::SetChargingProfile
        | MessageTypeName::ClearChargingProfile | MessageTypeName::ChangeConfiguration
        | MessageTypeName::RemoteStartTransaction | MessageTypeName::RemoteStopTransaction
        | MessageTypeName::GetDiagnostics => true,
        _ => false,
    }
}

/// The state after a response with uuid `uuid` to a request with action `t` was handled.
pub open spec fn after_response(s: ChargePointStateView, uuid: Seq<char>, t: MessageTypeName) -> ChargePointStateView {
    if response_confirms(t) {
        ChargePointStateView {
            requests_awaiting_confirmation: without_uuid(s.requests_awaiting_confirmation, uuid),
            ..s
        }
    } else {
        s
    }
}

/// Ends the wait for the request that a response answers and hands out the next request to
/// send, if any.
pub fn complete_response(
    charge_point_state: &mut ChargePointState,
    uuid: &String,
    message_type: MessageTypeName,
) -> (r: Option<RequestToSend>)
    ensures
        final(charge_point_state)@ == after_take_pending(
            after_response(old(charge_point_state)@, uuid@, message_type),
        ),
        r is Some <==> taken_pending(
            after_response(old(charge_point_state)@, uuid@, message_type),
        ) is Some,
        r matches Some(m) ==> taken_pending(
            after_response(old(charge_point_state)@, uuid@, message_type),
        ) == Some(m@),
{
    let confirms = match message_type {
        MessageTypeName::TriggerMessage | MessageTypeName::SetChargingProfile
        | MessageTypeName::ClearChargingProfile | MessageTypeName::ChangeConfiguration
        | MessageTypeName::RemoteStartTransaction | MessageTypeName::RemoteStopTransaction
        | MessageTypeName::GetDiagnostics => true,
        _ => false,
    };
    if confirms {
        charge_point_state.confirm_request(uuid);
    }
    charge_point_state.take_pending_message()
}

/// The message of the error for an error frame of the charge point.
pub open spec fn charge_point_error_message(
    error_code: Seq<char>,
    error_description: Seq<char>,
    details: Seq<char>,
) -> Seq<char> {
    "Received error from ChargePoint: "@ + error_code + " "@ + error_description + " "@ + details
}

/// The error for an error frame of the charge point, with its code, description and
/// details (the details as JSON text).
pub fn charge_point_error(error_code: &String, error_description: &String, details: &String) -> (r:
    CustomError)
    ensures
        r matches CustomError::Common(m) && m@ == charge_point_error_message(
            error_code@,
            error_description@,
            details@,
        ),
{
    let mut m = String::from_str("Received error from ChargePoint: ");
    m.append(error_code.as_str());
    m.append(" ");
    m.append(error_description.as_str());
    m.append(" ");
    m.append(details.as_str());
    CustomError::Common(m)
}

/// What goes out after a text message of the charge point was processed: the answer, when
/// processing gave a non-empty one (a failure is only reported), then the next queued
/// request, when one may go out.
pub fn dispatch_message(
    processed: Result<String, CustomError>,
    charge_point_state: &mut ChargePointState,
) -> (r: (Option<String>, Option<RequestToSend>))
    ensures
        r.0 is Some <==> (processed matches Ok(text) && text@.len() > 0),
        r.0 matches Some(answer) ==> (processed matches Ok(text) && answer@ == text@),
        final(charge_point_state)@ == after_take_pending(old(charge_point_state)@),
        r.1 is Some <==> taken_pending(old(charge_point_state)@) is Some,
        r.1 matches Some(m) ==> taken_pending(old(charge_point_state)@) == Some(m@),
{
    let answer = match processed {
        Ok(text) => {
            if text.as_str().unicode_len() > 0 {
                Some(text)
            } else {
                None
            }
        },
        Err(_) => None,
    };
    let pending = charge_point_state.take_pending_message();
    (answer, pending)
}

/// Whether the charge point sends requests with action `t`: every action but those of the
/// requests that the central system itself sends (RemoteStartTransaction,
/// RemoteStopTransaction, TriggerMessage, SetChargingProfile, GetDiagnostics,
/// ChangeConfiguration, ClearChargingProfile).
pub open spec fn is_charge_point_action(t: MessageTypeName) -> bool {
    match t {
        MessageTypeName::RemoteStartTransaction | MessageTypeName::RemoteStopTransaction
        | MessageTypeName::TriggerMessage | MessageTypeName::SetChargingProfile
        | MessageTypeName::GetDiagnostics | MessageTypeName::ChangeConfiguration
        | MessageTypeName::ClearChargingProfile => false,
        _ => true,
    }
}

/// Whether a request of the charge point with action `t` is handled; a request with an
/// action of the central system's own requests is refused.
pub fn is_handled_request_action(t: MessageTypeName) -> (r: bool)
    ensures
        r == is_charge_point_action(t),
{
    match t {
        MessageTypeName::RemoteStartTransaction | MessageTypeName::RemoteStopTransaction
        | MessageTypeName::TriggerMessage | MessageTypeName::SetChargingProfile
        | MessageTypeName::GetDiagnostics | MessageTypeName::ChangeConfiguration
        | MessageTypeName::ClearChargingProfile => false,
        _ => true,
    }
}

/// A request of the charge point, with what the central system reads of it.
#[derive(Debug)]
pub enum ChargePointRequest {
    Authorize { id_tag: String },
    BootNotification { charge_point_serial_number: Option<String> },
    DataTransfer,
    DiagnosticsStatusNotification,
    FirmwareStatusNotification,
    Heartbeat,
    MeterValues,
    StartTransaction { id_tag: String, meter_start: i32 },
    StatusNotification,
    StopTransaction { transaction_id: i32, meter_stop: i32 },
    LogStatusNotification,
    SecurityEventNotification,
    SignedFirmwareStatusNotification,
}

/// The answer of the central system to a request of the charge point.
#[derive(Debug)]
pub enum CentralSystemResponse {
    Authorize(AuthorizeResponse),
    BootNotification(BootNotificationResponse),
    DataTransfer(DataTransferResponse),
    StartTransaction(StartTransactionResponse),
    StopTransaction(StopTransactionResponse),
    /// The answer to a Heartbeat, which carries the current time only.
    Heartbeat,
    /// The empty answer to a notification with the given action.
    Empty(MessageTypeName),
}

/// The status for an IdTag: accepted iff it is one of `tags`, else `otherwise`.
pub open spec fn tag_status(tags: Seq<IdTag>, id_tag: Seq<char>, otherwise: AuthorizationStatus) -> AuthorizationStatus {
    if has_tag(tags, id_tag) {
        AuthorizationStatus::Accepted
    } else {
        otherwise
    }
}

/// Answers a request of the charge point: Authorize with the status of the IdTag,
/// BootNotification as [`handle_boot_notification_request`] does, StartTransaction and
/// StopTransaction as their handlers do (they change the running transactions),
/// DataTransfer with a rejection, Heartbeat with the time, every notification with an
/// empty answer. Only StartTransaction and StopTransaction change the state.
pub fn answer_request(
    request: ChargePointRequest,
    authorized_id_tags: &Vec<IdTag>,
    serial_number: &String,
    heartbeat_interval: u32,
    charge_point_state: &mut ChargePointState,
) -> (r: Result<CentralSystemResponse, CustomError>)
    ensures
        match request {
            ChargePointRequest::StartTransaction { id_tag, meter_start } => r matches Ok(
                CentralSystemResponse::StartTransaction(a),
            ) && a.id_tag_info.status == tag_status(
                authorized_id_tags@,
                id_tag@,
                AuthorizationStatus::Invalid,
            ) && a.transaction_id == crate::handlers::next_transaction_id(
                old(charge_point_state)@.running_transactions.len(),
            ) && final(charge_point_state)@ == if has_tag(authorized_id_tags@, id_tag@) {
                ChargePointStateView {
                    running_transactions: old(charge_point_state)@.running_transactions.push(
                        crate::charge_point_state::Transaction {
                            id_tag: Some(id_tag),
                            transaction_id: a.transaction_id,
                            meter_value_start: meter_start,
                            meter_value_stop: 0,
                        },
                    ),
                    ..old(charge_point_state)@
                }
            } else {
                old(charge_point_state)@
            },
            ChargePointRequest::StopTransaction { transaction_id, meter_stop } => r matches Ok(
                CentralSystemResponse::StopTransaction(a),
            ) && a.id_tag_info == Some(
                IdTagInfo {
                    status: if crate::charge_point_state::first_with_transaction_id(
                        old(charge_point_state)@.running_transactions,
                        transaction_id,
                    ) is Some {
                        AuthorizationStatus::Accepted
                    } else {
                        AuthorizationStatus::Invalid
                    },
                },
            ) && final(charge_point_state)@ == (ChargePointStateView {
                running_transactions: crate::charge_point_state::stopped_transactions(
                    old(charge_point_state)@.running_transactions,
                    transaction_id,
                    meter_stop,
                ),
                ..old(charge_point_state)@
            }),
            _ => final(charge_point_state)@ == old(charge_point_state)@ && match request {
                ChargePointRequest::Authorize { id_tag } => r == Ok::<
                    CentralSystemResponse,
                    CustomError,
                >(
                    CentralSystemResponse::Authorize(
                        AuthorizeResponse {
                            id_tag_info: IdTagInfo {
                                status: tag_status(
                                    authorized_id_tags@,
                                    id_tag@,
                                    AuthorizationStatus::Blocked,
                                ),
                            },
                        },
                    ),
                ),
                ChargePointRequest::BootNotification { charge_point_serial_number } => match charge_point_serial_number {
                    None => r matches Err(CustomError::Common(m)) && m@
                        == crate::handlers::missing_serial_message(),
                    Some(serial) => if serial@ == serial_number@ {
                        r == Ok::<CentralSystemResponse, CustomError>(
                            CentralSystemResponse::BootNotification(
                                BootNotificationResponse {
                                    interval: heartbeat_interval,
                                    status: RegistrationStatus::Accepted,
                                },
                            ),
                        )
                    } else {
                        r matches Err(CustomError::Common(m)) && m@
                            == crate::handlers::unknown_serial_message(serial@)
                    },
                },
                ChargePointRequest::DataTransfer => r matches Ok(
                    CentralSystemResponse::DataTransfer(a),
                ) && a.status == DataTransferStatus::Rejected && a.data is None,
                ChargePointRequest::Heartbeat => r matches Ok(CentralSystemResponse::Heartbeat),
                ChargePointRequest::DiagnosticsStatusNotification => r == Ok::<
                    CentralSystemResponse,
                    CustomError,
                >(CentralSystemResponse::Empty(MessageTypeName::DiagnosticsStatusNotification)),
                ChargePointRequest::FirmwareStatusNotification => r == Ok::<
                    CentralSystemResponse,
                    CustomError,
                >(CentralSystemResponse::Empty(MessageTypeName::FirmwareStatusNotification)),
                ChargePointRequest::MeterValues => r == Ok::<CentralSystemResponse, CustomError>(
                    CentralSystemResponse::Empty(MessageTypeName::MeterValues),
                ),
                ChargePointRequest::StatusNotification => r == Ok::<
                    CentralSystemResponse,
                    CustomError,
                >(CentralSystemResponse::Empty(MessageTypeName::StatusNotification)),
                ChargePointRequest::LogStatusNotification => r == Ok::<
                    CentralSystemResponse,
                    CustomError,
                >(CentralSystemResponse::Empty(MessageTypeName::LogStatusNotification)),
                ChargePointRequest::SecurityEventNotification => r == Ok::<
                    CentralSystemResponse,
                    CustomError,
                >(CentralSystemResponse::Empty(MessageTypeName::SecurityEventNotification)),
                ChargePointRequest::SignedFirmwareStatusNotification => r == Ok::<
                    CentralSystemResponse,
                    CustomError,
                >(
                    CentralSystemResponse::Empty(
                        MessageTypeName::SignedFirmwareStatusNotification,
                    ),
                ),
                _ => true,
            },
        },
{
    match request {
        ChargePointRequest::Authorize { id_tag } => Ok(
            CentralSystemResponse::Authorize(handle_authorize_request(&id_tag, authorized_id_tags)),
        ),
        ChargePointRequest::BootNotification { charge_point_serial_number } => {
            match handle_boot_notification_request(
                &charge_point_serial_number,
                serial_number,
                heartbeat_interval,
            ) {
                Ok(a) => Ok(CentralSystemResponse::BootNotification(a)),
                Err(e) => Err(e),
            }
        },
        ChargePointRequest::DataTransfer => Ok(
            CentralSystemResponse::DataTransfer(handle_data_transfer_request()),
        ),
        ChargePointRequest::DiagnosticsStatusNotification => Ok(
            CentralSystemResponse::Empty(MessageTypeName::DiagnosticsStatusNotification),
        ),
        ChargePointRequest::FirmwareStatusNotification => Ok(
            CentralSystemResponse::Empty(MessageTypeName::FirmwareStatusNotification),
        ),
        ChargePointRequest::Heartbeat => Ok(CentralSystemResponse::Heartbeat),
        ChargePointRequest::MeterValues => Ok(
            CentralSystemResponse::Empty(MessageTypeName::MeterValues),
        ),
        ChargePointRequest::StartTransaction { id_tag, meter_start } => Ok(
            CentralSystemResponse::StartTransaction(
                handle_start_transaction_request(
                    &id_tag,
                    meter_start,
                    authorized_id_tags,
                    charge_point_state,
                ),
            ),
        ),
        ChargePointRequest::StatusNotification => Ok(
            CentralSystemResponse::Empty(MessageTypeName::StatusNotification),
        ),
        ChargePointRequest::StopTransaction { transaction_id, meter_stop } => Ok(
            CentralSystemResponse::StopTransaction(
                handle_stop_transaction_request(transaction_id, meter_stop, charge_point_state),
            ),
        ),
        ChargePointRequest::LogStatusNotification => Ok(
            CentralSystemResponse::Empty(MessageTypeName::LogStatusNotification),
        ),
        ChargePointRequest::SecurityEventNotification => Ok(
            CentralSystemResponse::Empty(MessageTypeName::SecurityEventNotification),
        ),
        ChargePointRequest::SignedFirmwareStatusNotification => Ok(
            CentralSystemResponse::Empty(MessageTypeName::SignedFirmwareStatusNotification),
        ),
    }
}

} // verus!
