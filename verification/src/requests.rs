//! Requests ready to be queued for the charge point, each with a fresh uuid.
use vstd::prelude::*;

use crate::builders::{
    is_uuid_v4_text, ChangeConfigurationBuilder, ClearChargingProfileBuilder, MessageBuilder,
    SetChargingProfileBuilder, TriggerMessageBuilder,
};
use crate::charge_point_state::{RequestToSend, RequestToSendView};
use crate::messages::{
    ChangeConfigurationRequestView, ChargingProfile, ChargingProfileView,
    ClearChargingProfileRequest, OcppRequest, OcppRequestView, SetChargingProfileRequestView,
    TriggerMessageRequest,
};
use crate::ocpp_types::{CustomError, MessageTypeName};
use crate::types::{ChargingProfilePurposeType, MessageTrigger};

verus! {

/// Whether `r` is a request with action `t`, payload `p` and a fresh uuid.
pub open spec fn is_request(r: RequestToSendView, t: MessageTypeName, p: OcppRequestView) -> bool {
    &&& is_uuid_v4_text(r.uuid)
    &&& r.message_type == t
    &&& r.payload == p
}

/// Payload asking the charge point to send `t`.
pub open spec fn trigger_payload(t: MessageTrigger) -> OcppRequestView {
    OcppRequestView::TriggerMessage(TriggerMessageRequest { requested_message: t, connector_id: None })
}

/// Payload setting configuration `key` to `value`.
pub open spec fn change_configuration_payload(key: Seq<char>, value: Seq<char>) -> OcppRequestView {
    OcppRequestView::ChangeConfiguration(ChangeConfigurationRequestView { key, value })
}

/// Payload clearing the charging profiles that match the criteria.
pub open spec fn clear_payload(
    id: Option<i32>,
    connector_id: Option<i32>,
    purpose: Option<ChargingProfilePurposeType>,
    stack_level: Option<i32>,
) -> OcppRequestView {
    OcppRequestView::ClearChargingProfile(
        ClearChargingProfileRequest {
            id,
            connector_id,
            charging_profile_purpose: purpose,
            stack_level,
        },
    )
}

/// Payload installing `profile` on connector `connector_id`.
pub open spec fn set_profile_payload(connector_id: i32, profile: ChargingProfileView) -> OcppRequestView {
    OcppRequestView::SetChargingProfile(
        SetChargingProfileRequestView { connector_id, cs_charging_profiles: profile },
    )
}

/// A TriggerMessage request for `trigger`.
pub fn trigger_message_request(trigger: MessageTrigger) -> (r: Result<RequestToSend, CustomError>)
    ensures
        r matches Ok(q) && is_request(q@, MessageTypeName::TriggerMessage, trigger_payload(trigger)),
{
    let builder = TriggerMessageBuilder::new(trigger, None).build();
    let message_type = builder.get_message_type_name();
    match builder.serialize() {
        Ok((uuid, request)) => Ok(
            RequestToSend { uuid, message_type, payload: OcppRequest::TriggerMessage(request) },
        ),
        Err(e) => Err(e),
    }
}

/// A ChangeConfiguration request setting `key` to `value`.
pub fn change_configuration_request(key: String, value: String) -> (r: Result<
    RequestToSend,
    CustomError,
>)
    ensures
        r matches Ok(q) && is_request(
            q@,
            MessageTypeName::ChangeConfiguration,
            change_configuration_payload(key@, value@),
        ),
{
    let builder = ChangeConfigurationBuilder::new(key, value).build();
    let message_type = builder.get_message_type_name();
    match builder.serialize() {
        Ok((uuid, request)) => Ok(
            RequestToSend {
                uuid,
                message_type,
                payload: OcppRequest::ChangeConfiguration(request),
            },
        ),
        Err(e) => Err(e),
    }
}

/// A ClearChargingProfile request for the profiles that match the criteria.
pub fn clear_charging_profile_request(
    id: Option<i32>,
    connector_id: Option<i32>,
    purpose: Option<ChargingProfilePurposeType>,
    stack_level: Option<i32>,
) -> (r: Result<RequestToSend, CustomError>)
    ensures
        r matches Ok(q) && is_request(
            q@,
            MessageTypeName::ClearChargingProfile,
            clear_payload(id, connector_id, purpose, stack_level),
        ),
{
    let builder = ClearChargingProfileBuilder::new(id, connector_id, purpose, stack_level).build();
    let message_type = builder.get_message_type_name();
    match builder.serialize() {
        Ok((uuid, request)) => Ok(
            RequestToSend {
                uuid,
                message_type,
                payload: OcppRequest::ClearChargingProfile(request),
            },
        ),
        Err(e) => Err(e),
    }
}

/// A ClearChargingProfile request for every profile.
pub fn clear_all_charging_profiles_request() -> (r: Result<RequestToSend, CustomError>)
    ensures
        r matches Ok(q) && is_request(
            q@,
            MessageTypeName::ClearChargingProfile,
            clear_payload(None, None, None, None),
        ),
{
    let builder = ClearChargingProfileBuilder::default().build();
    let message_type = builder.get_message_type_name();
    match builder.serialize() {
        Ok((uuid, request)) => Ok(
            RequestToSend {
                uuid,
                message_type,
                payload: OcppRequest::ClearChargingProfile(request),
            },
        ),
        Err(e) => Err(e),
    }
}

/// A SetChargingProfile request installing `profile` on connector `connector_id`.
pub fn set_charging_profile_request(connector_id: i32, profile: ChargingProfile) -> (r: Result<
    RequestToSend,
    CustomError,
>)
    ensures
        r matches Ok(q) && is_request(
            q@,
            MessageTypeName::SetChargingProfile,
            set_profile_payload(connector_id, profile@),
        ),
{
    let ghost p = profile@;
    let builder = SetChargingProfileBuilder::new(connector_id, profile).build();
    let message_type = builder.get_message_type_name();
    match builder.serialize() {
        Ok((uuid, request)) => Ok(
            RequestToSend { uuid, message_type, payload: OcppRequest::SetChargingProfile(request) },
        ),
        Err(e) => Err(e),
    }
}

} // verus!
