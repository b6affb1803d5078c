//! Builders of the requests that the central system sends.
//!
//! A message builder collects the fields of a request; `build` fixes the
//! request and `serialize` pairs it with a fresh message uuid.
use vstd::prelude::*;

use crate::messages::{
    ChangeConfigurationRequest, ChangeConfigurationRequestView, ChargingProfile,
    ChargingProfileView, ChargingSchedule, ChargingSchedulePeriod, ClearChargingProfileRequest,
    RemoteStartTransactionRequest, RemoteStartTransactionRequestView,
    RemoteStopTransactionRequest, SetChargingProfileRequest, SetChargingProfileRequestView,
    TriggerMessageRequest,
};
use crate::ocpp_types::{CustomError, MessageTypeName};
use crate::types::{
    ChargingProfileKindType, ChargingProfilePurposeType, ChargingRateUnitType, MessageTrigger,
    RecurrencyKindType,
};

verus! {

/// The text of the error returned for a request that was never built.
pub open spec fn not_built_message() -> Seq<char> {
    ".build() has not been called!"@
}

/// Whether `e` is the error returned for a request that was never built.
pub open spec fn is_not_built_error(e: CustomError) -> bool {
    e matches CustomError::Common(m) && m@ == not_built_message()
}

fn not_built_error() -> (e: CustomError)
    ensures
        is_not_built_error(e),
{
    CustomError::Common(String::from_str(".build() has not been called!"))
}

/// Whether `c` is a lowercase hexadecimal digit.
pub open spec fn is_lower_hex_digit(c: char) -> bool {
    ('0' <= c && c <= '9') || ('a' <= c && c <= 'f')
}

/// Whether `u` is the hyphenated lowercase text of a random (version 4, RFC 4122 variant)
/// uuid: 36 characters, hyphens at 8, 13, 18 and 23, hexadecimal digits elsewhere, the
/// version digit `4` at 14 and one of `8`, `9`, `a`, `b` at 19.
pub open spec fn is_uuid_v4_text(u: Seq<char>) -> bool {
    &&& u.len() == 36
    &&& forall|i: int|
        0 <= i < 36 ==> if i == 8 || i == 13 || i == 18 || i == 23 {
            u[i] == '-'
        } else {
            is_lower_hex_digit(#[trigger] u[i])
        }
    &&& u[14] == '4'
    &&& (u[19] == '8' || u[19] == '9' || u[19] == 'a' || u[19] == 'b')
}

/// Generates the uuid that identifies an outgoing message: `uuid::Uuid::new_v4`, which sets
/// the version and variant bits on random bytes, rendered by its `Display` impl in the
/// hyphenated lowercase form. The random digits are not stated.
#[verifier::external_body]
fn new_message_uuid() -> (r: String)
    ensures
        is_uuid_v4_text(r@),
{
    uuid::Uuid::new_v4().to_string()
}

/// A builder of an OCPP request of payload type `U`.
pub trait MessageBuilder<U: View>: Sized {
    /// Whether `build` has fixed the request.
    spec fn is_built(&self) -> bool;

    /// The request fixed by `build`.
    spec fn built_request(&self) -> U::V;

    /// The action of the request.
    spec fn message_type_name_view(&self) -> MessageTypeName;

    /// Fixes the request from the collected fields.
    fn build(self) -> (r: Self)
        ensures
            r.is_built(),
            r.message_type_name_view() == self.message_type_name_view(),
    ;

    /// The action of the request.
    fn get_message_type_name(&self) -> (r: MessageTypeName)
        ensures
            r == self.message_type_name_view(),
    ;

    /// The request, or an error if it was never built.
    fn get_message_request(&self) -> (r: Result<U, CustomError>)
        ensures
            r is Ok <==> self.is_built(),
            r matches Ok(u) ==> u@ == self.built_request(),
            r matches Err(e) ==> is_not_built_error(e),
    ;

    /// The request together with a fresh message uuid, or an error if it was never built.
    fn serialize(self) -> (r: Result<(String, U), CustomError>)
        ensures
            r is Ok <==> self.is_built(),
            r matches Ok(p) ==> is_uuid_v4_text(p.0@) && p.1@ == self.built_request(),
            r matches Err(e) ==> is_not_built_error(e),
    {
        let uuid = new_message_uuid();
        match self.get_message_request() {
            Ok(request) => Ok((uuid, request)),
            Err(e) => Err(e),
        }
    }
}

//-------------------------------------------------------------------------------------------------
/// Builder of a ChangeConfiguration request.
pub struct ChangeConfigurationBuilder {
    key: String,
    value: String,
    message_type_name: MessageTypeName,
    change_configuration_request: Option<ChangeConfigurationRequest>,
}

impl ChangeConfigurationBuilder {
    /// The request that `build` will fix.
    pub closed spec fn pending_request(&self) -> ChangeConfigurationRequestView {
        ChangeConfigurationRequestView { key: self.key@, value: self.value@ }
    }

    /// A builder for setting `key` to `value`.
    pub fn new(key: String, value: String) -> (r: Self)
        ensures
            !r.is_built(),
            r.message_type_name_view() == MessageTypeName::ChangeConfiguration,
            r.pending_request() == (ChangeConfigurationRequestView { key: key@, value: value@ }),
    {
        Self {
            key,
            value,
            message_type_name: MessageTypeName::ChangeConfiguration,
            change_configuration_request: None,
        }
    }
}

impl MessageBuilder<ChangeConfigurationRequest> for ChangeConfigurationBuilder {
    closed spec fn is_built(&self) -> bool {
        self.change_configuration_request is Some
    }

    closed spec fn built_request(&self) -> ChangeConfigurationRequestView {
        self.change_configuration_request->Some_0@
    }

    closed spec fn message_type_name_view(&self) -> MessageTypeName {
        self.message_type_name
    }

    fn build(self) -> (r: Self)
        ensures
            r.built_request() == self.pending_request(),
            r.pending_request() == self.pending_request(),
    {
        let request = ChangeConfigurationRequest { key: self.key.clone(), value: self.value.clone() };
        Self { change_configuration_request: Some(request), ..self }
    }

    fn get_message_type_name(&self) -> (r: MessageTypeName) {
        self.message_type_name
    }

    fn get_message_request(&self) -> (r: Result<ChangeConfigurationRequest, CustomError>) {
        match &self.change_configuration_request {
            Some(request) => Ok(request.copy_of()),
            None => Err(not_built_error()),
        }
    }
}

//-------------------------------------------------------------------------------------------------
/// Builder of a ClearChargingProfile request.
pub struct ClearChargingProfileBuilder {
    id: Option<i32>,
    connector_id: Option<i32>,
    charging_profile_purpose: Option<ChargingProfilePurposeType>,
    stack_level: Option<i32>,
    message_type_name: MessageTypeName,
    clear_charging_profile_request: Option<ClearChargingProfileRequest>,
}

impl ClearChargingProfileBuilder {
    /// The request that `build` will fix.
    pub closed spec fn pending_request(&self) -> ClearChargingProfileRequest {
        ClearChargingProfileRequest {
            id: self.id,
            connector_id: self.connector_id,
            charging_profile_purpose: self.charging_profile_purpose,
            stack_level: self.stack_level,
        }
    }

    /// A builder that clears every charging profile.
    pub fn default() -> (r: Self)
        ensures
            !r.is_built(),
            r.message_type_name_view() == MessageTypeName::ClearChargingProfile,
            r.pending_request() == (ClearChargingProfileRequest {
                id: None,
                connector_id: None,
                charging_profile_purpose: None,
                stack_level: None,
            }),
    {
        Self {
            id: None,
            connector_id: None,
            charging_profile_purpose: None,
            stack_level: None,
            message_type_name: MessageTypeName::ClearChargingProfile,
            clear_charging_profile_request: None,
        }
    }

    /// A builder that clears the charging profiles matching the given criteria.
    pub fn new(
        id: Option<i32>,
        connector_id: Option<i32>,
        charging_profile_purpose: Option<ChargingProfilePurposeType>,
        stack_level: Option<i32>,
    ) -> (r: Self)
        ensures
            !r.is_built(),
            r.message_type_name_view() == MessageTypeName::ClearChargingProfile,
            r.pending_request() == (ClearChargingProfileRequest {
                id,
                connector_id,
                charging_profile_purpose,
                stack_level,
            }),
    {
        Self {
            id,
            connector_id,
            charging_profile_purpose,
            stack_level,
            message_type_name: MessageTypeName::ClearChargingProfile,
            clear_charging_profile_request: None,
        }
    }
}

impl MessageBuilder<ClearChargingProfileRequest> for ClearChargingProfileBuilder {
    closed spec fn is_built(&self) -> bool {
        self.clear_charging_profile_request is Some
    }

    closed spec fn built_request(&self) -> ClearChargingProfileRequest {
        self.clear_charging_profile_request->Some_0
    }

    closed spec fn message_type_name_view(&self) -> MessageTypeName {
        self.message_type_name
    }

    fn build(self) -> (r: Self)
        ensures
            r.built_request() == self.pending_request(),
            r.pending_request() == self.pending_request(),
    {
        let request = ClearChargingProfileRequest {
            id: self.id,
            connector_id: self.connector_id,
            charging_profile_purpose: self.charging_profile_purpose,
            stack_level: self.stack_level,
        };
        Self { clear_charging_profile_request: Some(request), ..self }
    }

    fn get_message_type_name(&self) -> (r: MessageTypeName) {
        self.message_type_name
    }

    fn get_message_request(&self) -> (r: Result<ClearChargingProfileRequest, CustomError>) {
        match self.clear_charging_profile_request {
            Some(request) => Ok(request),
            None => Err(not_built_error()),
        }
    }
}

//-------------------------------------------------------------------------------------------------
/// Builder of a TriggerMessage request.
pub struct TriggerMessageBuilder {
    trigger_message: MessageTrigger,
    connector_id: Option<u32>,
    message_type_name: MessageTypeName,
    trigger_message_request: Option<TriggerMessageRequest>,
}

impl TriggerMessageBuilder {
    /// The request that `build` will fix.
    pub closed spec fn pending_request(&self) -> TriggerMessageRequest {
        TriggerMessageRequest {
            requested_message: self.trigger_message,
            connector_id: self.connector_id,
        }
    }

    /// A builder that asks the charge point to send `trigger_message`.
    pub fn new(trigger_message: MessageTrigger, connector_id: Option<u32>) -> (r: Self)
        ensures
            !r.is_built(),
            r.message_type_name_view() == MessageTypeName::TriggerMessage,
            r.pending_request() == (TriggerMessageRequest {
                requested_message: trigger_message,
                connector_id,
            }),
    {
        Self {
            trigger_message,
            connector_id,
            message_type_name: MessageTypeName::TriggerMessage,
            trigger_message_request: None,
        }
    }
}

impl MessageBuilder<TriggerMessageRequest> for TriggerMessageBuilder {
    closed spec fn is_built(&self) -> bool {
        self.trigger_message_request is Some
    }

    closed spec fn built_request(&self) -> TriggerMessageRequest {
        self.trigger_message_request->Some_0
    }

    closed spec fn message_type_name_view(&self) -> MessageTypeName {
        self.message_type_name
    }

    fn build(self) -> (r: Self)
        ensures
            r.built_request() == self.pending_request(),
            r.pending_request() == self.pending_request(),
    {
        let request = TriggerMessageRequest {
            requested_message: self.trigger_message,
            connector_id: self.connector_id,
        };
        Self { trigger_message_request: Some(request), ..self }
    }

    fn get_message_type_name(&self) -> (r: MessageTypeName) {
        self.message_type_name
    }

    fn get_message_request(&self) -> (r: Result<TriggerMessageRequest, CustomError>) {
        match self.trigger_message_request {
            Some(request) => Ok(request),
            None => Err(not_built_error()),
        }
    }
}

//-------------------------------------------------------------------------------------------------
/// Builder of a RemoteStopTransaction request; the request is fixed on creation.
pub struct RemoteStopTransactionBuilder {
    message_type_name: MessageTypeName,
    remote_stop_transaction_request: Option<RemoteStopTransactionRequest>,
}

impl RemoteStopTransactionBuilder {
    #[verifier::type_invariant]
    spec fn request_is_fixed(&self) -> bool {
        self.remote_stop_transaction_request is Some
    }

    /// A builder that stops the transaction `transaction_id`.
    pub fn new(transaction_id: i32) -> (r: Self)
        ensures
            r.is_built(),
            r.message_type_name_view() == MessageTypeName::RemoteStopTransaction,
            r.built_request() == (RemoteStopTransactionRequest { transaction_id }),
    {
        Self {
            message_type_name: MessageTypeName::RemoteStopTransaction,
            remote_stop_transaction_request: Some(RemoteStopTransactionRequest { transaction_id }),
        }
    }
}

impl MessageBuilder<RemoteStopTransactionRequest> for RemoteStopTransactionBuilder {
    closed spec fn is_built(&self) -> bool {
        self.remote_stop_transaction_request is Some
    }

    closed spec fn built_request(&self) -> RemoteStopTransactionRequest {
        self.remote_stop_transaction_request->Some_0
    }

    closed spec fn message_type_name_view(&self) -> MessageTypeName {
        self.message_type_name
    }

    fn build(self) -> (r: Self)
        ensures
            r.built_request() == self.built_request(),
    {
        proof {
            use_type_invariant(&self);
        }
        self
    }

    fn get_message_type_name(&self) -> (r: MessageTypeName) {
        self.message_type_name
    }

    fn get_message_request(&self) -> (r: Result<RemoteStopTransactionRequest, CustomError>) {
        match self.remote_stop_transaction_request {
            Some(request) => Ok(request),
            None => Err(not_built_error()),
        }
    }
}

//-------------------------------------------------------------------------------------------------
/// Builder of a SetChargingProfile request.
pub struct SetChargingProfileBuilder {
    connector_id: i32,
    charging_profile: ChargingProfile,
    message_type_name: MessageTypeName,
    set_charging_profile_request: Option<SetChargingProfileRequest>,
}

impl SetChargingProfileBuilder {
    /// The request that `build` will fix.
    pub closed spec fn pending_request(&self) -> SetChargingProfileRequestView {
        SetChargingProfileRequestView {
            connector_id: self.connector_id,
            cs_charging_profiles: self.charging_profile@,
        }
    }

    /// A builder that installs `charging_profile` on connector `connector_id`.
    pub fn new(connector_id: i32, charging_profile: ChargingProfile) -> (r: Self)
        ensures
            !r.is_built(),
            r.message_type_name_view() == MessageTypeName::SetChargingProfile,
            r.pending_request() == (SetChargingProfileRequestView {
                connector_id,
                cs_charging_profiles: charging_profile@,
            }),
    {
        Self {
            connector_id,
            charging_profile,
            message_type_name: MessageTypeName::SetChargingProfile,
            set_charging_profile_request: None,
        }
    }
}

impl MessageBuilder<SetChargingProfileRequest> for SetChargingProfileBuilder {
    closed spec fn is_built(&self) -> bool {
        self.set_charging_profile_request is Some
    }

    closed spec fn built_request(&self) -> SetChargingProfileRequestView {
        self.set_charging_profile_request->Some_0@
    }

    closed spec fn message_type_name_view(&self) -> MessageTypeName {
        self.message_type_name
    }

    fn build(self) -> (r: Self)
        ensures
            r.built_request() == self.pending_request(),
            r.pending_request() == self.pending_request(),
    {
        let request = SetChargingProfileRequest {
            connector_id: self.connector_id,
            cs_charging_profiles: self.charging_profile.copy_of(),
        };
        Self { set_charging_profile_request: Some(request), ..self }
    }

    fn get_message_type_name(&self) -> (r: MessageTypeName) {
        self.message_type_name
    }

    fn get_message_request(&self) -> (r: Result<SetChargingProfileRequest, CustomError>) {
        match &self.set_charging_profile_request {
            Some(request) => Ok(request.copy_of()),
            None => Err(not_built_error()),
        }
    }
}

//-------------------------------------------------------------------------------------------------
/// Builder of a RemoteStartTransaction request.
pub struct RemoteStartTransactionBuilder {
    connector_id: u32,
    id_tag: String,
    charging_profile: Option<ChargingProfile>,
    message_type_name: MessageTypeName,
    remote_start_transaction_request: Option<RemoteStartTransactionRequest>,
}

impl RemoteStartTransactionBuilder {
    /// The request that `build` will fix.
    pub closed spec fn pending_request(&self) -> RemoteStartTransactionRequestView {
        RemoteStartTransactionRequestView {
            connector_id: Some(self.connector_id),
            id_tag: self.id_tag@,
            charging_profile: match self.charging_profile {
                Some(p) => Some(p@),
                None => None,
            },
        }
    }

    /// A builder that starts a transaction for `id_tag` on connector `connector_id`.
    pub fn new(connector_id: u32, id_tag: &str) -> (r: Self)
        ensures
            !r.is_built(),
            r.message_type_name_view() == MessageTypeName::RemoteStartTransaction,
            r.pending_request() == (RemoteStartTransactionRequestView {
                connector_id: Some(connector_id),
                id_tag: id_tag@,
                charging_profile: None,
            }),
    {
        Self {
            connector_id,
            id_tag: String::from_str(id_tag),
            charging_profile: None,
            message_type_name: MessageTypeName::RemoteStartTransaction,
            remote_start_transaction_request: None,
        }
    }

    /// Attaches a charging profile to the request.
    pub fn set_charging_profile(self, charging_profile: ChargingProfile) -> (r: Self)
        ensures
            r.is_built() == self.is_built(),
            r.is_built() ==> r.built_request() == self.built_request(),
            r.message_type_name_view() == self.message_type_name_view(),
            r.pending_request() == (RemoteStartTransactionRequestView {
                charging_profile: Some(charging_profile@),
                ..self.pending_request()
            }),
    {
        Self { charging_profile: Some(charging_profile), ..self }
    }
}

impl MessageBuilder<RemoteStartTransactionRequest> for RemoteStartTransactionBuilder {
    closed spec fn is_built(&self) -> bool {
        self.remote_start_transaction_request is Some
    }

    closed spec fn built_request(&self) -> RemoteStartTransactionRequestView {
        self.remote_start_transaction_request->Some_0@
    }

    closed spec fn message_type_name_view(&self) -> MessageTypeName {
        self.message_type_name
    }

    fn build(self) -> (r: Self)
        ensures
            r.built_request() == self.pending_request(),
            r.pending_request() == self.pending_request(),
    {
        let charging_profile = match &self.charging_profile {
            Some(p) => Some(p.copy_of()),
            None => None,
        };
        let request = RemoteStartTransactionRequest {
            connector_id: Some(self.connector_id),
            id_tag: self.id_tag.clone(),
            charging_profile,
        };
        Self { remote_start_transaction_request: Some(request), ..self }
    }

    fn get_message_type_name(&self) -> (r: MessageTypeName) {
        self.message_type_name
    }

    fn get_message_request(&self) -> (r: Result<RemoteStartTransactionRequest, CustomError>) {
        match &self.remote_start_transaction_request {
            Some(request) => Ok(request.copy_of()),
            None => Err(not_built_error()),
        }
    }
}

//-------------------------------------------------------------------------------------------------
/// Builder of a charging profile.
pub struct ChargingProfileBuilder {
    charging_profile: ChargingProfile,
}

impl ChargingProfileBuilder {
    /// The profile built so far.
    pub closed spec fn profile(&self) -> ChargingProfileView {
        self.charging_profile@
    }

    /// A profile with an empty schedule, stack level 0 and no optional field set.
    pub fn new(
        charging_profile_id: i32,
        charging_profile_purpose: ChargingProfilePurposeType,
        charging_profile_kind: ChargingProfileKindType,
        charging_rate_unit: ChargingRateUnitType,
    ) -> (r: Self)
        ensures
            r.profile().charging_profile_id == charging_profile_id,
            r.profile().transaction_id is None,
            r.profile().stack_level == 0,
            r.profile().charging_profile_purpose == charging_profile_purpose,
            r.profile().charging_profile_kind == charging_profile_kind,
            r.profile().recurrency_kind is None,
            r.profile().valid_from is None,
            r.profile().valid_to is None,
            r.profile().charging_schedule.duration is None,
            r.profile().charging_schedule.start_schedule is None,
            r.profile().charging_schedule.charging_rate_unit == charging_rate_unit,
            r.profile().charging_schedule.charging_schedule_period == Seq::<
                ChargingSchedulePeriod,
            >::empty(),
            r.profile().charging_schedule.min_charging_rate is None,
    {
        Self {
            charging_profile: ChargingProfile {
                charging_profile_id,
                transaction_id: None,
                stack_level: 0,
                charging_profile_purpose,
                charging_profile_kind,
                recurrency_kind: None,
                valid_from: None,
                valid_to: None,
                charging_schedule: ChargingSchedule {
                    duration: None,
                    start_schedule: None,
                    charging_rate_unit,
                    charging_schedule_period: Vec::new(),
                    min_charging_rate: None,
                },
            },
        }
    }

    /// Sets the transaction the profile applies to.
    pub fn set_transaction_id(self, transaction_id: i32) -> (r: Self)
        ensures
            r.profile() == (ChargingProfileView {
                transaction_id: Some(transaction_id),
                ..self.profile()
            }),
    {
        let mut s = self;
        s.charging_profile.transaction_id = Some(transaction_id);
        s
    }

    /// Sets the stack level of the profile.
    pub fn set_stack_level(self, stack_level: u32) -> (r: Self)
        ensures
            r.profile() == (ChargingProfileView { stack_level, ..self.profile() }),
    {
        let mut s = self;
        s.charging_profile.stack_level = stack_level;
        s
    }

    /// Sets the recurrence of the profile.
    pub fn set_recurrency_kind(self, recurrency_kind: RecurrencyKindType) -> (r: Self)
        ensures
            r.profile() == (ChargingProfileView {
                recurrency_kind: Some(recurrency_kind),
                ..self.profile()
            }),
    {
        let mut s = self;
        s.charging_profile.recurrency_kind = Some(recurrency_kind);
        s
    }

    /// Sets the start of validity (nanoseconds since the Unix epoch).
    pub fn set_valid_from(self, valid_from: i128) -> (r: Self)
        ensures
            r.profile() == (ChargingProfileView { valid_from: Some(valid_from), ..self.profile() }),
    {
        let mut s = self;
        s.charging_profile.valid_from = Some(valid_from);
        s
    }

    /// Sets the end of validity (nanoseconds since the Unix epoch).
    pub fn set_valid_to(self, valid_to: i128) -> (r: Self)
        ensures
            r.profile() == (ChargingProfileView { valid_to: Some(valid_to), ..self.profile() }),
    {
        let mut s = self;
        s.charging_profile.valid_to = Some(valid_to);
        s
    }

    /// Sets the duration of the schedule in seconds.
    pub fn set_charging_schedule_duration(self, duration: i32) -> (r: Self)
        ensures
            r.profile() == (ChargingProfileView {
                charging_schedule: crate::messages::ChargingScheduleView {
                    duration: Some(duration),
                    ..self.profile().charging_schedule
                },
                ..self.profile()
            }),
    {
        let mut s = self;
        s.charging_profile.charging_schedule.duration = Some(duration);
        s
    }

    /// Sets the start of the schedule (nanoseconds since the Unix epoch).
    pub fn set_start_schedule_timestamp(self, start_timestamp: i128) -> (r: Self)
        ensures
            r.profile() == (ChargingProfileView {
                charging_schedule: crate::messages::ChargingScheduleView {
                    start_schedule: Some(start_timestamp),
                    ..self.profile().charging_schedule
                },
                ..self.profile()
            }),
    {
        let mut s = self;
        s.charging_profile.charging_schedule.start_schedule = Some(start_timestamp);
        s
    }

    /// Sets the minimum charging rate (tenths of the charging rate unit).
    pub fn set_schedule_min_charging_rate(self, min_charging_rate: i64) -> (r: Self)
        ensures
            r.profile() == (ChargingProfileView {
                charging_schedule: crate::messages::ChargingScheduleView {
                    min_charging_rate: Some(min_charging_rate),
                    ..self.profile().charging_schedule
                },
                ..self.profile()
            }),
    {
        let mut s = self;
        s.charging_profile.charging_schedule.min_charging_rate = Some(min_charging_rate);
        s
    }

    /// Appends a period to the schedule.
    pub fn add_charging_schedule_period(
        self,
        start_period: i32,
        limit: i64,
        number_phases: Option<i32>,
    ) -> (r: Self)
        ensures
            r.profile() == (ChargingProfileView {
                charging_schedule: crate::messages::ChargingScheduleView {
                    charging_schedule_period: self.profile().charging_schedule.charging_schedule_period.push(
                        ChargingSchedulePeriod { start_period, limit, number_phases },
                    ),
                    ..self.profile().charging_schedule
                },
                ..self.profile()
            }),
    {
        let mut s = self;
        s.charging_profile.charging_schedule.charging_schedule_period.push(
            ChargingSchedulePeriod { start_period, limit, number_phases },
        );
        s
    }

    /// The profile.
    pub fn get(self) -> (r: ChargingProfile)
        ensures
            r@ == self.profile(),
    {
        self.charging_profile
    }
}

} // verus!
