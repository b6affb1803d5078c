//! Payloads of the requests that the central system sends to the charge point.
//!
//! Limits of charging schedules are kept in tenths of the charging rate
//! unit (`160` is 16.0 A) and points in time in nanoseconds since the Unix
//! epoch.
use vstd::prelude::*;

use crate::types::{
    ChargingProfileKindType, ChargingProfilePurposeType, ChargingRateUnitType, MessageTrigger,
    RecurrencyKindType,
};

verus! {

/// One period of a charging schedule.
#[derive(Clone, Copy, Debug, PartialEq, Eq, Structural)]
pub struct ChargingSchedulePeriod {
    /// Start of the period in seconds from the start of the schedule.
    pub start_period: i32,
    /// Limit in tenths of the charging rate unit.
    pub limit: i64,
    pub number_phases: Option<i32>,
}

/// A charging schedule.
#[derive(Clone, Debug, PartialEq, Eq)]
pub struct ChargingSchedule {
    /// Duration in seconds.
    pub duration: Option<i32>,
    /// Start of the schedule in nanoseconds since the Unix epoch.
    pub start_schedule: Option<i128>,
    pub charging_rate_unit: ChargingRateUnitType,
    pub charging_schedule_period: Vec<ChargingSchedulePeriod>,
    /// Minimum charging rate in tenths of the charging rate unit.
    pub min_charging_rate: Option<i64>,
}

/// A charging profile.
#[derive(Clone, Debug, PartialEq, Eq)]
pub struct ChargingProfile {
    pub charging_profile_id: i32,
    pub transaction_id: Option<i32>,
    pub stack_level: u32,
    pub charging_profile_purpose: ChargingProfilePurposeType,
    pub charging_profile_kind: ChargingProfileKindType,
    pub recurrency_kind: Option<RecurrencyKindType>,
    /// Nanoseconds since the Unix epoch.
    pub valid_from: Option<i128>,
    /// Nanoseconds since the Unix epoch.
    pub valid_to: Option<i128>,
    pub charging_schedule: ChargingSchedule,
}

/// Copies the periods of a schedule.
pub fn copy_periods(v: &Vec<ChargingSchedulePeriod>) -> (r: Vec<ChargingSchedulePeriod>)
    ensures
        r@ == v@,
{
    let mut r: Vec<ChargingSchedulePeriod> = Vec::new();
    let mut i: usize = 0;
    while i < v.len()
        invariant
            i <= v@.len(),
            r@ =~= v@.subrange(0, i as int),
        decreases v.len() - i,
    {
        r.push(v[i]);
        i = i + 1;
    }
    assert(r@ =~= v@);
    r
}

/// Mathematical value of a [`ChargingSchedule`].
pub struct ChargingScheduleView {
    pub duration: Option<i32>,
    pub start_schedule: Option<i128>,
    pub charging_rate_unit: ChargingRateUnitType,
    pub charging_schedule_period: Seq<ChargingSchedulePeriod>,
    pub min_charging_rate: Option<i64>,
}

impl View for ChargingSchedule {
    type V = ChargingScheduleView;

    open spec fn view(&self) -> ChargingScheduleView {
        ChargingScheduleView {
            duration: self.duration,
            start_schedule: self.start_schedule,
            charging_rate_unit: self.charging_rate_unit,
            charging_schedule_period: self.charging_schedule_period@,
            min_charging_rate: self.min_charging_rate,
        }
    }
}

/// Mathematical value of a [`ChargingProfile`].
pub struct ChargingProfileView {
    pub charging_profile_id: i32,
    pub transaction_id: Option<i32>,
    pub stack_level: u32,
    pub charging_profile_purpose: ChargingProfilePurposeType,
    pub charging_profile_kind: ChargingProfileKindType,
    pub recurrency_kind: Option<RecurrencyKindType>,
    pub valid_from: Option<i128>,
    pub valid_to: Option<i128>,
    pub charging_schedule: ChargingScheduleView,
}

impl View for ChargingProfile {
    type V = ChargingProfileView;

    open spec fn view(&self) -> ChargingProfileView {
        ChargingProfileView {
            charging_profile_id: self.charging_profile_id,
            transaction_id: self.transaction_id,
            stack_level: self.stack_level,
            charging_profile_purpose: self.charging_profile_purpose,
            charging_profile_kind: self.charging_profile_kind,
            recurrency_kind: self.recurrency_kind,
            valid_from: self.valid_from,
            valid_to: self.valid_to,
            charging_schedule: self.charging_schedule@,
        }
    }
}

impl ChargingSchedule {
    /// A copy of the schedule.
    pub fn copy_of(&self) -> (r: Self)
        ensures
            r@ == self@,
    {
        ChargingSchedule {
            duration: self.duration,
            start_schedule: self.start_schedule,
            charging_rate_unit: self.charging_rate_unit,
            charging_schedule_period: copy_periods(&self.charging_schedule_period),
            min_charging_rate: self.min_charging_rate,
        }
    }
}

impl ChargingProfile {
    /// A copy of the profile.
    pub fn copy_of(&self) -> (r: Self)
        ensures
            r@ == self@,
    {
        ChargingProfile {
            charging_profile_id: self.charging_profile_id,
            transaction_id: self.transaction_id,
            stack_level: self.stack_level,
            charging_profile_purpose: self.charging_profile_purpose,
            charging_profile_kind: self.charging_profile_kind,
            recurrency_kind: self.recurrency_kind,
            valid_from: self.valid_from,
            valid_to: self.valid_to,
            charging_schedule: self.charging_schedule.copy_of(),
        }
    }
}

/// Payload of a TriggerMessage request.
#[derive(Clone, Copy, Debug, PartialEq, Eq, Structural)]
pub struct TriggerMessageRequest {
    pub requested_message: MessageTrigger,
    pub connector_id: Option<u32>,
}

/// Payload of a ChangeConfiguration request.
#[derive(Clone, Debug, PartialEq, Eq)]
pub struct ChangeConfigurationRequest {
    pub key: String,
    pub value: String,
}

/// Payload of a ClearChargingProfile request.
#[derive(Clone, Copy, Debug, PartialEq, Eq, Structural)]
pub struct ClearChargingProfileRequest {
    pub id: Option<i32>,
    pub connector_id: Option<i32>,
    pub charging_profile_purpose: Option<ChargingProfilePurposeType>,
    pub stack_level: Option<i32>,
}

/// Payload of a SetChargingProfile request.
#[derive(Clone, Debug, PartialEq, Eq)]
pub struct SetChargingProfileRequest {
    pub connector_id: i32,
    pub cs_charging_profiles: ChargingProfile,
}

/// Payload of a RemoteStartTransaction request.
#[derive(Clone, Debug, PartialEq, Eq)]
pub struct RemoteStartTransactionRequest {
    pub connector_id: Option<u32>,
    pub id_tag: String,
    pub charging_profile: Option<ChargingProfile>,
}

/// Payload of a RemoteStopTransaction request.
#[derive(Clone, Copy, Debug, PartialEq, Eq, Structural)]
pub struct RemoteStopTransactionRequest {
    pub transaction_id: i32,
}

impl View for TriggerMessageRequest {
    type V = TriggerMessageRequest;

    open spec fn view(&self) -> TriggerMessageRequest {
        *self
    }
}

impl View for ClearChargingProfileRequest {
    type V = ClearChargingProfileRequest;

    open spec fn view(&self) -> ClearChargingProfileRequest {
        *self
    }
}

impl View for RemoteStopTransactionRequest {
    type V = RemoteStopTransactionRequest;

    open spec fn view(&self) -> RemoteStopTransactionRequest {
        *self
    }
}

/// Mathematical value of a [`ChangeConfigurationRequest`].
pub struct ChangeConfigurationRequestView {
    pub key: Seq<char>,
    pub value: Seq<char>,
}

impl View for ChangeConfigurationRequest {
    type V = ChangeConfigurationRequestView;

    open spec fn view(&self) -> ChangeConfigurationRequestView {
        ChangeConfigurationRequestView { key: self.key@, value: self.value@ }
    }
}

/// Payload of any request that the central system sends.
#[derive(Clone, Debug, PartialEq, Eq)]
pub enum OcppRequest {
    TriggerMessage(TriggerMessageRequest),
    ChangeConfiguration(ChangeConfigurationRequest),
    ClearChargingProfile(ClearChargingProfileRequest),
    SetChargingProfile(SetChargingProfileRequest),
    RemoteStartTransaction(RemoteStartTransactionRequest),
    RemoteStopTransaction(RemoteStopTransactionRequest),
}

/// Mathematical value of a [`SetChargingProfileRequest`].
pub struct SetChargingProfileRequestView {
    pub connector_id: i32,
    pub cs_charging_profiles: ChargingProfileView,
}

impl View for SetChargingProfileRequest {
    type V = SetChargingProfileRequestView;

    open spec fn view(&self) -> SetChargingProfileRequestView {
        SetChargingProfileRequestView {
            connector_id: self.connector_id,
            cs_charging_profiles: self.cs_charging_profiles@,
        }
    }
}

/// Mathematical value of a [`RemoteStartTransactionRequest`].
pub struct RemoteStartTransactionRequestView {
    pub connector_id: Option<u32>,
    pub id_tag: Seq<char>,
    pub charging_profile: Option<ChargingProfileView>,
}

impl View for RemoteStartTransactionRequest {
    type V = RemoteStartTransactionRequestView;

    open spec fn view(&self) -> RemoteStartTransactionRequestView {
        RemoteStartTransactionRequestView {
            connector_id: self.connector_id,
            id_tag: self.id_tag@,
            charging_profile: match self.charging_profile {
                Some(p) => Some(p@),
                None => None,
            },
        }
    }
}

/// Mathematical value of an [`OcppRequest`].
pub enum OcppRequestView {
    TriggerMessage(TriggerMessageRequest),
    ChangeConfiguration(ChangeConfigurationRequestView),
    ClearChargingProfile(ClearChargingProfileRequest),
    SetChargingProfile(SetChargingProfileRequestView),
    RemoteStartTransaction(RemoteStartTransactionRequestView),
    RemoteStopTransaction(RemoteStopTransactionRequest),
}

impl View for OcppRequest {
    type V = OcppRequestView;

    open spec fn view(&self) -> OcppRequestView {
        match self {
            OcppRequest::TriggerMessage(r) => OcppRequestView::TriggerMessage(*r),
            OcppRequest::ChangeConfiguration(r) => OcppRequestView::ChangeConfiguration(r@),
            OcppRequest::ClearChargingProfile(r) => OcppRequestView::ClearChargingProfile(*r),
            OcppRequest::SetChargingProfile(r) => OcppRequestView::SetChargingProfile(r@),
            OcppRequest::RemoteStartTransaction(r) => OcppRequestView::RemoteStartTransaction(r@),
            OcppRequest::RemoteStopTransaction(r) => OcppRequestView::RemoteStopTransaction(*r),
        }
    }
}

impl ChangeConfigurationRequest {
    /// A copy of the request.
    pub fn copy_of(&self) -> (r: Self)
        ensures
            r@ == self@,
    {
        ChangeConfigurationRequest { key: self.key.clone(), value: self.value.clone() }
    }
}

impl SetChargingProfileRequest {
    /// A copy of the request.
    pub fn copy_of(&self) -> (r: Self)
        ensures
            r@ == self@,
    {
        SetChargingProfileRequest {
            connector_id: self.connector_id,
            cs_charging_profiles: self.cs_charging_profiles.copy_of(),
        }
    }
}

impl RemoteStartTransactionRequest {
    /// A copy of the request.
    pub fn copy_of(&self) -> (r: Self)
        ensures
            r@ == self@,
    {
        let charging_profile = match &self.charging_profile {
            Some(p) => Some(p.copy_of()),
            None => None,
        };
        RemoteStartTransactionRequest {
            connector_id: self.connector_id,
            id_tag: self.id_tag.clone(),
            charging_profile,
        }
    }
}

impl OcppRequest {
    /// A copy of the payload.
    pub fn copy_of(&self) -> (r: Self)
        ensures
            r@ == self@,
    {
        match self {
            OcppRequest::TriggerMessage(r) => OcppRequest::TriggerMessage(*r),
            OcppRequest::ChangeConfiguration(r) => OcppRequest::ChangeConfiguration(r.copy_of()),
            OcppRequest::ClearChargingProfile(r) => OcppRequest::ClearChargingProfile(*r),
            OcppRequest::SetChargingProfile(r) => OcppRequest::SetChargingProfile(r.copy_of()),
            OcppRequest::RemoteStartTransaction(r) => OcppRequest::RemoteStartTransaction(
                r.copy_of(),
            ),
            OcppRequest::RemoteStopTransaction(r) => OcppRequest::RemoteStopTransaction(*r),
        }
    }
}

} // verus!
