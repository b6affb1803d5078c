//! Smart charging decisions taken when the charge point reports meter values, an
//! authorization or a status change.
//!
//! Currents are in tenths of an ampere and points in time in nanoseconds since the Unix
//! epoch. The electrical quantities from which the currents are computed, and the calls to
//! the inverter and to the price service, stay with the caller.
use vstd::prelude::*;
use vstd::string::*;

use crate::builders::ChargingProfileBuilder;
use crate::charge_point_state::{
    first_profile_with_id, without_profile, ChargePointState, ChargePointStateView,
    RequestToSendView,
};
use crate::messages::{ChargingProfileView, ChargingSchedulePeriod, ChargingScheduleView};
use crate::ocpp_types::{CustomError, MessageTypeName};
use crate::requests::{
    clear_charging_profile_request, clear_payload, is_request, set_charging_profile_request,
    set_profile_payload,
};
use crate::text::{parse_i64, parsed_i64};
use crate::types::{
    find_id_tag, has_tag, ChargePointStatus, ConfigSetting, ChargingProfileKindType, ChargingProfilePurposeType,
    ChargingRateUnitType, IdTag, SmartChargingMode,
};

verus! {

/// Connector that the profiles are installed on (wallboxes with one connector).
pub const CONNECTOR_ID: i32 = 1;

/// Id of the default transaction profile used with instant charging.
pub const TX_DEFAULT_CHARGING_PROFILE_ID: i32 = 1;

/// Id of the grid based transaction profile.
pub const TX_GRID_BASED_CHARGING_PROFILE_ID: i32 = 2;

/// Id of the profile that allows no power until PV overproduction is known.
pub const TX_PV_PREPARATION_CHARGING_PROFILE_ID: i32 = 4;

/// Id of the profile that sets the current allowed by PV overproduction.
pub const TX_PV_CHARGING_PROFILE_ID: i32 = 5;

/// Stack level of the PV profile, above the preparation profile.
pub const TX_PV_CHARGING_STACK_LEVEL: u32 = 1;

/// `|a - b|`.
pub open spec fn abs_diff(a: int, b: int) -> int {
    if a < b {
        b - a
    } else {
        a - b
    }
}

/// Whether `after` is `before` followed by `added` more requests.
pub open spec fn extends(before: Seq<RequestToSendView>, after: Seq<RequestToSendView>, added: nat) -> bool {
    &&& after.len() == before.len() + added
    &&& after.subrange(0, before.len() as int) == before
}

/// Whether an installed grid based profile has the two periods that updating it reads.
pub open spec fn grid_profile_well_formed(s: ChargePointStateView) -> bool {
    first_profile_with_id(s.active_charging_profiles, TX_GRID_BASED_CHARGING_PROFILE_ID) matches Some(i)
        ==> s.active_charging_profiles[i].charging_schedule.charging_schedule_period.len() >= 2
}

/// Whether an installed PV profile has the period whose limit installing a new one reads.
pub open spec fn pv_profile_well_formed(s: ChargePointStateView) -> bool {
    first_profile_with_id(s.active_charging_profiles, TX_PV_CHARGING_PROFILE_ID) matches Some(i)
        ==> s.active_charging_profiles[i].charging_schedule.charging_schedule_period.len() >= 1
}

/// Whether the profiles the smart charging decisions rely on have the periods they read:
/// the grid based profile two, the PV profile one.
pub open spec fn smart_charging_profiles_well_formed(s: ChargePointStateView) -> bool {
    &&& grid_profile_well_formed(s)
    &&& pv_profile_well_formed(s)
}

/// Checks [`grid_profile_well_formed`].
pub fn grid_profile_is_well_formed(charge_point_state: &ChargePointState) -> (r: bool)
    ensures
        r == grid_profile_well_formed(charge_point_state@),
{
    match charge_point_state.get_active_charging_profile(TX_GRID_BASED_CHARGING_PROFILE_ID) {
        Some(p) => p.charging_schedule.charging_schedule_period.len() >= 2,
        None => true,
    }
}

/// Checks [`pv_profile_well_formed`].
pub fn pv_profile_is_well_formed(charge_point_state: &ChargePointState) -> (r: bool)
    ensures
        r == pv_profile_well_formed(charge_point_state@),
{
    match charge_point_state.get_active_charging_profile(TX_PV_CHARGING_PROFILE_ID) {
        Some(p) => p.charging_schedule.charging_schedule_period.len() >= 1,
        None => true,
    }
}

/// Checks [`smart_charging_profiles_well_formed`].
pub fn smart_charging_profiles_are_well_formed(charge_point_state: &ChargePointState) -> (r: bool)
    ensures
        r == smart_charging_profiles_well_formed(charge_point_state@),
{
    grid_profile_is_well_formed(charge_point_state) && pv_profile_is_well_formed(charge_point_state)
}

/// A schedule in amperes without duration, start or minimum rate.
pub open spec fn plain_schedule(periods: Seq<ChargingSchedulePeriod>) -> ChargingScheduleView {
    ChargingScheduleView {
        duration: None,
        start_schedule: None,
        charging_rate_unit: ChargingRateUnitType::A,
        charging_schedule_period: periods,
        min_charging_rate: None,
    }
}

/// A profile with the given fields and no transaction, recurrence or validity.
pub open spec fn plain_profile(
    id: i32,
    stack_level: u32,
    purpose: ChargingProfilePurposeType,
    kind: ChargingProfileKindType,
    schedule: ChargingScheduleView,
) -> ChargingProfileView {
    ChargingProfileView {
        charging_profile_id: id,
        transaction_id: None,
        stack_level,
        charging_profile_purpose: purpose,
        charging_profile_kind: kind,
        recurrency_kind: None,
        valid_from: None,
        valid_to: None,
        charging_schedule: schedule,
    }
}

/// The single period of a schedule limited to `limit` from its start.
pub open spec fn from_start(limit: i64) -> Seq<ChargingSchedulePeriod> {
    seq![ChargingSchedulePeriod { start_period: 0, limit, number_phases: None }]
}

/// The default transaction profile limiting the current to `limit`.
pub open spec fn default_tx_profile(limit: i64) -> ChargingProfileView {
    plain_profile(
        TX_DEFAULT_CHARGING_PROFILE_ID,
        0,
        ChargingProfilePurposeType::TxDefaultProfile,
        ChargingProfileKindType::Relative,
        plain_schedule(from_start(limit)),
    )
}

/// The PV transaction profile limiting the current to `limit`.
pub open spec fn pv_tx_profile(limit: i64) -> ChargingProfileView {
    plain_profile(
        TX_PV_CHARGING_PROFILE_ID,
        TX_PV_CHARGING_STACK_LEVEL,
        ChargingProfilePurposeType::TxProfile,
        ChargingProfileKindType::Relative,
        plain_schedule(from_start(limit)),
    )
}

/// The profile that allows no current from `now` on, until the PV profile is installed.
pub open spec fn pv_preparation_profile(now: i128) -> ChargingProfileView {
    ChargingProfileView {
        valid_from: Some(now),
        charging_schedule: ChargingScheduleView {
            start_schedule: Some(now),
            ..plain_schedule(from_start(0))
        },
        ..plain_profile(
            TX_PV_PREPARATION_CHARGING_PROFILE_ID,
            0,
            ChargingProfilePurposeType::TxProfile,
            ChargingProfileKindType::Absolute,
            plain_schedule(from_start(0)),
        )
    }
}

/// Whole seconds in `nanos` nanoseconds, truncated towards zero.
pub open spec fn whole_seconds(nanos: int) -> int {
    if nanos >= 0 {
        nanos / 1_000_000_000
    } else {
        -((-nanos) / 1_000_000_000)
    }
}

/// The grid based profile: no current from `now` until the cheapest period starts at
/// `start`, then `limit`, valid until the period ends at `end`.
pub open spec fn grid_tx_profile(limit: i64, start: i128, end: i128, now: i128) -> ChargingProfileView {
    ChargingProfileView {
        charging_profile_id: TX_GRID_BASED_CHARGING_PROFILE_ID,
        transaction_id: None,
        stack_level: 0,
        charging_profile_purpose: ChargingProfilePurposeType::TxProfile,
        charging_profile_kind: ChargingProfileKindType::Absolute,
        recurrency_kind: None,
        valid_from: Some(now),
        valid_to: Some(end),
        charging_schedule: ChargingScheduleView {
            duration: Some(whole_seconds(end - now) as i32),
            start_schedule: Some(now),
            charging_rate_unit: ChargingRateUnitType::A,
            charging_schedule_period: seq![
                ChargingSchedulePeriod { start_period: 0, limit: 0, number_phases: None },
                ChargingSchedulePeriod {
                    start_period: whole_seconds(start - now) as i32,
                    limit,
                    number_phases: None,
                },
            ],
            min_charging_rate: None,
        },
    }
}

/// `p` with the limit of its second period set to `limit`.
pub open spec fn with_second_limit(p: ChargingProfileView, limit: i64) -> ChargingProfileView {
    let periods = p.charging_schedule.charging_schedule_period;
    ChargingProfileView {
        charging_schedule: ChargingScheduleView {
            charging_schedule_period: periods.update(1, ChargingSchedulePeriod { limit, ..periods[1] }),
            ..p.charging_schedule
        },
        ..p
    }
}

fn whole_seconds_between(from: i128, to: i128) -> (r: i32)
    requires
        is_datetime_nanos(from as int),
        is_datetime_nanos(to as int),
    ensures
        r == whole_seconds(to - from) as i32,
{
    let d: i128 = to - from;
    let s: i128 = if d >= 0 {
        d / 1_000_000_000
    } else {
        -((-d) / 1_000_000_000)
    };
    s as i32
}

//-------------------------------------------------------------------------------------------------
/// Whether `limit` lies within 1.0 A of the recorded maximum current, which is then kept.
pub open spec fn keeps_max_current(s: ChargePointStateView, limit: i64) -> bool {
    s.max_current matches Some(c) && abs_diff(c as int, limit as int) < 10
}

/// The effect of updating the maximum current of state `s` to `limit`, giving `t` and the
/// reported change `r`: a limit within 1.0 A of the recorded one changes nothing and is not
/// reported; any other is recorded and reported.
pub open spec fn max_current_updated(
    s: ChargePointStateView,
    t: ChargePointStateView,
    limit: i64,
    r: Option<i64>,
) -> bool {
    if keeps_max_current(s, limit) {
        r is None && t == s
    } else {
        r == Some(limit) && t == ChargePointStateView { max_current: Some(limit), ..s }
    }
}

/// Records `limit` as the maximum charging current unless it differs by less than 1.0 A from
/// the recorded one; the current to use for the profiles, if it changed (see
/// [`max_current_updated`]).
pub fn get_updated_max_charging_current(charge_point_state: &mut ChargePointState, limit: i64) -> (r:
    Option<i64>)
    ensures
        max_current_updated(old(charge_point_state)@, final(charge_point_state)@, limit, r),
{
    if let Some(cached) = charge_point_state.get_max_current() {
        let d: i128 = cached as i128 - limit as i128;
        let magnitude: i128 = if d < 0 {
            -d
        } else {
            d
        };
        if magnitude < 10 {
            return None;
        }
    }
    charge_point_state.set_max_current(limit);
    Some(limit)
}

/// Queues the default transaction profile limiting the current to `limit`.
pub fn calculate_default_tx_profile(charge_point_state: &mut ChargePointState, limit: i64) -> (r:
    Result<(), CustomError>)
    ensures
        r is Ok,
        extends(
            old(charge_point_state)@.requests_to_send,
            final(charge_point_state)@.requests_to_send,
            1,
        ),
        is_request(
            final(charge_point_state)@.requests_to_send.last(),
            MessageTypeName::SetChargingProfile,
            set_profile_payload(CONNECTOR_ID, default_tx_profile(limit)),
        ),
        final(charge_point_state)@ == (ChargePointStateView {
            requests_to_send: final(charge_point_state)@.requests_to_send,
            ..old(charge_point_state)@
        }),
{
    let profile = ChargingProfileBuilder::new(
        TX_DEFAULT_CHARGING_PROFILE_ID,
        ChargingProfilePurposeType::TxDefaultProfile,
        ChargingProfileKindType::Relative,
        ChargingRateUnitType::A,
    ).add_charging_schedule_period(0, limit, None).get();
    assert(profile@.charging_schedule.charging_schedule_period =~= from_start(limit));
    let request = match set_charging_profile_request(CONNECTOR_ID, profile) {
        Ok(q) => q,
        Err(e) => return Err(e),
    };
    let ghost before = charge_point_state@.requests_to_send;
    charge_point_state.add_request_to_send(request);
    assert(charge_point_state@.requests_to_send.subrange(0, before.len() as int) =~= before);
    Ok(())
}

/// The effect of installing the PV profile with limit `limit` on state `s`, giving `t`: no
/// change when the installed PV profile's limit differs by less than 1.0 A; otherwise the
/// installed PV profiles are replaced by the new one, which is queued, and the mode becomes
/// PV overproduction.
pub open spec fn pv_profile_installed(s: ChargePointStateView, t: ChargePointStateView, limit: i64) -> bool {
    let existing = first_profile_with_id(s.active_charging_profiles, TX_PV_CHARGING_PROFILE_ID);
    if existing is Some && abs_diff(
        s.active_charging_profiles[existing->Some_0].charging_schedule.charging_schedule_period[0].limit as int,
        limit as int,
    ) < 10 {
        t == s
    } else {
        let profiles = if existing is Some {
            without_profile(s.active_charging_profiles, TX_PV_CHARGING_PROFILE_ID)
        } else {
            s.active_charging_profiles
        };
        &&& extends(s.requests_to_send, t.requests_to_send, 1)
        &&& is_request(
            t.requests_to_send.last(),
            MessageTypeName::SetChargingProfile,
            set_profile_payload(CONNECTOR_ID, pv_tx_profile(limit)),
        )
        &&& t == ChargePointStateView {
            requests_to_send: t.requests_to_send,
            active_charging_profiles: profiles.push(pv_tx_profile(limit)),
            smart_charging_mode: SmartChargingMode::PVOverProduction,
            ..s
        }
    }
}

/// Installs the PV profile limiting the current to `limit` (see [`pv_profile_installed`]).
pub fn build_pv_tx_profile(charge_point_state: &mut ChargePointState, limit: i64) -> (r: Result<
    (),
    CustomError,
>)
    requires
        pv_profile_well_formed(old(charge_point_state)@),
    ensures
        r is Ok,
        pv_profile_installed(old(charge_point_state)@, final(charge_point_state)@, limit),
{
    let ghost s = charge_point_state@;
    let existing = match charge_point_state.get_active_charging_profile(TX_PV_CHARGING_PROFILE_ID) {
        Some(p) => Some(p.charging_schedule.charging_schedule_period[0].limit),
        None => None,
    };
    if let Some(existing_limit) = existing {
        let d: i128 = existing_limit as i128 - limit as i128;
        let magnitude: i128 = if d < 0 {
            -d
        } else {
            d
        };
        if magnitude < 10 {
            return Ok(());
        }
        charge_point_state.remove_charging_profile(TX_PV_CHARGING_PROFILE_ID);
    }
    let profile = ChargingProfileBuilder::new(
        TX_PV_CHARGING_PROFILE_ID,
        ChargingProfilePurposeType::TxProfile,
        ChargingProfileKindType::Relative,
        ChargingRateUnitType::A,
    ).add_charging_schedule_period(0, limit, None).set_stack_level(TX_PV_CHARGING_STACK_LEVEL).get();
    assert(profile@.charging_schedule.charging_schedule_period =~= from_start(limit));
    assert(profile@ == pv_tx_profile(limit));
    charge_point_state.add_charging_profile(&profile);
    charge_point_state.set_smart_charging_mode(SmartChargingMode::PVOverProduction);
    let request = match set_charging_profile_request(CONNECTOR_ID, profile) {
        Ok(q) => q,
        Err(e) => return Err(e),
    };
    let ghost before = charge_point_state@.requests_to_send;
    charge_point_state.add_request_to_send(request);
    assert(charge_point_state@.requests_to_send.subrange(0, before.len() as int) =~= before);
    Ok(())
}

/// The cheapest period of the price chart, in milliseconds since the Unix epoch.
#[derive(Clone, Copy, Debug, PartialEq, Eq, Structural)]
pub struct ChargingPeriod {
    pub start_timestamp: i64,
    pub end_timestamp: i64,
}

/// The first millisecond that chrono's `DateTime::from_timestamp_millis` accepts: January 2
/// of the year -262143 in chrono's numbering, 00:00:00 UTC.
pub const MIN_DATETIME_MILLIS: i64 = -8_334_601_228_800_000;

/// The last millisecond that chrono's `DateTime::from_timestamp_millis` accepts: December 31
/// of the year 262142, 23:59:59.999 UTC.
pub const MAX_DATETIME_MILLIS: i64 = 8_210_266_876_799_999;

/// Whether `DateTime::from_timestamp_millis` accepts `ms`: the millisecond lies within the
/// range of chrono's dates.
pub open spec fn representable_millis(ms: i64) -> bool {
    MIN_DATETIME_MILLIS <= ms <= MAX_DATETIME_MILLIS
}

/// Whether `n` nanoseconds since the Unix epoch lies within the milliseconds that chrono's
/// `DateTime::from_timestamp_millis` accepts.
pub open spec fn is_datetime_nanos(n: int) -> bool {
    MIN_DATETIME_MILLIS * 1_000_000 <= n < (MAX_DATETIME_MILLIS + 1) * 1_000_000
}

/// The message of the error for a start that cannot be converted.
pub open spec fn start_conversion_message() -> Seq<char> {
    "Could not convert start timestamp"@
}

/// The message of the error for an end that cannot be converted.
pub open spec fn end_conversion_message() -> Seq<char> {
    "Could not convert end timestamp"@
}

/// Whether the grid based profile is due to be created, which takes the cheapest period of
/// the price chart: no grid based profile is installed.
pub fn needs_cheapest_period(charge_point_state: &ChargePointState) -> (r: bool)
    ensures
        r == (first_profile_with_id(
            charge_point_state@.active_charging_profiles,
            TX_GRID_BASED_CHARGING_PROFILE_ID,
        ) is None),
{
    charge_point_state.get_active_charging_profile(TX_GRID_BASED_CHARGING_PROFILE_ID).is_none()
}

/// The grid based profile for state `s` and the limit `max_current`: an installed grid based
/// profile with the new limit in its second period, which keeps its validity; otherwise a
/// new profile made from the cheapest period `period`.
pub open spec fn grid_profile_for(
    s: ChargePointStateView,
    max_current: i64,
    period: ChargingPeriod,
    now: i128,
) -> ChargingProfileView {
    match first_profile_with_id(s.active_charging_profiles, TX_GRID_BASED_CHARGING_PROFILE_ID) {
        Some(i) => with_second_limit(s.active_charging_profiles[i], max_current),
        None => grid_tx_profile(
            max_current,
            (period.start_timestamp * 1_000_000) as i128,
            (period.end_timestamp * 1_000_000) as i128,
            now,
        ),
    }
}

/// The effect of installing the grid based profile `profile` on state `s`, giving `t`: the
/// profile is queued and recorded, and the mode becomes grid based.
pub open spec fn grid_profile_installed(
    s: ChargePointStateView,
    t: ChargePointStateView,
    profile: ChargingProfileView,
) -> bool {
    &&& extends(s.requests_to_send, t.requests_to_send, 1)
    &&& is_request(
        t.requests_to_send.last(),
        MessageTypeName::SetChargingProfile,
        set_profile_payload(CONNECTOR_ID, profile),
    )
    &&& t == ChargePointStateView {
        requests_to_send: t.requests_to_send,
        active_charging_profiles: s.active_charging_profiles.push(profile),
        smart_charging_mode: SmartChargingMode::PVOverProductionAndGridBased,
        ..s
    }
}

/// Installs the grid based profile limiting the current to `max_current` (see
/// [`grid_profile_for`] and [`grid_profile_installed`]); a new profile needs the cheapest
/// period, and succeeds exactly when both its bounds are milliseconds that chrono's
/// `DateTime::from_timestamp_millis` accepts.
pub fn build_grid_based_smart_charging_tx_profile(
    charge_point_state: &mut ChargePointState,
    max_current: i64,
    cheapest_period: Option<ChargingPeriod>,
    now: i128,
) -> (r: Result<(), CustomError>)
    requires
        is_datetime_nanos(now as int),
        grid_profile_well_formed(old(charge_point_state)@),
        first_profile_with_id(
            old(charge_point_state)@.active_charging_profiles,
            TX_GRID_BASED_CHARGING_PROFILE_ID,
        ) is None ==> cheapest_period is Some,
    ensures
        ({
            let s = old(charge_point_state)@;
            let t = final(charge_point_state)@;
            let existing = first_profile_with_id(
                s.active_charging_profiles,
                TX_GRID_BASED_CHARGING_PROFILE_ID,
            );
            let period = cheapest_period->Some_0;
            if existing is None && !representable_millis(period.start_timestamp) {
                r matches Err(CustomError::Common(m)) && m@ == start_conversion_message() && t == s
            } else if existing is None && !representable_millis(period.end_timestamp) {
                r matches Err(CustomError::Common(m)) && m@ == end_conversion_message() && t == s
            } else {
                r is Ok && grid_profile_installed(
                    s,
                    t,
                    grid_profile_for(s, max_current, period, now),
                )
            }
        }),
{
    let ghost s = charge_point_state@;
    let existing = match charge_point_state.get_active_charging_profile(
        TX_GRID_BASED_CHARGING_PROFILE_ID,
    ) {
        Some(p) => Some(p.copy_of()),
        None => None,
    };
    let profile = match existing {
        Some(p) => {
            let mut updated = p;
            let mut period = updated.charging_schedule.charging_schedule_period[1];
            period.limit = max_current;
            updated.charging_schedule.charging_schedule_period.set(1, period);
            assert(updated@.charging_schedule.charging_schedule_period =~= p@.charging_schedule.charging_schedule_period.update(
                1,
                ChargingSchedulePeriod {
                    limit: max_current,
                    ..p@.charging_schedule.charging_schedule_period[1]
                },
            ));
            updated
        },
        None => {
            let period = cheapest_period.unwrap();
            if period.start_timestamp < MIN_DATETIME_MILLIS || period.start_timestamp
                > MAX_DATETIME_MILLIS {
                return Err(
                    CustomError::Common(String::from_str("Could not convert start timestamp")),
                );
            }
            if period.end_timestamp < MIN_DATETIME_MILLIS || period.end_timestamp
                > MAX_DATETIME_MILLIS {
                return Err(CustomError::Common(String::from_str("Could not convert end timestamp")));
            }
            let start: i128 = period.start_timestamp as i128 * 1_000_000;
            let end: i128 = period.end_timestamp as i128 * 1_000_000;
            let duration = whole_seconds_between(now, end);
            let start_period = whole_seconds_between(now, start);
            let p = ChargingProfileBuilder::new(
                TX_GRID_BASED_CHARGING_PROFILE_ID,
                ChargingProfilePurposeType::TxProfile,
                ChargingProfileKindType::Absolute,
                ChargingRateUnitType::A,
            ).set_valid_from(now).set_valid_to(end).set_charging_schedule_duration(
                duration,
            ).set_start_schedule_timestamp(now).add_charging_schedule_period(
                0,
                0,
                None,
            ).add_charging_schedule_period(start_period, max_current, None).get();
            assert(p@.charging_schedule.charging_schedule_period =~= seq![
                ChargingSchedulePeriod { start_period: 0, limit: 0, number_phases: None },
                ChargingSchedulePeriod { start_period, limit: max_current, number_phases: None },
            ]);
            p
        },
    };
    charge_point_state.add_charging_profile(&profile);
    charge_point_state.set_smart_charging_mode(SmartChargingMode::PVOverProductionAndGridBased);
    let request = match set_charging_profile_request(CONNECTOR_ID, profile) {
        Ok(q) => q,
        Err(e) => return Err(e),
    };
    let ghost before = charge_point_state@.requests_to_send;
    charge_point_state.add_request_to_send(request);
    assert(charge_point_state@.requests_to_send.subrange(0, before.len() as int) =~= before);
    Ok(())
}

//-------------------------------------------------------------------------------------------------
/// The charging current that PV overproduction allows, as far as it is known.
#[derive(Clone, Copy, Debug, PartialEq, Eq, Structural)]
pub enum PvChargingCurrent {
    /// Not enough measurements, or no inverter data.
    Unavailable,
    /// The possible current does not exceed the minimum charging current.
    NotAboveMinimum,
    /// The possible current, clamped to the configured range, in tenths of an ampere.
    Limit(i64),
}

/// The key of the setting that gives the interval of the meter values, in seconds.
pub open spec fn sample_interval_key() -> Seq<char> {
    "MeterValueSampleInterval"@
}

/// Index of the first setting of `s` with key `key`, if any.
pub open spec fn first_setting_with_key(s: Seq<ConfigSetting>, key: Seq<char>) -> Option<int> {
    if exists|i: int| 0 <= i < s.len() && s[i].key@ == key {
        Some(
            choose|i: int|
                0 <= i < s.len() && s[i].key@ == key && forall|j: int|
                    0 <= j < i ==> s[j].key@ != key,
        )
    } else {
        None
    }
}

/// The interval of the meter values as the settings give it.
#[derive(Debug)]
pub enum SampleInterval {
    /// No setting gives it.
    NotConfigured,
    /// The setting's value, which is no decimal `i64`.
    Unparsable(String),
    /// The interval in seconds.
    Seconds(i64),
}

/// The interval of the meter values: the value of the first setting with key
/// `MeterValueSampleInterval`, read as a decimal `i64`.
pub fn meter_value_sample_interval(config_parameters: &Vec<ConfigSetting>) -> (r: SampleInterval)
    ensures
        match first_setting_with_key(config_parameters@, sample_interval_key()) {
            None => r is NotConfigured,
            Some(k) => match parsed_i64(config_parameters@[k].value@) {
                Some(v) => r == SampleInterval::Seconds(v),
                None => r matches SampleInterval::Unparsable(t) && t@
                    == config_parameters@[k].value@,
            },
        },
{
    let key = String::from_str("MeterValueSampleInterval");
    let mut i: usize = 0;
    while i < config_parameters.len()
        invariant
            i <= config_parameters@.len(),
            key@ == sample_interval_key(),
            forall|j: int| 0 <= j < i ==> config_parameters@[j].key@ != key@,
        decreases config_parameters.len() - i,
    {
        if config_parameters[i].key == key {
            proof {
                let w = first_setting_with_key(config_parameters@, key@)->Some_0;
                assert(config_parameters@[i as int].key@ == key@);
                assert(w == i) by {
                    if w < i {
                        assert(config_parameters@[w].key@ != key@);
                    } else if w > i {
                    }
                }
            }
            let value = &config_parameters[i].value;
            return match parse_i64(value.as_str()) {
                Some(v) => SampleInterval::Seconds(v),
                None => SampleInterval::Unparsable(value.clone()),
            };
        }
        i = i + 1;
    }
    SampleInterval::NotConfigured
}

/// The effect of clearing the PV profile on state `s`, giving `t`: when a PV profile is
/// installed, a ClearChargingProfile for it is queued and it is forgotten; otherwise
/// nothing changes.
pub open spec fn pv_profile_cleared(s: ChargePointStateView, t: ChargePointStateView) -> bool {
    if first_profile_with_id(s.active_charging_profiles, TX_PV_CHARGING_PROFILE_ID) is Some {
        &&& extends(s.requests_to_send, t.requests_to_send, 1)
        &&& is_request(
            t.requests_to_send.last(),
            MessageTypeName::ClearChargingProfile,
            clear_payload(
                Some(TX_PV_CHARGING_PROFILE_ID),
                Some(CONNECTOR_ID),
                Some(ChargingProfilePurposeType::TxProfile),
                Some(TX_PV_CHARGING_STACK_LEVEL as i32),
            ),
        )
        &&& t == ChargePointStateView {
            requests_to_send: t.requests_to_send,
            active_charging_profiles: without_profile(
                s.active_charging_profiles,
                TX_PV_CHARGING_PROFILE_ID,
            ),
            ..s
        }
    } else {
        t == s
    }
}

/// The effect of the meter values decisions on state `s`, giving `t`, for the updated
/// maximum current `max_current` and the PV current `pv`: with instant charging a new
/// maximum current is sent as default profile; with PV charging a PV current above the
/// minimum installs the PV profile, one at most the minimum clears it.
pub open spec fn meter_values_applied(
    s: ChargePointStateView,
    t: ChargePointStateView,
    max_current: Option<i64>,
    pv: PvChargingCurrent,
) -> bool {
    if max_current is None && pv == PvChargingCurrent::Unavailable {
        t == s
    } else {
        match s.smart_charging_mode {
            SmartChargingMode::Instant => match max_current {
                Some(m) => {
                    &&& extends(s.requests_to_send, t.requests_to_send, 1)
                    &&& is_request(
                        t.requests_to_send.last(),
                        MessageTypeName::SetChargingProfile,
                        set_profile_payload(CONNECTOR_ID, default_tx_profile(m)),
                    )
                    &&& t == ChargePointStateView { requests_to_send: t.requests_to_send, ..s }
                },
                None => t == s,
            },
            _ => match pv {
                PvChargingCurrent::Limit(l) => pv_profile_installed(s, t, l),
                PvChargingCurrent::NotAboveMinimum => pv_profile_cleared(s, t),
                PvChargingCurrent::Unavailable => t == s,
            },
        }
    }
}

/// Takes the decisions for new meter values (see [`meter_values_applied`]); the maximum
/// current with which the grid based profile is due to be updated, if any: with grid based
/// charging (as it was before the decisions) and a new maximum current.
pub fn evaluate_meter_values(
    charge_point_state: &mut ChargePointState,
    max_current: Option<i64>,
    pv: PvChargingCurrent,
) -> (r: Result<Option<i64>, CustomError>)
    requires
        old(charge_point_state)@.smart_charging_mode != SmartChargingMode::Instant
            && pv is Limit ==> pv_profile_well_formed(old(charge_point_state)@),
    ensures
        r is Ok,
        meter_values_applied(old(charge_point_state)@, final(charge_point_state)@, max_current, pv),
        r == Ok::<Option<i64>, CustomError>(
            if max_current is Some && old(charge_point_state)@.smart_charging_mode
                == SmartChargingMode::PVOverProductionAndGridBased {
                max_current
            } else {
                None
            },
        ),
{
    if max_current.is_none() && pv == PvChargingCurrent::Unavailable {
        return Ok(None);
    }
    let smart_charging_mode = charge_point_state.get_smart_charging_mode();
    match smart_charging_mode {
        SmartChargingMode::Instant => {
            if let Some(m) = max_current {
                match calculate_default_tx_profile(charge_point_state, m) {
                    Ok(()) => {},
                    Err(e) => return Err(e),
                }
            }
        },
        SmartChargingMode::PVOverProductionAndGridBased | SmartChargingMode::PVOverProduction => {
            match pv {
                PvChargingCurrent::Limit(l) => {
                    match build_pv_tx_profile(charge_point_state, l) {
                        Ok(()) => {},
                        Err(e) => return Err(e),
                    }
                },
                PvChargingCurrent::NotAboveMinimum => {
                    if charge_point_state.get_active_charging_profile(
                        TX_PV_CHARGING_PROFILE_ID,
                    ).is_some() {
                        let request = match clear_charging_profile_request(
                            Some(TX_PV_CHARGING_PROFILE_ID),
                            Some(CONNECTOR_ID),
                            Some(ChargingProfilePurposeType::TxProfile),
                            Some(TX_PV_CHARGING_STACK_LEVEL as i32),
                        ) {
                            Ok(q) => q,
                            Err(e) => return Err(e),
                        };
                        let ghost before = charge_point_state@.requests_to_send;
                        charge_point_state.add_request_to_send(request);
                        assert(charge_point_state@.requests_to_send.subrange(
                            0,
                            before.len() as int,
                        ) =~= before);
                        charge_point_state.remove_charging_profile(TX_PV_CHARGING_PROFILE_ID);
                    }
                },
                PvChargingCurrent::Unavailable => {},
            }
        },
    }
    match max_current {
        Some(m) => {
            if smart_charging_mode == SmartChargingMode::PVOverProductionAndGridBased {
                Ok(Some(m))
            } else {
                Ok(None)
            }
        },
        None => Ok(None),
    }
}

//-------------------------------------------------------------------------------------------------
/// The message of the error for an IdTag that is not configured.
pub open spec fn unknown_id_tag_message() -> Seq<char> {
    "Given IdTag is not configured!"@
}

/// The effect of an accepted authorization on state `s`, giving `t`, for a tag with mode
/// `mode` at time `now`: with running transactions a ClearChargingProfile for the
/// transaction profiles of the connector is queued and smart charging is disabled; with PV
/// overproduction charging the preparation profile is then queued and PV overproduction
/// charging becomes the mode, so that the next meter values install the PV profile.
pub open spec fn authorization_applied(
    s: ChargePointStateView,
    t: ChargePointStateView,
    mode: SmartChargingMode,
    now: i128,
) -> bool {
    let n = s.requests_to_send.len();
    let cleared = s.running_transactions.len() > 0;
    let k: nat = if cleared {
        1
    } else {
        0
    };
    let prepared: nat = if mode == SmartChargingMode::PVOverProduction {
        1
    } else {
        0
    };
    &&& extends(s.requests_to_send, t.requests_to_send, k + prepared)
    &&& cleared ==> is_request(
        t.requests_to_send[n as int],
        MessageTypeName::ClearChargingProfile,
        clear_payload(
            None,
            Some(CONNECTOR_ID),
            Some(ChargingProfilePurposeType::TxProfile),
            None,
        ),
    )
    &&& mode == SmartChargingMode::PVOverProduction ==> is_request(
        t.requests_to_send[(n + k) as int],
        MessageTypeName::SetChargingProfile,
        set_profile_payload(CONNECTOR_ID, pv_preparation_profile(now)),
    )
    &&& t == ChargePointStateView {
        requests_to_send: t.requests_to_send,
        smart_charging_mode: if mode == SmartChargingMode::PVOverProduction {
            SmartChargingMode::PVOverProduction
        } else if cleared {
            SmartChargingMode::Instant
        } else {
            s.smart_charging_mode
        },
        ..s
    }
}

/// The smart charging mode of the first tag of `tags` with id `id`.
pub open spec fn tag_mode(tags: Seq<IdTag>, id: Seq<char>) -> SmartChargingMode {
    tags[choose|i: int|
        0 <= i < tags.len() && tags[i].id@ == id && forall|j: int|
            0 <= j < i ==> tags[j].id@ != id].smart_charging_mode
}

/// Takes the decisions for an authorization of `id_tag` (see [`authorization_applied`]);
/// the smart charging mode of the tag. With grid based charging the caller goes on with
/// the maximum current and the grid based profile.
pub fn evaluate_authorization(
    charge_point_state: &mut ChargePointState,
    configured_id_tags: &Vec<IdTag>,
    id_tag: &String,
    now: i128,
) -> (r: Result<SmartChargingMode, CustomError>)
    ensures
        !has_tag(configured_id_tags@, id_tag@) ==> (r matches Err(CustomError::Common(m)) && m@
            == unknown_id_tag_message()) && final(charge_point_state)@ == old(
            charge_point_state,
        )@,
        has_tag(configured_id_tags@, id_tag@) ==> r == Ok::<SmartChargingMode, CustomError>(
            tag_mode(configured_id_tags@, id_tag@),
        ) && authorization_applied(
            old(charge_point_state)@,
            final(charge_point_state)@,
            tag_mode(configured_id_tags@, id_tag@),
            now,
        ),
{
    let index = match find_id_tag(configured_id_tags, id_tag) {
        Some(i) => i,
        None => {
            return Err(CustomError::Common(String::from_str("Given IdTag is not configured!")));
        },
    };
    let mode = configured_id_tags[index].smart_charging_mode;
    proof {
        let w = choose|i: int|
            0 <= i < configured_id_tags@.len() && configured_id_tags@[i].id@ == id_tag@ && forall|
                j: int,
            |
                0 <= j < i ==> configured_id_tags@[j].id@ != id_tag@;
        assert(w == index) by {
            if w < index {
                assert(configured_id_tags@[w].id@ != id_tag@);
            } else if w > index {
            }
        }
    }
    let ghost s = charge_point_state@;
    if charge_point_state.get_running_transaction_ids().len() > 0 {
        let request = match clear_charging_profile_request(
            None,
            Some(CONNECTOR_ID),
            Some(ChargingProfilePurposeType::TxProfile),
            None,
        ) {
            Ok(q) => q,
            Err(e) => return Err(e),
        };
        charge_point_state.add_request_to_send(request);
        charge_point_state.disable_smart_charging();
    }
    let ghost mid = charge_point_state@.requests_to_send;
    assert(mid.subrange(0, s.requests_to_send.len() as int) =~= s.requests_to_send);
    if mode == SmartChargingMode::PVOverProduction {
        let profile = ChargingProfileBuilder::new(
            TX_PV_PREPARATION_CHARGING_PROFILE_ID,
            ChargingProfilePurposeType::TxProfile,
            ChargingProfileKindType::Absolute,
            ChargingRateUnitType::A,
        ).set_valid_from(now).set_start_schedule_timestamp(now).add_charging_schedule_period(
            0,
            0,
            None,
        ).get();
        assert(profile@.charging_schedule.charging_schedule_period =~= from_start(0));
        assert(profile@ == pv_preparation_profile(now));
        let request = match set_charging_profile_request(CONNECTOR_ID, profile) {
            Ok(q) => q,
            Err(e) => return Err(e),
        };
        charge_point_state.add_request_to_send(request);
        charge_point_state.set_smart_charging_mode(SmartChargingMode::PVOverProduction);
        assert(charge_point_state@.requests_to_send.subrange(
            0,
            s.requests_to_send.len() as int,
        ) =~= s.requests_to_send);
    }
    Ok(mode)
}

//-------------------------------------------------------------------------------------------------
/// What happens besides the status update when the charge point changes its status.
#[derive(Clone, Copy, Debug, PartialEq, Eq, Structural)]
pub enum TransitionAction {
    /// Nothing.
    NoAction,
    /// The home battery is blocked from discharging for 12 hours.
    BlockBattery,
    /// The home battery is unblocked.
    UnblockBattery,
    /// The home battery is unblocked, every installed profile is cleared and smart charging
    /// is disabled.
    UnblockBatteryAndClearProfiles,
}

/// The action for a change of status from `from` to `to`; none when `from` is a status that
/// the table of transitions does not know (Reserved, Unavailable, Faulted), in which case
/// the status is not updated either.
pub open spec fn transition_action(from: ChargePointStatus, to: ChargePointStatus) -> Option<
    TransitionAction,
> {
    match from {
        ChargePointStatus::Available => Some(
            if to == ChargePointStatus::Charging {
                TransitionAction::BlockBattery
            } else {
                TransitionAction::NoAction
            },
        ),
        ChargePointStatus::Preparing | ChargePointStatus::SuspendedEV
        | ChargePointStatus::SuspendedEVSE => Some(
            if to == ChargePointStatus::Available || to == ChargePointStatus::Finishing {
                TransitionAction::UnblockBatteryAndClearProfiles
            } else if to == ChargePointStatus::Charging {
                TransitionAction::BlockBattery
            } else {
                TransitionAction::NoAction
            },
        ),
        ChargePointStatus::Charging => Some(
            if to == ChargePointStatus::Available || to == ChargePointStatus::Finishing {
                TransitionAction::UnblockBatteryAndClearProfiles
            } else if to == ChargePointStatus::SuspendedEV || to == ChargePointStatus::SuspendedEVSE {
                TransitionAction::UnblockBattery
            } else {
                TransitionAction::NoAction
            },
        ),
        ChargePointStatus::Finishing => Some(
            if to == ChargePointStatus::Available {
                TransitionAction::UnblockBatteryAndClearProfiles
            } else {
                TransitionAction::NoAction
            },
        ),
        _ => None,
    }
}

/// The action for a change of status (see [`transition_action`]).
pub fn status_transition(from: ChargePointStatus, to: ChargePointStatus) -> (r: Option<
    TransitionAction,
>)
    ensures
        r == transition_action(from, to),
{
    match from {
        ChargePointStatus::Available => Some(
            if to == ChargePointStatus::Charging {
                TransitionAction::BlockBattery
            } else {
                TransitionAction::NoAction
            },
        ),
        ChargePointStatus::Preparing | ChargePointStatus::SuspendedEV
        | ChargePointStatus::SuspendedEVSE => Some(
            if to == ChargePointStatus::Available || to == ChargePointStatus::Finishing {
                TransitionAction::UnblockBatteryAndClearProfiles
            } else if to == ChargePointStatus::Charging {
                TransitionAction::BlockBattery
            } else {
                TransitionAction::NoAction
            },
        ),
        ChargePointStatus::Charging => Some(
            if to == ChargePointStatus::Available || to == ChargePointStatus::Finishing {
                TransitionAction::UnblockBatteryAndClearProfiles
            } else if to == ChargePointStatus::SuspendedEV || to == ChargePointStatus::SuspendedEVSE {
                TransitionAction::UnblockBattery
            } else {
                TransitionAction::NoAction
            },
        ),
        ChargePointStatus::Finishing => Some(
            if to == ChargePointStatus::Available {
                TransitionAction::UnblockBatteryAndClearProfiles
            } else {
                TransitionAction::NoAction
            },
        ),
        _ => None,
    }
}

/// What a StatusNotification leads to.
#[derive(Clone, Copy, Debug, PartialEq, Eq, Structural)]
pub enum StatusNotificationStep {
    /// No status was known: the reported one is recorded.
    SetInitialStatus,
    /// The action is performed, then the reported status is recorded.
    Transition(TransitionAction),
    /// The known status has no transitions: nothing changes.
    Ignore,
}

/// The step for a StatusNotification reporting `status`.
pub open spec fn status_notification_step(s: ChargePointStateView, status: ChargePointStatus) -> StatusNotificationStep {
    match s.charge_point_status {
        None => StatusNotificationStep::SetInitialStatus,
        Some(current) => match transition_action(current, status) {
            Some(a) => StatusNotificationStep::Transition(a),
            None => StatusNotificationStep::Ignore,
        },
    }
}

/// Decides what a StatusNotification reporting `status` leads to; the caller performs the
/// battery part of the action and then calls [`apply_status_notification`].
pub fn evaluate_status_notification(charge_point_state: &ChargePointState, status: ChargePointStatus) -> (r:
    StatusNotificationStep)
    ensures
        r == status_notification_step(charge_point_state@, status),
{
    match charge_point_state.get_charge_point_status() {
        None => StatusNotificationStep::SetInitialStatus,
        Some(current) => match status_transition(*current, status) {
            Some(a) => StatusNotificationStep::Transition(a),
            None => StatusNotificationStep::Ignore,
        },
    }
}

/// The ClearChargingProfile payload for an installed profile.
pub open spec fn clear_profile_payload(p: ChargingProfileView) -> crate::messages::OcppRequestView {
    clear_payload(
        Some(p.charging_profile_id),
        Some(CONNECTOR_ID),
        Some(p.charging_profile_purpose),
        Some(p.stack_level as i32),
    )
}

/// The effect of a StatusNotification step on state `s`, giving `t`: the status is
/// recorded unless the step is ignored; for unblocking with clearing, a ClearChargingProfile
/// is queued for each installed profile, in order, and smart charging is disabled (the
/// installed profiles stay recorded).
pub open spec fn status_notification_applied(
    s: ChargePointStateView,
    t: ChargePointStateView,
    status: ChargePointStatus,
    step: StatusNotificationStep,
) -> bool {
    match step {
        StatusNotificationStep::Ignore => t == s,
        StatusNotificationStep::Transition(TransitionAction::UnblockBatteryAndClearProfiles) => {
            let n = s.requests_to_send.len();
            let profiles = s.active_charging_profiles;
            &&& extends(s.requests_to_send, t.requests_to_send, profiles.len())
            &&& forall|i: int|
                0 <= i < profiles.len() ==> is_request(
                    #[trigger] t.requests_to_send[n + i],
                    MessageTypeName::ClearChargingProfile,
                    clear_profile_payload(profiles[i]),
                )
            &&& t == ChargePointStateView {
                requests_to_send: t.requests_to_send,
                charge_point_status: Some(status),
                smart_charging_mode: SmartChargingMode::Instant,
                ..s
            }
        },
        _ => t == ChargePointStateView { charge_point_status: Some(status), ..s },
    }
}

/// Completes a StatusNotification reporting `status` once the battery part of `step` was
/// performed (see [`status_notification_applied`]).
pub fn apply_status_notification(
    charge_point_state: &mut ChargePointState,
    status: ChargePointStatus,
    step: StatusNotificationStep,
) -> (r: Result<(), CustomError>)
    ensures
        r is Ok,
        status_notification_applied(old(charge_point_state)@, final(charge_point_state)@, status, step),
{
    match step {
        StatusNotificationStep::Ignore => {
            return Ok(());
        },
        StatusNotificationStep::Transition(TransitionAction::UnblockBatteryAndClearProfiles) => {
            let ghost s = charge_point_state@;
            let n = charge_point_state.get_active_charging_profiles().len();
            assert(s.requests_to_send.subrange(0, s.requests_to_send.len() as int)
                =~= s.requests_to_send);
            let mut i: usize = 0;
            while i < n
                invariant
                    i <= n,
                    n == s.active_charging_profiles.len(),
                    charge_point_state@ == (ChargePointStateView {
                        requests_to_send: charge_point_state@.requests_to_send,
                        ..s
                    }),
                    extends(s.requests_to_send, charge_point_state@.requests_to_send, i as nat),
                    forall|j: int|
                        0 <= j < i ==> is_request(
                            #[trigger] charge_point_state@.requests_to_send[s.requests_to_send.len() + j],
                            MessageTypeName::ClearChargingProfile,
                            clear_profile_payload(s.active_charging_profiles[j]),
                        ),
                decreases n - i,
            {
                let (id, purpose, stack_level) = {
                    let profiles = charge_point_state.get_active_charging_profiles();
                    let p = &profiles[i];
                    (p.charging_profile_id, p.charging_profile_purpose, p.stack_level)
                };
                let request = match clear_charging_profile_request(
                    Some(id),
                    Some(CONNECTOR_ID),
                    Some(purpose),
                    Some(#[verifier::truncate] (stack_level as i32)),
                ) {
                    Ok(q) => q,
                    Err(e) => return Err(e),
                };
                let ghost before = charge_point_state@.requests_to_send;
                charge_point_state.add_request_to_send(request);
                assert(charge_point_state@.requests_to_send.subrange(
                    0,
                    s.requests_to_send.len() as int,
                ) =~= before.subrange(0, s.requests_to_send.len() as int));
                i = i + 1;
            }
            charge_point_state.disable_smart_charging();
        },
        _ => {},
    }
    charge_point_state.set_charge_point_status(status);
    Ok(())
}

} // verus!
