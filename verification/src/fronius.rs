//! The data exchanged with a Fronius inverter and the decisions taken on it: which API
//! versions are supported, whether a login and a write succeeded, and which times of use
//! block the home battery for a span of time.
use std::collections::HashMap;
use vstd::prelude::*;
use vstd::string::*;
use crate::text::{decimal, zero_padded, u64_to_decimal, zero_pad};

verus! {

/// An error of the exchange with the inverter, with its message.
#[derive(Debug)]
pub struct FroniusError {
    pub message: String,
}

/// The versions of the inverter's interfaces.
#[derive(Debug)]
pub struct ApiVersions {
    pub components_api: String,
    pub commands_api: String,
    pub config_api: String,
    pub setup_app_api: String,
    pub setup_app_update_api: String,
    pub status_api: String,
    pub update_api: String,
}

/// The minimal versions of the inverter's apps.
#[derive(Debug)]
pub struct AppVersions {
    pub min_android_version: usize,
    pub min_ios_version: usize,
    pub min_win_version: usize,
}

/// The inverter's answer to a query of its versions.
#[derive(Debug)]
pub struct ApiVersionResponse {
    pub api_versions: ApiVersions,
    pub article_number: String,
    pub common_name: String,
    pub device_group: String,
    pub device_name: String,
    pub hardware_id: String,
    pub hardware_revisions: HashMap<String, String>,
    pub min_app_versions: AppVersions,
    pub number_of_phases: usize,
    pub serial_number: String,
    pub software_version_prefix: String,
    pub software_revisions: HashMap<String, String>,
}

/// The span of a day, as "HH:MM" texts, that a time of use covers.
#[derive(Debug)]
pub struct TimeTable {
    pub start: String,
    pub end: String,
}

/// The days of the week that a time of use applies to.
#[derive(Clone, Copy, Debug, PartialEq, Eq, Structural)]
pub struct Weekdays {
    pub monday: bool,
    pub tuesday: bool,
    pub wednesday: bool,
    pub thursday: bool,
    pub friday: bool,
    pub saturday: bool,
    pub sunday: bool,
}

/// What a time of use limits.
#[derive(Clone, Copy, Debug, PartialEq, Eq, Structural)]
pub enum ScheduleType {
    DischargeMax,
    DischargeMin,
}

/// One rule of the battery's schedule.
#[derive(Debug)]
pub struct TimeOfUse {
    pub active: bool,
    pub power: usize,
    pub schedule_type: ScheduleType,
    pub time_table: TimeTable,
    pub weekdays: Weekdays,
}

/// The battery's whole schedule.
#[derive(Debug)]
pub struct TimesOfUse {
    pub time_of_use: Vec<TimeOfUse>,
}

/// The inverter's answer to a write of the schedule.
#[derive(Debug)]
pub struct TimesOfUseResponse {
    pub errors: Vec<String>,
    pub permission_failure: Vec<String>,
    pub unknown_nodes: Vec<String>,
    pub validation_errors: Vec<String>,
    pub write_failure: Vec<String>,
    pub write_success: Vec<String>,
}

/// The roles granted by a login.
#[derive(Debug)]
pub struct ResultData {
    pub roles: Vec<String>,
}

/// The inverter's answer to a login.
#[derive(Debug)]
pub struct LoginResponse {
    pub result_data: ResultData,
    pub success: bool,
}

/// The status part of the inverter's realtime data.
#[derive(Debug)]
pub struct Status {
    pub code: i64,
    pub reason: String,
    pub user_message: String,
}

/// A time of use as values.
pub struct TimeOfUseView {
    pub active: bool,
    pub power: usize,
    pub schedule_type: ScheduleType,
    pub start: Seq<char>,
    pub end: Seq<char>,
    pub weekdays: Weekdays,
}

impl View for TimeOfUse {
    type V = TimeOfUseView;

    open spec fn view(&self) -> TimeOfUseView {
        TimeOfUseView {
            active: self.active,
            power: self.power,
            schedule_type: self.schedule_type,
            start: self.time_table.start@,
            end: self.time_table.end@,
            weekdays: self.weekdays,
        }
    }
}

impl View for TimesOfUse {
    type V = Seq<TimeOfUseView>;

    open spec fn view(&self) -> Seq<TimeOfUseView> {
        self.time_of_use@.map_values(|t: TimeOfUse| t@)
    }
}

/// The commands API version this library talks to.
pub open spec fn supported_commands_api_version() -> Seq<char> {
    "8.4.1"@
}

/// The config API version this library talks to.
pub open spec fn supported_config_api_version() -> Seq<char> {
    "10.2.0"@
}

/// The message of the error for versions other than the supported ones.
pub open spec fn unsupported_versions_message(commands_api: Seq<char>, config_api: Seq<char>) -> Seq<char> {
    "Commands API version ("@ + commands_api + ") OR config API version("@ + config_api
        + ") does not match supported API versions ("@ + supported_commands_api_version() + ", "@
        + supported_config_api_version() + ")!"@
}

/// Checks that the inverter speaks the supported commands and config API versions.
pub fn check_api_versions(api_versions: &ApiVersions) -> (r: Result<(), FroniusError>)
    ensures
        r is Ok <==> (api_versions.commands_api@ == supported_commands_api_version()
            && api_versions.config_api@ == supported_config_api_version()),
        r matches Err(e) ==> e.message@ == unsupported_versions_message(
            api_versions.commands_api@,
            api_versions.config_api@,
        ),
{
    let commands = String::from_str("8.4.1");
    let config = String::from_str("10.2.0");
    if api_versions.commands_api != commands || api_versions.config_api != config {
        let mut message = String::from_str("Commands API version (");
        message.append(api_versions.commands_api.as_str());
        message.append(") OR config API version(");
        message.append(api_versions.config_api.as_str());
        message.append(") does not match supported API versions (");
        message.append(commands.as_str());
        message.append(", ");
        message.append(config.as_str());
        message.append(")!");
        return Err(FroniusError { message });
    }
    Ok(())
}

/// The message of the error for a refused login.
pub open spec fn login_failed_message() -> Seq<char> {
    "Login failed"@
}

/// Checks the inverter's answer to a login.
pub fn check_login(login_response: &LoginResponse) -> (r: Result<(), FroniusError>)
    ensures
        r is Ok <==> login_response.success,
        r matches Err(e) ==> e.message@ == login_failed_message(),
{
    if login_response.success {
        Ok(())
    } else {
        Err(FroniusError { message: String::from_str("Login failed") })
    }
}

/// The node that a successful write of the schedule reports.
pub open spec fn times_of_use_node() -> Seq<char> {
    "timeofuse"@
}

/// Whether the inverter reports the schedule as written.
pub open spec fn times_of_use_written(response: &TimesOfUseResponse) -> bool {
    exists|i: int|
        0 <= i < response.write_success@.len() && (#[trigger] response.write_success@[i])@
            == times_of_use_node()
}

fn reports_times_of_use_written(response: &TimesOfUseResponse) -> (r: bool)
    ensures
        r == times_of_use_written(response),
{
    let node = String::from_str("timeofuse");
    let mut i: usize = 0;
    while i < response.write_success.len()
        invariant
            i <= response.write_success@.len(),
            node@ == times_of_use_node(),
            forall|j: int| 0 <= j < i ==> (#[trigger] response.write_success@[j])@ != node@,
        decreases response.write_success@.len() - i,
    {
        if response.write_success[i] == node {
            return true;
        }
        i = i + 1;
    }
    false
}

/// The message of the error for a schedule that blocks the battery and was not written.
pub open spec fn block_failed_message() -> Seq<char> {
    "Could not block Battery!"@
}

/// The message of the error for an empty schedule that was not written.
pub open spec fn unblock_failed_message() -> Seq<char> {
    "Could not un-block Battery!"@
}

/// Checks the inverter's answer to the write of a schedule that blocks the battery.
pub fn check_battery_blocked(response: &TimesOfUseResponse) -> (r: Result<(), FroniusError>)
    ensures
        r is Ok <==> times_of_use_written(response),
        r matches Err(e) ==> e.message@ == block_failed_message(),
{
    if reports_times_of_use_written(response) {
        Ok(())
    } else {
        Err(FroniusError { message: String::from_str("Could not block Battery!") })
    }
}

/// Checks the inverter's answer to the write of an empty schedule.
pub fn check_battery_unblocked(response: &TimesOfUseResponse) -> (r: Result<(), FroniusError>)
    ensures
        r is Ok <==> times_of_use_written(response),
        r matches Err(e) ==> e.message@ == unblock_failed_message(),
{
    if reports_times_of_use_written(response) {
        Ok(())
    } else {
        Err(FroniusError { message: String::from_str("Could not un-block Battery!") })
    }
}

/// A day of the week.
#[derive(Clone, Copy, Debug, PartialEq, Eq, Structural)]
pub enum Weekday {
    Mon,
    Tue,
    Wed,
    Thu,
    Fri,
    Sat,
    Sun,
}

/// A point in local time, as far as a schedule needs it.
#[derive(Clone, Copy, Debug, PartialEq, Eq, Structural)]
pub struct ClockTime {
    pub weekday: Weekday,
    pub hour: u32,
    pub minute: u32,
}

/// `time` as "HH:MM".
pub open spec fn hour_minute(time: ClockTime) -> Seq<char> {
    zero_padded(decimal(time.hour as nat), 2) + ":"@ + zero_padded(decimal(time.minute as nat), 2)
}

/// Renders `time` as "HH:MM".
pub fn format_hour_minute(time: ClockTime) -> (r: String)
    ensures
        r@ == hour_minute(time),
{
    let hour = u64_to_decimal(time.hour as u64);
    let minute = u64_to_decimal(time.minute as u64);
    let mut r = zero_pad(hour.as_str(), 2);
    r.append(":");
    let m = zero_pad(minute.as_str(), 2);
    r.append(m.as_str());
    r
}

/// The days of `start` and of `end`.
pub open spec fn block_weekdays(start: ClockTime, end: ClockTime) -> Weekdays {
    Weekdays {
        monday: start.weekday == Weekday::Mon || end.weekday == Weekday::Mon,
        tuesday: start.weekday == Weekday::Tue || end.weekday == Weekday::Tue,
        wednesday: start.weekday == Weekday::Wed || end.weekday == Weekday::Wed,
        thursday: start.weekday == Weekday::Thu || end.weekday == Weekday::Thu,
        friday: start.weekday == Weekday::Fri || end.weekday == Weekday::Fri,
        saturday: start.weekday == Weekday::Sat || end.weekday == Weekday::Sat,
        sunday: start.weekday == Weekday::Sun || end.weekday == Weekday::Sun,
    }
}

/// A rule that forbids the battery to discharge from `start` to `end` (texts "HH:MM") on
/// `weekdays`.
pub open spec fn blocking_rule(start: Seq<char>, end: Seq<char>, weekdays: Weekdays) -> TimeOfUseView {
    TimeOfUseView {
        active: true,
        power: 0,
        schedule_type: ScheduleType::DischargeMax,
        start,
        end,
        weekdays,
    }
}

/// The schedule that blocks the battery from `start` to `end`: one rule when both lie on the
/// same day of the week, else one rule up to 23:59 and one from 00:00; every rule applies
/// to the days of both.
pub open spec fn blocking_schedule(start: ClockTime, end: ClockTime) -> Seq<TimeOfUseView> {
    let weekdays = block_weekdays(start, end);
    if start.weekday == end.weekday {
        seq![blocking_rule(hour_minute(start), hour_minute(end), weekdays)]
    } else {
        seq![
            blocking_rule(hour_minute(start), "23:59"@, weekdays),
            blocking_rule("00:00"@, hour_minute(end), weekdays),
        ]
    }
}

fn blocking_time_of_use(start: String, end: String, weekdays: Weekdays) -> (r: TimeOfUse)
    ensures
        r@ == blocking_rule(start@, end@, weekdays),
{
    TimeOfUse {
        active: true,
        power: 0,
        schedule_type: ScheduleType::DischargeMax,
        time_table: TimeTable { start, end },
        weekdays,
    }
}

/// The schedule that blocks the battery from `start` to `end` (see [`blocking_schedule`]).
pub fn times_of_use_for_block(start: ClockTime, end: ClockTime) -> (r: TimesOfUse)
    ensures
        r@ == blocking_schedule(start, end),
{
    let weekdays = Weekdays {
        monday: start.weekday == Weekday::Mon || end.weekday == Weekday::Mon,
        tuesday: start.weekday == Weekday::Tue || end.weekday == Weekday::Tue,
        wednesday: start.weekday == Weekday::Wed || end.weekday == Weekday::Wed,
        thursday: start.weekday == Weekday::Thu || end.weekday == Weekday::Thu,
        friday: start.weekday == Weekday::Fri || end.weekday == Weekday::Fri,
        saturday: start.weekday == Weekday::Sat || end.weekday == Weekday::Sat,
        sunday: start.weekday == Weekday::Sun || end.weekday == Weekday::Sun,
    };
    let mut time_of_use: Vec<TimeOfUse> = Vec::new();
    if start.weekday == end.weekday {
        time_of_use.push(
            blocking_time_of_use(format_hour_minute(start), format_hour_minute(end), weekdays),
        );
    } else {
        time_of_use.push(
            blocking_time_of_use(format_hour_minute(start), String::from_str("23:59"), weekdays),
        );
        time_of_use.push(
            blocking_time_of_use(String::from_str("00:00"), format_hour_minute(end), weekdays),
        );
    }
    let r = TimesOfUse { time_of_use };
    assert(r@ =~= blocking_schedule(start, end));
    r
}

/// The empty schedule, which leaves the battery unblocked.
pub fn empty_times_of_use() -> (r: TimesOfUse)
    ensures
        r@ == Seq::<TimeOfUseView>::empty(),
{
    let r = TimesOfUse { time_of_use: Vec::new() };
    assert(r@ =~= Seq::<TimeOfUseView>::empty());
    r
}

} // verus!
