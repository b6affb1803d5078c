use std::collections::HashMap;

use ocpp_central::fronius::{
    check_api_versions, check_battery_blocked, check_battery_unblocked, check_login,
    empty_times_of_use, format_hour_minute, times_of_use_for_block, ApiVersions, ClockTime,
    LoginResponse, ResultData, ScheduleType, TimesOfUseResponse, Weekday,
};

fn api_versions(commands_api: &str, config_api: &str) -> ApiVersions {
    ApiVersions {
        components_api: "1.0.0".to_owned(),
        commands_api: commands_api.to_owned(),
        config_api: config_api.to_owned(),
        setup_app_api: "1.0.0".to_owned(),
        setup_app_update_api: "1.0.0".to_owned(),
        status_api: "1.0.0".to_owned(),
        update_api: "1.0.0".to_owned(),
    }
}

fn write_response(write_success: Vec<&str>) -> TimesOfUseResponse {
    TimesOfUseResponse {
        errors: vec![],
        permission_failure: vec![],
        unknown_nodes: vec![],
        validation_errors: vec![],
        write_failure: vec![],
        write_success: write_success.into_iter().map(|s| s.to_owned()).collect(),
    }
}

#[test]
fn supported_api_versions() {
    assert!(check_api_versions(&api_versions("8.4.1", "10.2.0")).is_ok());
    let _unused: HashMap<String, String> = HashMap::new();
}

#[test]
fn unsupported_api_versions() {
    let e = check_api_versions(&api_versions("8.4.0", "10.2.0")).unwrap_err();
    assert_eq!(
        e.message,
        "Commands API version (8.4.0) OR config API version(10.2.0) does not match supported API versions (8.4.1, 10.2.0)!"
    );
    assert!(check_api_versions(&api_versions("8.4.1", "10.3.0")).is_err());
}

#[test]
fn login_result() {
    let ok = LoginResponse { result_data: ResultData { roles: vec!["USER".to_owned()] }, success: true };
    assert!(check_login(&ok).is_ok());
    let refused = LoginResponse { result_data: ResultData { roles: vec![] }, success: false };
    assert_eq!(check_login(&refused).unwrap_err().message, "Login failed");
}

#[test]
fn schedule_write_result() {
    assert!(check_battery_blocked(&write_response(vec!["timeofuse"])).is_ok());
    assert!(check_battery_unblocked(&write_response(vec!["other", "timeofuse"])).is_ok());
    assert_eq!(
        check_battery_blocked(&write_response(vec![])).unwrap_err().message,
        "Could not block Battery!"
    );
    assert_eq!(
        check_battery_unblocked(&write_response(vec!["timeofus"])).unwrap_err().message,
        "Could not un-block Battery!"
    );
}

#[test]
fn hour_minute_is_zero_padded() {
    assert_eq!(format_hour_minute(ClockTime { weekday: Weekday::Mon, hour: 7, minute: 5 }), "07:05");
    assert_eq!(format_hour_minute(ClockTime { weekday: Weekday::Mon, hour: 23, minute: 59 }), "23:59");
}

#[test]
fn block_within_one_day() {
    let schedule = times_of_use_for_block(
        ClockTime { weekday: Weekday::Fri, hour: 8, minute: 30 },
        ClockTime { weekday: Weekday::Fri, hour: 20, minute: 30 },
    );
    assert_eq!(schedule.time_of_use.len(), 1);
    let rule = &schedule.time_of_use[0];
    assert!(rule.active);
    assert_eq!(rule.power, 0);
    assert_eq!(rule.schedule_type, ScheduleType::DischargeMax);
    assert_eq!(rule.time_table.start, "08:30");
    assert_eq!(rule.time_table.end, "20:30");
    assert!(rule.weekdays.friday);
    assert!(!rule.weekdays.saturday && !rule.weekdays.monday);
}

#[test]
fn block_across_midnight() {
    let schedule = times_of_use_for_block(
        ClockTime { weekday: Weekday::Sun, hour: 20, minute: 0 },
        ClockTime { weekday: Weekday::Mon, hour: 8, minute: 0 },
    );
    assert_eq!(schedule.time_of_use.len(), 2);
    assert_eq!(schedule.time_of_use[0].time_table.start, "20:00");
    assert_eq!(schedule.time_of_use[0].time_table.end, "23:59");
    assert_eq!(schedule.time_of_use[1].time_table.start, "00:00");
    assert_eq!(schedule.time_of_use[1].time_table.end, "08:00");
    for rule in &schedule.time_of_use {
        assert!(rule.weekdays.sunday && rule.weekdays.monday);
        assert!(!rule.weekdays.tuesday);
    }
}

#[test]
fn unblocking_schedule_is_empty() {
    assert!(empty_times_of_use().time_of_use.is_empty());
}
