//! Properties that span several operations of the library: the exchange of requests with
//! the charge point, transactions, the smart charging decisions, the status table, the
//! digest authentication, the battery schedule and the reading of meter values.
use vstd::prelude::*;

use crate::central_system::{after_response, response_confirms};
use crate::charge_point_state::{
    after_take_pending, first_profile_with_id, first_with_transaction_id, same_transaction,
    stopped_transactions, taken_pending, without_profile, ChargePointStateView,
    RequestToSendView, Transaction,
};
use crate::charge_point_state::initial_state_view;
use crate::hooks::{
    authorization_applied, grid_profile_for, grid_profile_installed, keeps_max_current,
    max_current_updated, meter_values_applied, pv_profile_installed, pv_tx_profile,
    smart_charging_profiles_well_formed, ChargingPeriod, PvChargingCurrent,
    TX_GRID_BASED_CHARGING_PROFILE_ID, TX_PV_CHARGING_PROFILE_ID,
};
use crate::digest_auth::{authenticated, with_header_elements, DigestAuthView};
use crate::fronius::{blocking_schedule, hour_minute, ClockTime, ScheduleType, Weekday};
use crate::hooks::{
    status_notification_applied, status_notification_step, transition_action,
    TransitionAction,
};
use crate::types::{ChargePointStatus, SmartChargingMode};
use crate::ocpp_types::MessageTypeName;
use crate::meter_values::UnitOfMeasure;
use crate::messages::ChargingProfileView;
use crate::meter_values::{
    gives, is_per_phase, last_value, phase_values, phases_named, sample_ref, unit_factor,
    MeasurandKind, SampleRef, SampledValueHeader,
};
use crate::charge_point_state::PhaseMeasurand;

verus! {

/// A sequence loses length under `filter` as soon as one of its elements fails the
/// predicate.
proof fn lemma_filter_drops<A>(s: Seq<A>, pred: spec_fn(A) -> bool, k: int)
    requires
        0 <= k < s.len(),
        !pred(s[k]),
    ensures
        s.filter(pred).len() < s.len(),
    decreases s.len(),
{
    reveal_with_fuel(Seq::filter, 1);
    s.drop_last().lemma_filter_len(pred);
    if k < s.len() - 1 {
        assert(s.drop_last()[k] == s[k]);
        lemma_filter_drops(s.drop_last(), pred, k);
    }
}

/// `filter` keeps a sequence whose elements all meet the predicate.
proof fn lemma_filter_keeps_all<A>(s: Seq<A>, pred: spec_fn(A) -> bool)
    requires
        forall|j: int| 0 <= j < s.len() ==> pred(#[trigger] s[j]),
    ensures
        s.filter(pred) == s,
    decreases s.len(),
{
    reveal_with_fuel(Seq::filter, 1);
    if s.len() > 0 {
        let t = s.drop_last();
        assert forall|j: int| 0 <= j < t.len() implies pred(#[trigger] t[j]) by {
            assert(t[j] == s[j]);
        }
        lemma_filter_keeps_all(t, pred);
        assert(pred(s[s.len() - 1]));
        assert(t.push(s.last()) =~= s);
    }
}

/// `filter` drops exactly the element at `i` when it alone fails the predicate.
proof fn lemma_filter_removes_one<A>(s: Seq<A>, pred: spec_fn(A) -> bool, i: int)
    requires
        0 <= i < s.len(),
        !pred(s[i]),
        forall|j: int| 0 <= j < s.len() && j != i ==> pred(#[trigger] s[j]),
    ensures
        s.filter(pred) == s.remove(i),
    decreases s.len(),
{
    reveal_with_fuel(Seq::filter, 1);
    let t = s.drop_last();
    if i == s.len() - 1 {
        assert forall|j: int| 0 <= j < t.len() implies pred(#[trigger] t[j]) by {
            assert(t[j] == s[j]);
        }
        lemma_filter_keeps_all(t, pred);
        assert(s.remove(i) =~= t);
    } else {
        assert(t[i] == s[i]);
        assert forall|j: int| 0 <= j < t.len() && j != i implies pred(#[trigger] t[j]) by {
            assert(t[j] == s[j]);
        }
        lemma_filter_removes_one(t, pred, i);
        assert(pred(s[s.len() - 1]));
        assert(t.remove(i).push(s.last()) =~= s.remove(i));
    }
}

/// A transaction with id `id` at index `k` has a first one before or at it.
proof fn lemma_first_transaction_exists(s: Seq<Transaction>, id: i32, k: int)
    requires
        0 <= k < s.len(),
        s[k].transaction_id == id,
    ensures
        exists|i: int|
            0 <= i < s.len() && s[i].transaction_id == id && forall|j: int|
                0 <= j < i ==> s[j].transaction_id != id,
    decreases k,
{
    if exists|j: int| 0 <= j < k && s[j].transaction_id == id {
        let j = choose|j: int| 0 <= j < k && s[j].transaction_id == id;
        lemma_first_transaction_exists(s, id, j);
    } else {
        assert(forall|j: int| 0 <= j < k ==> s[j].transaction_id != id);
    }
}

/// The first element of `s` with id `id` when only its last element has that id.
proof fn lemma_first_profile_is_last(s: Seq<ChargingProfileView>, id: i32)
    requires
        s.len() > 0,
        s.last().charging_profile_id == id,
        forall|j: int| 0 <= j < s.len() - 1 ==> s[j].charging_profile_id != id,
    ensures
        first_profile_with_id(s, id) == Some((s.len() - 1) as int),
{
    let last = s.len() - 1;
    assert(s[last].charging_profile_id == id);
    let w = choose|i: int|
        0 <= i < s.len() && s[i].charging_profile_id == id && forall|j: int|
            0 <= j < i ==> s[j].charging_profile_id != id;
    assert(w == last) by {
        if w < last {
            assert(s[w].charging_profile_id != id);
        } else if w > last {
        }
    }
}

//-------------------------------------------------------------------------------------------------
// The exchange of requests: one request at a time.

/// At most one request awaits a response at any time: handing out the next request, and
/// handling a response before it, keep the number of requests in flight at one at most.
pub proof fn lemma_at_most_one_request_in_flight(
    s: ChargePointStateView,
    uuid: Seq<char>,
    t: crate::ocpp_types::MessageTypeName,
)
    requires
        s.requests_awaiting_confirmation.len() <= 1,
    ensures
        after_take_pending(s).requests_awaiting_confirmation.len() <= 1,
        after_take_pending(after_response(s, uuid, t)).requests_awaiting_confirmation.len() <= 1,
{
}

/// Handing out a request loses none: the queued requests and those in flight are, in order,
/// the same before and after.
pub proof fn lemma_handing_out_keeps_requests(s: ChargePointStateView)
    ensures
        after_take_pending(s).requests_to_send + after_take_pending(s).requests_awaiting_confirmation
            == s.requests_to_send + s.requests_awaiting_confirmation,
{
    if !(s.requests_awaiting_confirmation.len() > 0 || s.requests_to_send.len() == 0) {
        assert(s.requests_to_send.drop_last() + seq![s.requests_to_send.last()]
            =~= s.requests_to_send + s.requests_awaiting_confirmation);
    }
}

/// A response to the request in flight lets the next queued request go out: the last one
/// queued.
pub proof fn lemma_response_releases_next_request(
    s: ChargePointStateView,
    r: RequestToSendView,
    t: crate::ocpp_types::MessageTypeName,
)
    requires
        s.requests_awaiting_confirmation == seq![r],
        response_confirms(t),
        s.requests_to_send.len() > 0,
    ensures
        taken_pending(after_response(s, r.uuid, t)) == Some(s.requests_to_send.last()),
{
    let pred = |q: RequestToSendView| q.uuid != r.uuid;
    lemma_filter_drops(seq![r], pred, 0);
}

//-------------------------------------------------------------------------------------------------
// Transactions.

/// A transaction that was started can be stopped: once it runs, a stop with its id finds a
/// running transaction (the stop is accepted) and the running transactions shrink.
pub proof fn lemma_started_transaction_can_be_stopped(
    running: Seq<Transaction>,
    started: Transaction,
    meter_stop: i32,
)
    ensures
        first_with_transaction_id(running.push(started), started.transaction_id) is Some,
        stopped_transactions(running.push(started), started.transaction_id, meter_stop).len()
            < running.len() + 1,
{
    let s = running.push(started);
    let id = started.transaction_id;
    assert(s[running.len() as int].transaction_id == id);
    lemma_first_transaction_exists(s, id, running.len() as int);
    let i = first_with_transaction_id(s, id)->Some_0;
    let updated = Transaction { meter_value_stop: meter_stop, ..s[i] };
    let pred = |e: Transaction| !same_transaction(e, updated);
    assert(s.update(i, updated)[i] == updated);
    lemma_filter_drops(s.update(i, updated), pred, i);
}

/// When the running transactions have distinct ids, a stop removes exactly the
/// transaction with the stopped id, and only a stop of a running id changes anything.
pub proof fn lemma_stop_removes_exactly_the_transaction(s: Seq<Transaction>, id: i32, meter_stop: i32)
    requires
        forall|a: int, b: int|
            0 <= a < b < s.len() ==> #[trigger] s[a].transaction_id != #[trigger] s[b].transaction_id,
    ensures
        first_with_transaction_id(s, id) matches Some(i) ==> {
            &&& 0 <= i < s.len()
            &&& s[i].transaction_id == id
            &&& stopped_transactions(s, id, meter_stop) == s.remove(i)
        },
        first_with_transaction_id(s, id) is None ==> {
            &&& stopped_transactions(s, id, meter_stop) == s
            &&& forall|j: int| 0 <= j < s.len() ==> #[trigger] s[j].transaction_id != id
        },
{
    if let Some(i) = first_with_transaction_id(s, id) {
        let updated = Transaction { meter_value_stop: meter_stop, ..s[i] };
        let u = s.update(i, updated);
        let pred = |e: Transaction| !same_transaction(e, updated);
        assert(!pred(u[i]));
        assert forall|j: int| 0 <= j < u.len() && j != i implies pred(#[trigger] u[j]) by {
            assert(u[j] == s[j]);
            if j < i {
                assert(s[j].transaction_id != s[i].transaction_id);
            } else {
                assert(s[i].transaction_id != s[j].transaction_id);
            }
        }
        lemma_filter_removes_one(u, pred, i);
        assert(u.remove(i) =~= s.remove(i));
    } else {
        assert forall|j: int| 0 <= j < s.len() implies #[trigger] s[j].transaction_id != id by {
            if s[j].transaction_id == id {
                lemma_first_transaction_exists(s, id, j);
            }
        }
    }
}

/// A stop of a transaction that does not run changes nothing.
pub proof fn lemma_stopping_unknown_transaction_changes_nothing(
    running: Seq<Transaction>,
    id: i32,
    meter_stop: i32,
)
    requires
        forall|i: int| 0 <= i < running.len() ==> running[i].transaction_id != id,
    ensures
        stopped_transactions(running, id, meter_stop) == running,
{
}

//-------------------------------------------------------------------------------------------------
// Smart charging decisions.

/// The maximum current settles: updating it twice with the same limit reports a change at
/// most once, and the second update leaves the state as it is.
pub proof fn lemma_max_current_update_settles(
    s: ChargePointStateView,
    t: ChargePointStateView,
    u: ChargePointStateView,
    limit: i64,
    first: Option<i64>,
    second: Option<i64>,
)
    requires
        max_current_updated(s, t, limit, first),
        max_current_updated(t, u, limit, second),
    ensures
        second is None,
        u == t,
{
    assert(keeps_max_current(t, limit));
}

/// Installing the PV profile twice with the same current queues it once: the second
/// installation finds the first one in place and changes nothing.
pub proof fn lemma_pv_profile_install_settles(
    s: ChargePointStateView,
    t: ChargePointStateView,
    u: ChargePointStateView,
    limit: i64,
)
    requires
        pv_profile_installed(s, t, limit),
        pv_profile_installed(t, u, limit),
    ensures
        u == t,
{
    let existing = first_profile_with_id(s.active_charging_profiles, TX_PV_CHARGING_PROFILE_ID);
    if t != s {
        let profiles = if existing is Some {
            without_profile(s.active_charging_profiles, TX_PV_CHARGING_PROFILE_ID)
        } else {
            s.active_charging_profiles
        };
        assert forall|j: int| 0 <= j < profiles.len() implies profiles[j].charging_profile_id
            != TX_PV_CHARGING_PROFILE_ID by {
            if existing is Some {
                let pred = |p: ChargingProfileView| p.charging_profile_id
                    != TX_PV_CHARGING_PROFILE_ID;
                s.active_charging_profiles.lemma_filter_pred(pred, j);
            }
        }
        let installed = profiles.push(pv_tx_profile(limit));
        assert(installed.drop_last() =~= profiles);
        lemma_first_profile_is_last(installed, TX_PV_CHARGING_PROFILE_ID);
        assert(t.active_charging_profiles == installed);
        assert(installed[installed.len() - 1] == pv_tx_profile(limit));
    }
}

//-------------------------------------------------------------------------------------------------
// The shape of the installed profiles, on which the smart charging decisions rely.

/// Whether a profile has the periods its id calls for: two for the grid based profile, one
/// for the PV profile.
pub open spec fn profile_well_shaped(p: ChargingProfileView) -> bool {
    &&& p.charging_profile_id == TX_GRID_BASED_CHARGING_PROFILE_ID
        ==> p.charging_schedule.charging_schedule_period.len() >= 2
    &&& p.charging_profile_id == TX_PV_CHARGING_PROFILE_ID
        ==> p.charging_schedule.charging_schedule_period.len() >= 1
}

/// Whether every installed profile has the periods its id calls for.
pub open spec fn profiles_well_shaped(profiles: Seq<ChargingProfileView>) -> bool {
    forall|i: int| 0 <= i < profiles.len() ==> #[trigger] profile_well_shaped(profiles[i])
}

/// A profile with id `id` at index `k` has a first one before or at it.
proof fn lemma_first_profile_exists(s: Seq<ChargingProfileView>, id: i32, k: int)
    requires
        0 <= k < s.len(),
        s[k].charging_profile_id == id,
    ensures
        exists|i: int|
            0 <= i < s.len() && s[i].charging_profile_id == id && forall|j: int|
                0 <= j < i ==> s[j].charging_profile_id != id,
    decreases k,
{
    if exists|j: int| 0 <= j < k && s[j].charging_profile_id == id {
        let j = choose|j: int| 0 <= j < k && s[j].charging_profile_id == id;
        lemma_first_profile_exists(s, id, j);
    } else {
        assert(forall|j: int| 0 <= j < k ==> s[j].charging_profile_id != id);
    }
}

/// The first profile with id `id`, when there is one, lies within the sequence and has
/// that id.
proof fn lemma_first_profile_in_range(s: Seq<ChargingProfileView>, id: i32)
    ensures
        first_profile_with_id(s, id) matches Some(i) ==> 0 <= i < s.len()
            && s[i].charging_profile_id == id,
{
    if exists|k: int| 0 <= k < s.len() && s[k].charging_profile_id == id {
        let k = choose|k: int| 0 <= k < s.len() && s[k].charging_profile_id == id;
        lemma_first_profile_exists(s, id, k);
    }
}

/// Dropping the profiles with one id keeps the others well shaped.
proof fn lemma_without_profile_well_shaped(profiles: Seq<ChargingProfileView>, id: i32)
    requires
        profiles_well_shaped(profiles),
    ensures
        profiles_well_shaped(without_profile(profiles, id)),
{
    let pred = |p: ChargingProfileView| p.charging_profile_id != id;
    let kept = profiles.filter(pred);
    assert forall|i: int| 0 <= i < kept.len() implies #[trigger] profile_well_shaped(kept[i]) by {
        assert(kept.contains(kept[i]));
        profiles.lemma_filter_contains_rev(pred, kept[i]);
        let j = choose|j: int| 0 <= j < profiles.len() && profiles[j] == kept[i];
        assert(profile_well_shaped(profiles[j]));
    }
}

/// No profile is installed at first, so the profiles are well shaped.
pub proof fn lemma_initial_profiles_well_shaped()
    ensures
        profiles_well_shaped(initial_state_view().active_charging_profiles),
{
}

/// Well shaped profiles give the smart charging decisions the periods they read: the state
/// meets their precondition.
pub proof fn lemma_well_shaped_profiles_are_well_formed(s: ChargePointStateView)
    requires
        profiles_well_shaped(s.active_charging_profiles),
    ensures
        smart_charging_profiles_well_formed(s),
{
    lemma_first_profile_in_range(s.active_charging_profiles, TX_GRID_BASED_CHARGING_PROFILE_ID);
    lemma_first_profile_in_range(s.active_charging_profiles, TX_PV_CHARGING_PROFILE_ID);
    if let Some(i) = first_profile_with_id(
        s.active_charging_profiles,
        TX_GRID_BASED_CHARGING_PROFILE_ID,
    ) {
        assert(profile_well_shaped(s.active_charging_profiles[i]));
    }
    if let Some(i) = first_profile_with_id(s.active_charging_profiles, TX_PV_CHARGING_PROFILE_ID) {
        assert(profile_well_shaped(s.active_charging_profiles[i]));
    }
}

/// The decisions on meter values keep the profiles well shaped.
pub proof fn lemma_meter_values_keep_profiles_well_shaped(
    s: ChargePointStateView,
    t: ChargePointStateView,
    max_current: Option<i64>,
    pv: PvChargingCurrent,
)
    requires
        profiles_well_shaped(s.active_charging_profiles),
        meter_values_applied(s, t, max_current, pv),
    ensures
        profiles_well_shaped(t.active_charging_profiles),
{
    lemma_without_profile_well_shaped(s.active_charging_profiles, TX_PV_CHARGING_PROFILE_ID);
    if t.active_charging_profiles != s.active_charging_profiles {
        if let PvChargingCurrent::Limit(l) = pv {
            let existing = first_profile_with_id(
                s.active_charging_profiles,
                TX_PV_CHARGING_PROFILE_ID,
            );
            let profiles = if existing is Some {
                without_profile(s.active_charging_profiles, TX_PV_CHARGING_PROFILE_ID)
            } else {
                s.active_charging_profiles
            };
            let installed = profiles.push(pv_tx_profile(l));
            assert(t.active_charging_profiles == installed);
            assert forall|i: int| 0 <= i < installed.len() implies #[trigger] profile_well_shaped(
                installed[i],
            ) by {
                if i < profiles.len() {
                    assert(installed[i] == profiles[i]);
                }
            }
        }
    }
}

/// Installing the grid based profile keeps the profiles well shaped.
pub proof fn lemma_grid_profile_keeps_profiles_well_shaped(
    s: ChargePointStateView,
    t: ChargePointStateView,
    max_current: i64,
    period: ChargingPeriod,
    now: i128,
)
    requires
        profiles_well_shaped(s.active_charging_profiles),
        grid_profile_installed(s, t, grid_profile_for(s, max_current, period, now)),
    ensures
        profiles_well_shaped(t.active_charging_profiles),
{
    let profiles = s.active_charging_profiles;
    let profile = grid_profile_for(s, max_current, period, now);
    lemma_first_profile_in_range(profiles, TX_GRID_BASED_CHARGING_PROFILE_ID);
    if let Some(i) = first_profile_with_id(profiles, TX_GRID_BASED_CHARGING_PROFILE_ID) {
        assert(profile_well_shaped(profiles[i]));
    }
    assert(profile_well_shaped(profile));
    let installed = profiles.push(profile);
    assert forall|i: int| 0 <= i < installed.len() implies #[trigger] profile_well_shaped(
        installed[i],
    ) by {
        if i < profiles.len() {
            assert(installed[i] == profiles[i]);
        }
    }
}

/// An authorization leaves the installed profiles, the running transactions, the maximum
/// current and the requests in flight as they are.
pub proof fn lemma_authorization_keeps_profiles_and_transactions(
    s: ChargePointStateView,
    t: ChargePointStateView,
    mode: SmartChargingMode,
    now: i128,
)
    requires
        authorization_applied(s, t, mode, now),
    ensures
        t.active_charging_profiles == s.active_charging_profiles,
        t.running_transactions == s.running_transactions,
        t.max_current == s.max_current,
        t.requests_awaiting_confirmation == s.requests_awaiting_confirmation,
{
}

/// After an authorization of a tag that charges with PV overproduction, PV overproduction
/// charging is the mode, and the next meter values that allow a PV current install the PV
/// profile with that current (unless the one in place differs from it by less than 1.0 A),
/// whatever the maximum current.
pub proof fn lemma_pv_authorization_leads_to_pv_profile(
    s: ChargePointStateView,
    t: ChargePointStateView,
    u: ChargePointStateView,
    now: i128,
    max_current: Option<i64>,
    limit: i64,
)
    requires
        authorization_applied(s, t, SmartChargingMode::PVOverProduction, now),
        meter_values_applied(t, u, max_current, PvChargingCurrent::Limit(limit)),
    ensures
        t.smart_charging_mode == SmartChargingMode::PVOverProduction,
        pv_profile_installed(t, u, limit),
{
}

//-------------------------------------------------------------------------------------------------
// The table of status transitions.

/// Whether the table of transitions knows changes from `status`: all statuses but
/// Reserved, Unavailable and Faulted.
pub open spec fn has_transitions(status: ChargePointStatus) -> bool {
    !(status == ChargePointStatus::Reserved || status == ChargePointStatus::Unavailable
        || status == ChargePointStatus::Faulted)
}

/// Whether the charge point charges or is about to: Preparing, Charging, SuspendedEV or
/// SuspendedEVSE.
pub open spec fn in_charging_session(status: ChargePointStatus) -> bool {
    status == ChargePointStatus::Preparing || status == ChargePointStatus::Charging
        || status == ChargePointStatus::SuspendedEV || status == ChargePointStatus::SuspendedEVSE
}

/// The battery is blocked exactly when charging starts: a change to Charging from
/// Available, Preparing, SuspendedEV or SuspendedEVSE.
pub proof fn lemma_battery_blocked_when_charging_starts(
    from: ChargePointStatus,
    to: ChargePointStatus,
)
    ensures
        transition_action(from, to) == Some(TransitionAction::BlockBattery) <==> (to
            == ChargePointStatus::Charging && (from == ChargePointStatus::Available
            || from == ChargePointStatus::Preparing || from == ChargePointStatus::SuspendedEV
            || from == ChargePointStatus::SuspendedEVSE)),
{
}

/// The profiles are cleared (and the battery unblocked) exactly when a charging session
/// ends: a change from Preparing, Charging, SuspendedEV or SuspendedEVSE to Available or
/// Finishing, or from Finishing to Available.
pub proof fn lemma_profiles_cleared_when_session_ends(
    from: ChargePointStatus,
    to: ChargePointStatus,
)
    ensures
        transition_action(from, to) == Some(TransitionAction::UnblockBatteryAndClearProfiles)
            <==> ((in_charging_session(from) && (to == ChargePointStatus::Available || to
            == ChargePointStatus::Finishing)) || (from == ChargePointStatus::Finishing && to
            == ChargePointStatus::Available)),
{
}

/// The recorded status follows the reported one, as long as the recorded status is one
/// that the table of transitions knows (or none is recorded yet).
pub proof fn lemma_recorded_status_follows_report(
    s: ChargePointStateView,
    t: ChargePointStateView,
    status: ChargePointStatus,
)
    requires
        s.charge_point_status matches Some(current) ==> has_transitions(current),
        status_notification_applied(s, t, status, status_notification_step(s, status)),
    ensures
        t.charge_point_status == Some(status),
{
}

/// A status notification never changes the running transactions, the installed profiles,
/// the maximum current or the requests in flight.
pub proof fn lemma_status_notification_keeps_transactions_and_profiles(
    s: ChargePointStateView,
    t: ChargePointStateView,
    status: ChargePointStatus,
)
    requires
        status_notification_applied(s, t, status, status_notification_step(s, status)),
    ensures
        t.running_transactions == s.running_transactions,
        t.active_charging_profiles == s.active_charging_profiles,
        t.max_current == s.max_current,
        t.requests_awaiting_confirmation == s.requests_awaiting_confirmation,
{
}

//-------------------------------------------------------------------------------------------------
// Digest authentication.

/// The nonce counter counts the authenticated requests: it goes up by one exactly when a
/// header is built.
pub proof fn lemma_counter_counts_authenticated_requests(
    d: DigestAuthView,
    uri: Seq<char>,
    http_method: Seq<char>,
    timestamp: Seq<char>,
)
    ensures
        authenticated(d, uri, http_method, timestamp).1.nc == d.nc + if authenticated(
            d,
            uri,
            http_method,
            timestamp,
        ).0 is Some {
            1nat
        } else {
            0nat
        },
{
}

/// A header is built exactly when algorithm, nonce, realm and qop are known, and a built
/// header completes the handshake that later requests need.
pub proof fn lemma_header_built_from_known_fields(
    d: DigestAuthView,
    uri: Seq<char>,
    http_method: Seq<char>,
    timestamp: Seq<char>,
)
    ensures
        authenticated(d, uri, http_method, timestamp).0 is Some <==> (d.algorithm is Some
            && d.nonce is Some && d.realm is Some && d.qop is Some),
        authenticated(d, uri, http_method, timestamp).0 is Some ==> authenticated(
            d,
            uri,
            http_method,
            timestamp,
        ).1.response is Some,
{
}

/// Reading the fields of a challenge never touches the credentials, the counter, the
/// cnonce or the response.
pub proof fn lemma_challenge_keeps_credentials(d: DigestAuthView, elements: Seq<Seq<char>>)
    ensures
        with_header_elements(d, elements).username == d.username,
        with_header_elements(d, elements).password == d.password,
        with_header_elements(d, elements).nc == d.nc,
        with_header_elements(d, elements).cnonce == d.cnonce,
        with_header_elements(d, elements).response == d.response,
    decreases elements.len(),
{
    if elements.len() > 0 {
        lemma_challenge_keeps_credentials(d, elements.drop_last());
    }
}

//-------------------------------------------------------------------------------------------------
// The battery schedule.

/// The schedule that blocks the battery forbids it to discharge from the start to the end:
/// every rule is active, caps the discharge at zero and applies to the days of both, the
/// first rule begins at the start and the last one ends at the end.
pub proof fn lemma_blocking_schedule_forbids_discharge(start: ClockTime, end: ClockTime)
    ensures
        blocking_schedule(start, end).len() >= 1,
        blocking_schedule(start, end)[0].start == hour_minute(start),
        blocking_schedule(start, end).last().end == hour_minute(end),
        forall|i: int|
            0 <= i < blocking_schedule(start, end).len() ==> {
                let rule = #[trigger] blocking_schedule(start, end)[i];
                &&& rule.active
                &&& rule.power == 0
                &&& rule.schedule_type == ScheduleType::DischargeMax
                &&& weekday_set(rule.weekdays, start.weekday)
                &&& weekday_set(rule.weekdays, end.weekday)
            },
{
}

/// Whether `weekdays` includes `day`.
pub open spec fn weekday_set(weekdays: crate::fronius::Weekdays, day: Weekday) -> bool {
    match day {
        Weekday::Mon => weekdays.monday,
        Weekday::Tue => weekdays.tuesday,
        Weekday::Wed => weekdays.wednesday,
        Weekday::Thu => weekdays.thursday,
        Weekday::Fri => weekdays.friday,
        Weekday::Sat => weekdays.saturday,
        Weekday::Sun => weekdays.sunday,
    }
}


//-------------------------------------------------------------------------------------------------
// Reading meter values.

/// The value that a reading holds for a quantity measured once comes from the last sampled
/// value that gives that quantity, scaled for its unit; it holds none when no sampled value
/// gives one.
pub proof fn lemma_single_value_is_given_last(s: Seq<SampledValueHeader>, k: MeasurandKind)
    requires
        s.len() <= usize::MAX,
    ensures
        last_value(s, k) matches Some(r) ==> {
            &&& r.index < s.len()
            &&& gives(s[r.index as int], k)
            &&& r.factor == unit_factor(s[r.index as int].unit)
            &&& forall|j: int| r.index < j < s.len() ==> !gives(#[trigger] s[j], k)
        },
        last_value(s, k) is None ==> forall|j: int| 0 <= j < s.len() ==> !gives(#[trigger] s[j], k),
    decreases s.len(),
{
    if s.len() > 0 {
        let n = s.len() - 1;
        if gives(s.last(), k) {
            assert(last_value(s, k) == Some(sample_ref(s, n)));
            assert(sample_ref(s, n).index == n);
        } else {
            let t = s.drop_last();
            lemma_single_value_is_given_last(t, k);
            assert(last_value(s, k) == last_value(t, k));
            assert forall|j: int| 0 <= j < t.len() implies #[trigger] t[j] == s[j] by {}
            assert forall|j: int| 0 <= j < s.len() && last_value(s, k) is None implies !gives(
                #[trigger] s[j],
                k,
            ) by {
                if j < n {
                    assert(t[j] == s[j]);
                }
            }
            if last_value(t, k) is Some {
                let r = last_value(t, k)->Some_0;
                assert(t[r.index as int] == s[r.index as int]);
                assert forall|j: int| r.index < j < s.len() implies !gives(#[trigger] s[j], k) by {
                    if j < n {
                        assert(t[j] == s[j]);
                    }
                }
            }
        }
    }
}

/// Whether the value `m` of `k` comes from a sampled value of `s` that gives `k`, scaled for
/// its unit and with its phase.
pub open spec fn comes_from_sample(
    s: Seq<SampledValueHeader>,
    k: MeasurandKind,
    m: PhaseMeasurand<SampleRef>,
) -> bool {
    &&& m.value.index < s.len()
    &&& gives(s[m.value.index as int], k)
    &&& m.value.factor == unit_factor(s[m.value.index as int].unit)
    &&& m.phase == s[m.value.index as int].phase.unwrap()
}

/// Each value of `phase_values(s, k)` comes from a sampled value of `s` that gives `k`.
proof fn lemma_phase_values_come_from_their_samples(s: Seq<SampledValueHeader>, k: MeasurandKind)
    requires
        s.len() <= usize::MAX,
    ensures
        forall|i: int|
            0 <= i < phase_values(s, k).len() ==> comes_from_sample(
                s,
                k,
                #[trigger] phase_values(s, k)[i],
            ),
    decreases s.len(),
{
    if s.len() > 0 {
        let t = s.drop_last();
        let n = s.len() - 1;
        lemma_phase_values_come_from_their_samples(t, k);
        let pt = phase_values(t, k);
        let ps = phase_values(s, k);
        assert forall|i: int| 0 <= i < ps.len() implies comes_from_sample(s, k, #[trigger] ps[i]) by {
            if i < pt.len() {
                assert(ps[i] == pt[i]);
                let idx = pt[i].value.index as int;
                assert(t[idx] == s[idx]);
            } else {
                assert(sample_ref(s, n).index == n);
            }
        }
    }
}

/// The values of `phase_values(s, k)` come in the order of their sampled values.
proof fn lemma_phase_values_in_order(s: Seq<SampledValueHeader>, k: MeasurandKind)
    requires
        s.len() <= usize::MAX,
    ensures
        forall|i: int, j: int|
            0 <= i < j < phase_values(s, k).len() ==> #[trigger] phase_values(s, k)[i].value.index
                < #[trigger] phase_values(s, k)[j].value.index,
    decreases s.len(),
{
    if s.len() > 0 {
        let t = s.drop_last();
        let n = s.len() - 1;
        lemma_phase_values_in_order(t, k);
        lemma_phase_values_come_from_their_samples(t, k);
        let pt = phase_values(t, k);
        let ps = phase_values(s, k);
        if gives(s.last(), k) {
            assert(sample_ref(s, n).index == n);
            assert forall|i: int, j: int| 0 <= i < j < ps.len() implies #[trigger] ps[i].value.index
                < #[trigger] ps[j].value.index by {
                assert(ps[i] == pt[i]);
                if j < pt.len() {
                    assert(ps[j] == pt[j]);
                } else {
                    assert(pt[i].value.index < t.len());
                }
            }
        }
    }
}

/// Every sampled value of `s` that gives `k` has its value in `phase_values(s, k)`.
proof fn lemma_phase_values_complete(s: Seq<SampledValueHeader>, k: MeasurandKind)
    requires
        s.len() <= usize::MAX,
    ensures
        forall|j: int|
            0 <= j < s.len() && gives(#[trigger] s[j], k) ==> exists|i: int|
                0 <= i < phase_values(s, k).len() && phase_values(s, k)[i].value.index == j,
    decreases s.len(),
{
    if s.len() > 0 {
        let t = s.drop_last();
        let n = s.len() - 1;
        lemma_phase_values_complete(t, k);
        let pt = phase_values(t, k);
        let ps = phase_values(s, k);
        assert forall|j: int| 0 <= j < s.len() && gives(#[trigger] s[j], k) implies exists|i: int|
            0 <= i < ps.len() && ps[i].value.index == j by {
            if j < n {
                assert(t[j] == s[j]);
                assert(gives(t[j], k));
                let i = choose|i: int| 0 <= i < pt.len() && pt[i].value.index == j;
                assert(ps[i] == pt[i]);
            } else {
                assert(sample_ref(s, n).index == n);
                assert(ps[pt.len() as int].value.index == j);
            }
        }
    }
}

/// The values that a reading holds for a quantity measured per phase are those of the
/// sampled values that give that quantity, each once, in their order, with their phase.
pub proof fn lemma_phase_values_are_given_in_order(s: Seq<SampledValueHeader>, k: MeasurandKind)
    requires
        s.len() <= usize::MAX,
    ensures
        forall|i: int|
            0 <= i < phase_values(s, k).len() ==> comes_from_sample(
                s,
                k,
                #[trigger] phase_values(s, k)[i],
            ),
        forall|i: int, j: int|
            0 <= i < j < phase_values(s, k).len() ==> #[trigger] phase_values(s, k)[i].value.index
                < #[trigger] phase_values(s, k)[j].value.index,
        forall|j: int|
            0 <= j < s.len() && gives(#[trigger] s[j], k) ==> exists|i: int|
                0 <= i < phase_values(s, k).len() && phase_values(s, k)[i].value.index == j,
{
    lemma_phase_values_come_from_their_samples(s, k);
    lemma_phase_values_in_order(s, k);
    lemma_phase_values_complete(s, k);
}


/// A sampled value whose text is no number is passed over: no value of a reading comes from
/// it, and whether it names a phase does not matter to the precondition of reading, whatever
/// it claims to measure. Only a number of a quantity measured per phase must name its phase.
pub proof fn lemma_unreadable_samples_are_ignored(
    s: Seq<SampledValueHeader>,
    j: int,
    k: MeasurandKind,
    h: SampledValueHeader,
)
    requires
        s.len() <= usize::MAX,
        0 <= j < s.len(),
        !s[j].is_number,
        !h.is_number,
    ensures
        forall|i: int|
            0 <= i < phase_values(s, k).len() ==> #[trigger] phase_values(s, k)[i].value.index
                != j,
        last_value(s, k) matches Some(r) ==> r.index != j,
        phases_named(s.update(j, h)) == phases_named(s),
{
    lemma_phase_values_come_from_their_samples(s, k);
    lemma_single_value_is_given_last(s, k);
    assert forall|i: int| 0 <= i < phase_values(s, k).len() implies #[trigger] phase_values(
        s,
        k,
    )[i].value.index != j by {
        assert(comes_from_sample(s, k, phase_values(s, k)[i]));
    }
    let u = s.update(j, h);
    if phases_named(s) {
        assert forall|i: int|
            0 <= i < u.len() && u[i].is_number && (u[i].measurand matches Some(m) && is_per_phase(
                m,
            )) implies #[trigger] u[i].phase is Some by {
            assert(i != j);
            assert(u[i] == s[i]);
        }
    }
    if phases_named(u) {
        assert forall|i: int|
            0 <= i < s.len() && s[i].is_number && (s[i].measurand matches Some(m) && is_per_phase(
                m,
            )) implies #[trigger] s[i].phase is Some by {
            assert(i != j);
            assert(u[i] == s[i]);
        }
    }
}


//-------------------------------------------------------------------------------------------------
// Laws stated against literal values.

/// The battery is unblocked without clearing the profiles exactly when charging pauses: a
/// change from Charging to SuspendedEV or SuspendedEVSE.
pub proof fn lemma_battery_unblocked_when_charging_pauses(
    from: ChargePointStatus,
    to: ChargePointStatus,
)
    ensures
        transition_action(from, to) == Some(TransitionAction::UnblockBattery) <==> (from
            == ChargePointStatus::Charging && (to == ChargePointStatus::SuspendedEV || to
            == ChargePointStatus::SuspendedEVSE)),
{
}

/// The table knows changes from every status but Reserved, Unavailable and Faulted.
pub proof fn lemma_statuses_without_transitions(from: ChargePointStatus, to: ChargePointStatus)
    ensures
        transition_action(from, to) is None <==> (from == ChargePointStatus::Reserved || from
            == ChargePointStatus::Unavailable || from == ChargePointStatus::Faulted),
{
}

/// A notification that repeats the recorded status changes nothing about the battery or
/// the profiles: its action, if the table knows one, is no action.
pub proof fn lemma_repeated_status_takes_no_action(status: ChargePointStatus)
    ensures
        transition_action(status, status) is None || transition_action(status, status) == Some(
            TransitionAction::NoAction,
        ),
{
}

/// Only the kilo units of power and reactive energy (kW, kVA, kvar, kvarh) scale a sampled
/// number by a thousand; every other unit (Wh and kWh among them), and no unit, keeps it.
pub proof fn lemma_only_kilo_units_scale(unit: Option<UnitOfMeasure>)
    ensures
        unit_factor(unit) == 1000 <==> (unit == Some(UnitOfMeasure::Kw) || unit == Some(
            UnitOfMeasure::Kva,
        ) || unit == Some(UnitOfMeasure::Kvar) || unit == Some(UnitOfMeasure::Kvarh)),
        unit_factor(unit) != 1000 ==> unit_factor(unit) == 1,
        unit_factor(Some(UnitOfMeasure::Wh)) == 1,
        unit_factor(Some(UnitOfMeasure::KWh)) == 1,
        unit_factor(None) == 1,
{
}

/// A value of a reading taken from a sampled value in a unit other than the kilo units of
/// power and reactive energy is the sampled number itself.
pub proof fn lemma_non_kilo_values_are_unscaled(s: Seq<SampledValueHeader>, k: MeasurandKind)
    requires
        s.len() <= usize::MAX,
    ensures
        last_value(s, k) matches Some(r) ==> (r.factor == 1 <==> !(s[r.index as int].unit
            == Some(UnitOfMeasure::Kw) || s[r.index as int].unit == Some(UnitOfMeasure::Kva)
            || s[r.index as int].unit == Some(UnitOfMeasure::Kvar) || s[r.index as int].unit
            == Some(UnitOfMeasure::Kvarh))),
{
    lemma_single_value_is_given_last(s, k);
    if let Some(r) = last_value(s, k) {
        lemma_only_kilo_units_scale(s[r.index as int].unit);
    }
}

/// Every rule of the schedule that blocks the battery applies on exactly the days of the
/// week of its start and of its end, and on no other.
pub proof fn lemma_blocking_schedule_applies_on_days_of_start_and_end(
    start: ClockTime,
    end: ClockTime,
)
    ensures
        forall|i: int, d: Weekday|
            0 <= i < blocking_schedule(start, end).len() ==> (#[trigger] weekday_set(
                blocking_schedule(start, end)[i].weekdays,
                d,
            ) <==> (d == start.weekday || d == end.weekday)),
{
    assert forall|i: int, d: Weekday| 0 <= i < blocking_schedule(start, end).len() implies (
    #[trigger] weekday_set(blocking_schedule(start, end)[i].weekdays, d) <==> (d
        == start.weekday || d == end.weekday)) by {
        match d {
            Weekday::Mon => {},
            Weekday::Tue => {},
            Weekday::Wed => {},
            Weekday::Thu => {},
            Weekday::Fri => {},
            Weekday::Sat => {},
            Weekday::Sun => {},
        }
    }
}

/// Each action is named in frames by its OCPP 1.6 action name.
pub proof fn lemma_action_names()
    ensures
        MessageTypeName::Authorize.name_view() == "Authorize"@,
        MessageTypeName::BootNotification.name_view() == "BootNotification"@,
        MessageTypeName::DataTransfer.name_view() == "DataTransfer"@,
        MessageTypeName::DiagnosticsStatusNotification.name_view()
            == "DiagnosticsStatusNotification"@,
        MessageTypeName::FirmwareStatusNotification.name_view() == "FirmwareStatusNotification"@,
        MessageTypeName::Heartbeat.name_view() == "Heartbeat"@,
        MessageTypeName::MeterValues.name_view() == "MeterValues"@,
        MessageTypeName::StartTransaction.name_view() == "StartTransaction"@,
        MessageTypeName::StatusNotification.name_view() == "StatusNotification"@,
        MessageTypeName::StopTransaction.name_view() == "StopTransaction"@,
        MessageTypeName::LogStatusNotification.name_view() == "LogStatusNotification"@,
        MessageTypeName::SecurityEventNotification.name_view() == "SecurityEventNotification"@,
        MessageTypeName::SignedFirmwareStatusNotification.name_view()
            == "SignedFirmwareStatusNotification"@,
        MessageTypeName::RemoteStartTransaction.name_view() == "RemoteStartTransaction"@,
        MessageTypeName::RemoteStopTransaction.name_view() == "RemoteStopTransaction"@,
        MessageTypeName::TriggerMessage.name_view() == "TriggerMessage"@,
        MessageTypeName::SetChargingProfile.name_view() == "SetChargingProfile"@,
        MessageTypeName::GetDiagnostics.name_view() == "GetDiagnostics"@,
        MessageTypeName::ChangeConfiguration.name_view() == "ChangeConfiguration"@,
        MessageTypeName::ClearChargingProfile.name_view() == "ClearChargingProfile"@,
{
}

} // verus!
