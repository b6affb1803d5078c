//! State that the central system keeps about the connected charge point.
use vstd::prelude::*;

use crate::messages::{ChargingProfile, ChargingProfileView, OcppRequest, OcppRequestView};
use crate::ocpp_types::MessageTypeName;
use crate::types::{ChargePointStatus, Phase, SmartChargingMode};

verus! {

/// A transaction that the charge point started.
#[derive(Clone, Debug, PartialEq, Eq)]
pub struct Transaction {
    pub id_tag: Option<String>,
    pub transaction_id: i32,
    pub meter_value_start: i32,
    pub meter_value_stop: i32,
}

impl Transaction {
    /// A copy of the transaction.
    pub fn copy_of(&self) -> (r: Self)
        ensures
            r == *self,
    {
        let id_tag = match &self.id_tag {
            Some(t) => Some(t.clone()),
            None => None,
        };
        Transaction {
            id_tag,
            transaction_id: self.transaction_id,
            meter_value_start: self.meter_value_start,
            meter_value_stop: self.meter_value_stop,
        }
    }
}

/// A request that is queued for the charge point or awaits its response.
#[derive(Clone, Debug, PartialEq, Eq)]
pub struct RequestToSend {
    pub uuid: String,
    pub message_type: MessageTypeName,
    pub payload: OcppRequest,
}

/// Mathematical value of a [`RequestToSend`].
pub struct RequestToSendView {
    pub uuid: Seq<char>,
    pub message_type: MessageTypeName,
    pub payload: OcppRequestView,
}

impl View for RequestToSend {
    type V = RequestToSendView;

    open spec fn view(&self) -> RequestToSendView {
        RequestToSendView {
            uuid: self.uuid@,
            message_type: self.message_type,
            payload: self.payload@,
        }
    }
}

impl RequestToSend {
    /// A copy of the request.
    pub fn copy_of(&self) -> (r: Self)
        ensures
            r@ == self@,
    {
        RequestToSend {
            uuid: self.uuid.clone(),
            message_type: self.message_type,
            payload: self.payload.copy_of(),
        }
    }
}

/// The views of a sequence of requests.
pub open spec fn request_views(s: Seq<RequestToSend>) -> Seq<RequestToSendView> {
    s.map_values(|r: RequestToSend| r@)
}

/// The views of a sequence of charging profiles.
pub open spec fn profile_views(s: Seq<ChargingProfile>) -> Seq<ChargingProfileView> {
    s.map_values(|p: ChargingProfile| p@)
}

/// `s` without the requests whose uuid is `uuid`.
pub open spec fn without_uuid(s: Seq<RequestToSendView>, uuid: Seq<char>) -> Seq<RequestToSendView> {
    s.filter(|r: RequestToSendView| r.uuid != uuid)
}

/// `s` without the profiles whose id is `id`.
pub open spec fn without_profile(s: Seq<ChargingProfileView>, id: i32) -> Seq<ChargingProfileView> {
    s.filter(|p: ChargingProfileView| p.charging_profile_id != id)
}

/// Whether two transactions have equal fields.
pub open spec fn same_transaction(a: Transaction, b: Transaction) -> bool {
    &&& a.id_tag.deep_view() == b.id_tag.deep_view()
    &&& a.transaction_id == b.transaction_id
    &&& a.meter_value_start == b.meter_value_start
    &&& a.meter_value_stop == b.meter_value_stop
}

/// Index of the first transaction of `s` with id `id`, if any.
pub open spec fn first_with_transaction_id(s: Seq<Transaction>, id: i32) -> Option<int> {
    if exists|i: int| 0 <= i < s.len() && s[i].transaction_id == id {
        Some(
            choose|i: int|
                0 <= i < s.len() && s[i].transaction_id == id && forall|j: int|
                    0 <= j < i ==> s[j].transaction_id != id,
        )
    } else {
        None
    }
}

/// The running transactions after the charge point stopped transaction `id` with meter
/// value `meter_stop`: the first transaction with that id gets the meter value, then every
/// transaction equal to the updated one is dropped.
pub open spec fn stopped_transactions(s: Seq<Transaction>, id: i32, meter_stop: i32) -> Seq<
    Transaction,
> {
    match first_with_transaction_id(s, id) {
        None => s,
        Some(i) => {
            let updated = Transaction { meter_value_stop: meter_stop, ..s[i] };
            s.update(i, updated).filter(|e: Transaction| !same_transaction(e, updated))
        },
    }
}

/// Whether two transactions have equal fields.
pub fn transactions_equal(a: &Transaction, b: &Transaction) -> (r: bool)
    ensures
        r == same_transaction(*a, *b),
{
    let tags_equal = match (&a.id_tag, &b.id_tag) {
        (Some(x), Some(y)) => *x == *y,
        (None, None) => true,
        _ => false,
    };
    tags_equal && a.transaction_id == b.transaction_id && a.meter_value_start
        == b.meter_value_start && a.meter_value_stop == b.meter_value_stop
}

/// Index of the first element of `s` with uuid `uuid`, if any.
pub open spec fn first_with_uuid(s: Seq<RequestToSendView>, uuid: Seq<char>) -> Option<int> {
    if exists|i: int| 0 <= i < s.len() && s[i].uuid == uuid {
        Some(
            choose|i: int|
                0 <= i < s.len() && s[i].uuid == uuid && forall|j: int|
                    0 <= j < i ==> s[j].uuid != uuid,
        )
    } else {
        None
    }
}

/// Index of the first profile of `s` with id `id`, if any.
pub open spec fn first_profile_with_id(s: Seq<ChargingProfileView>, id: i32) -> Option<int> {
    if exists|i: int| 0 <= i < s.len() && s[i].charging_profile_id == id {
        Some(
            choose|i: int|
                0 <= i < s.len() && s[i].charging_profile_id == id && forall|j: int|
                    0 <= j < i ==> s[j].charging_profile_id != id,
        )
    } else {
        None
    }
}

/// A measured value of one phase.
#[derive(Clone, Copy, Debug, PartialEq, Eq)]
pub struct PhaseMeasurand<T> {
    pub value: T,
    pub phase: Phase,
}

/// Measured values of several phases.
#[derive(Clone, Debug, PartialEq, Eq)]
pub struct MultiPhaseMeasurand<T> {
    pub measurands: Vec<PhaseMeasurand<T>>,
}

/// The values of the measurands of `s` whose phase is one of `phases`, in order.
pub open spec fn values_of_phases<T>(s: Seq<PhaseMeasurand<T>>, phases: Seq<Phase>) -> Seq<T>
    decreases s.len(),
{
    if s.len() == 0 {
        Seq::empty()
    } else {
        let rest = values_of_phases(s.drop_last(), phases);
        if phases.contains(s.last().phase) {
            rest.push(s.last().value)
        } else {
            rest
        }
    }
}

impl<T: Copy> MultiPhaseMeasurand<T> {
    /// Measured values of the given phases.
    pub fn new(measurands: Vec<PhaseMeasurand<T>>) -> (r: Self)
        ensures
            r.measurands@ == measurands@,
    {
        Self { measurands }
    }

    /// No measured value.
    pub fn empty() -> (r: Self)
        ensures
            r.measurands@ == Seq::<PhaseMeasurand<T>>::empty(),
    {
        Self { measurands: Vec::new() }
    }

    /// The first measurand of `phase`, if any.
    pub fn get_phase(&self, phase: Phase) -> (r: Option<PhaseMeasurand<T>>)
        ensures
            r is None <==> forall|i: int|
                0 <= i < self.measurands@.len() ==> self.measurands@[i].phase != phase,
            r matches Some(m) ==> exists|i: int|
                0 <= i < self.measurands@.len() && self.measurands@[i] == m && m.phase == phase
                    && forall|j: int| 0 <= j < i ==> self.measurands@[j].phase != phase,
    {
        let mut i: usize = 0;
        while i < self.measurands.len()
            invariant
                i <= self.measurands@.len(),
                forall|j: int| 0 <= j < i ==> self.measurands@[j].phase != phase,
            decreases self.measurands.len() - i,
        {
            if self.measurands[i].phase == phase {
                return Some(self.measurands[i]);
            }
            i = i + 1;
        }
        None
    }

    /// The values measured on the given phases, in the order of the measurands; their sum is
    /// the sum over those phases.
    pub fn get_values_of_phases(&self, phases: &[Phase]) -> (r: Vec<T>)
        ensures
            r@ == values_of_phases(self.measurands@, phases@),
    {
        let mut r: Vec<T> = Vec::new();
        let mut i: usize = 0;
        while i < self.measurands.len()
            invariant
                i <= self.measurands@.len(),
                r@ == values_of_phases(self.measurands@.subrange(0, i as int), phases@),
            decreases self.measurands.len() - i,
        {
            let m = self.measurands[i];
            let mut selected = false;
            let mut k: usize = 0;
            while k < phases.len()
                invariant
                    k <= phases@.len(),
                    selected <==> exists|j: int| 0 <= j < k && phases@[j] == m.phase,
                decreases phases.len() - k,
            {
                if phases[k] == m.phase {
                    selected = true;
                }
                k = k + 1;
            }
            proof {
                let prefix = self.measurands@.subrange(0, i + 1);
                assert(prefix.drop_last() =~= self.measurands@.subrange(0, i as int));
                assert(selected <==> phases@.contains(m.phase));
            }
            if selected {
                r.push(m.value);
            }
            i = i + 1;
        }
        assert(self.measurands@.subrange(0, self.measurands@.len() as int) =~= self.measurands@);
        r
    }
}

/// Mathematical value of a [`ChargePointState`].
pub struct ChargePointStateView {
    pub charge_point_status: Option<ChargePointStatus>,
    /// Maximum charging current in tenths of an ampere.
    pub max_current: Option<i64>,
    pub requests_to_send: Seq<RequestToSendView>,
    pub requests_awaiting_confirmation: Seq<RequestToSendView>,
    pub running_transactions: Seq<Transaction>,
    pub smart_charging_mode: SmartChargingMode,
    pub active_charging_profiles: Seq<ChargingProfileView>,
}

/// State of the charge point as known by the central system.
pub struct ChargePointState {
    /// Status as reported by the last StatusNotification.
    charge_point_status: Option<ChargePointStatus>,
    /// Maximum charging current in tenths of an ampere, as last offered.
    max_current: Option<i64>,
    /// Requests queued for the charge point; the last one is sent first.
    requests_to_send: Vec<RequestToSend>,
    /// Requests sent to the charge point that await a response.
    requests_awaiting_confirmation: Vec<RequestToSend>,
    /// Running transactions.
    running_transactions: Vec<Transaction>,
    /// Smart charging mode in use.
    smart_charging_mode: SmartChargingMode,
    /// Charging profiles installed on the charge point.
    active_charging_profiles: Vec<ChargingProfile>,
}

impl View for ChargePointState {
    type V = ChargePointStateView;

    closed spec fn view(&self) -> ChargePointStateView {
        ChargePointStateView {
            charge_point_status: self.charge_point_status,
            max_current: self.max_current,
            requests_to_send: request_views(self.requests_to_send@),
            requests_awaiting_confirmation: request_views(self.requests_awaiting_confirmation@),
            running_transactions: self.running_transactions@,
            smart_charging_mode: self.smart_charging_mode,
            active_charging_profiles: profile_views(self.active_charging_profiles@),
        }
    }
}

/// The state after the central system took the next request to send, if it may: a request
/// is handed out only while no sent request awaits a response, and the last queued request
/// goes first.
pub open spec fn after_take_pending(s: ChargePointStateView) -> ChargePointStateView {
    if s.requests_awaiting_confirmation.len() > 0 || s.requests_to_send.len() == 0 {
        s
    } else {
        ChargePointStateView {
            requests_to_send: s.requests_to_send.drop_last(),
            requests_awaiting_confirmation: seq![s.requests_to_send.last()],
            ..s
        }
    }
}

/// The request that the central system hands out next, if it may.
pub open spec fn taken_pending(s: ChargePointStateView) -> Option<RequestToSendView> {
    if s.requests_awaiting_confirmation.len() > 0 || s.requests_to_send.len() == 0 {
        None
    } else {
        Some(s.requests_to_send.last())
    }
}

/// The state of a charge point nothing is known of.
pub open spec fn initial_state_view() -> ChargePointStateView {
    ChargePointStateView {
        charge_point_status: None,
        max_current: None,
        requests_to_send: Seq::empty(),
        requests_awaiting_confirmation: Seq::empty(),
        running_transactions: Seq::empty(),
        smart_charging_mode: SmartChargingMode::Instant,
        active_charging_profiles: Seq::empty(),
    }
}

impl Default for ChargePointState {
    fn default() -> (r: Self)
        ensures
            r@ == initial_state_view(),
    {
        let r = ChargePointState {
            charge_point_status: None,
            max_current: None,
            requests_to_send: Vec::new(),
            requests_awaiting_confirmation: Vec::new(),
            running_transactions: Vec::new(),
            smart_charging_mode: SmartChargingMode::Instant,
            active_charging_profiles: Vec::new(),
        };
        assert(r@.requests_to_send =~= Seq::empty());
        assert(r@.requests_awaiting_confirmation =~= Seq::empty());
        assert(r@.active_charging_profiles =~= Seq::empty());
        r
    }
}

impl ChargePointState {
    /// An initial state whose queue holds `requests_to_send`.
    pub fn with_initial_requests(requests_to_send: Vec<RequestToSend>) -> (r: Self)
        ensures
            r@ == (ChargePointStateView {
                requests_to_send: request_views(requests_to_send@),
                ..initial_state_view()
            }),
    {
        let mut instance = Self::default();
        instance.requests_to_send = requests_to_send;
        instance
    }

    /// The queued requests, taken out of the state.
    pub fn into_requests_to_send(self) -> (r: Vec<RequestToSend>)
        ensures
            request_views(r@) == self@.requests_to_send,
    {
        self.requests_to_send
    }

    /// Status as reported by the last StatusNotification.
    pub fn get_charge_point_status(&self) -> (r: &Option<ChargePointStatus>)
        ensures
            *r == self@.charge_point_status,
    {
        &self.charge_point_status
    }

    /// Maximum charging current in tenths of an ampere.
    pub fn get_max_current(&self) -> (r: Option<i64>)
        ensures
            r == self@.max_current,
    {
        self.max_current
    }

    /// Requests queued for the charge point.
    pub fn get_requests_to_send(&self) -> (r: &Vec<RequestToSend>)
        ensures
            request_views(r@) == self@.requests_to_send,
    {
        &self.requests_to_send
    }

    /// Requests that await a response.
    pub fn get_requests_awaiting_confirmation(&self) -> (r: &Vec<RequestToSend>)
        ensures
            request_views(r@) == self@.requests_awaiting_confirmation,
    {
        &self.requests_awaiting_confirmation
    }

    /// Running transactions.
    pub fn get_running_transaction_ids(&self) -> (r: &Vec<Transaction>)
        ensures
            r@ == self@.running_transactions,
    {
        &self.running_transactions
    }

    /// Smart charging mode in use.
    pub fn get_smart_charging_mode(&self) -> (r: SmartChargingMode)
        ensures
            r == self@.smart_charging_mode,
    {
        self.smart_charging_mode
    }

    /// Installed charging profiles.
    pub fn get_active_charging_profiles(&self) -> (r: &Vec<ChargingProfile>)
        ensures
            profile_views(r@) == self@.active_charging_profiles,
    {
        &self.active_charging_profiles
    }

    /// The first installed profile with id `charging_profile_id`, if any.
    pub fn get_active_charging_profile(&self, charging_profile_id: i32) -> (r: Option<
        &ChargingProfile,
    >)
        ensures
            r is None <==> first_profile_with_id(
                self@.active_charging_profiles,
                charging_profile_id,
            ) is None,
            r matches Some(p) ==> p@ == self@.active_charging_profiles[first_profile_with_id(
                self@.active_charging_profiles,
                charging_profile_id,
            )->Some_0],
    {
        let ghost s = self@.active_charging_profiles;
        let mut i: usize = 0;
        while i < self.active_charging_profiles.len()
            invariant
                i <= self.active_charging_profiles@.len(),
                s == profile_views(self.active_charging_profiles@),
                forall|j: int| 0 <= j < i ==> s[j].charging_profile_id != charging_profile_id,
            decreases self.active_charging_profiles.len() - i,
        {
            if self.active_charging_profiles[i].charging_profile_id == charging_profile_id {
                proof {
                    assert(s[i as int].charging_profile_id == charging_profile_id);
                    let w = first_profile_with_id(s, charging_profile_id)->Some_0;
                    assert(w == i) by {
                        if w < i {
                            assert(s[w].charging_profile_id != charging_profile_id);
                        } else if w > i {
                        }
                    }
                }
                return Some(&self.active_charging_profiles[i]);
            }
            i = i + 1;
        }
        None
    }

    /// Records a started transaction.
    pub fn add_running_transaction_id(&mut self, transaction: Transaction)
        ensures
            final(self)@ == (ChargePointStateView {
                running_transactions: old(self)@.running_transactions.push(transaction),
                ..old(self)@
            }),
    {
        self.running_transactions.push(transaction);
    }

    /// Records an installed charging profile.
    pub fn add_charging_profile(&mut self, charging_profile: &ChargingProfile)
        ensures
            final(self)@ == (ChargePointStateView {
                active_charging_profiles: old(self)@.active_charging_profiles.push(
                    charging_profile@,
                ),
                ..old(self)@
            }),
    {
        let ghost before = self.active_charging_profiles@;
        self.active_charging_profiles.push(charging_profile.copy_of());
        assert(profile_views(self.active_charging_profiles@) =~= profile_views(before).push(
            charging_profile@,
        ));
    }

    /// Forgets every installed profile with id `charging_profile_id`.
    pub fn remove_charging_profile(&mut self, charging_profile_id: i32)
        ensures
            final(self)@ == (ChargePointStateView {
                active_charging_profiles: without_profile(
                    old(self)@.active_charging_profiles,
                    charging_profile_id,
                ),
                ..old(self)@
            }),
    {
        let ghost pred = |p: ChargingProfileView| p.charging_profile_id != charging_profile_id;
        let ghost before = profile_views(self.active_charging_profiles@);
        let mut kept: Vec<ChargingProfile> = Vec::new();
        let mut i: usize = 0;
        while i < self.active_charging_profiles.len()
            invariant
                i <= self.active_charging_profiles@.len(),
                before == profile_views(self.active_charging_profiles@),
                pred == (|p: ChargingProfileView| p.charging_profile_id != charging_profile_id),
                profile_views(kept@) == before.subrange(0, i as int).filter(pred),
            decreases self.active_charging_profiles.len() - i,
        {
            proof {
                let sub = before.subrange(0, i + 1);
                assert(sub.drop_last() =~= before.subrange(0, i as int));
                assert(sub.last() == before[i as int]);
                reveal_with_fuel(Seq::filter, 1);
                assert(sub.filter(pred) == (if pred(sub.last()) {
                    sub.drop_last().filter(pred).push(sub.last())
                } else {
                    sub.drop_last().filter(pred)
                }));
            }
            if self.active_charging_profiles[i].charging_profile_id != charging_profile_id {
                let ghost k = kept@;
                kept.push(self.active_charging_profiles[i].copy_of());
                assert(profile_views(kept@) =~= profile_views(k).push(before[i as int]));
            }
            i = i + 1;
        }
        assert(before.subrange(0, before.len() as int) =~= before);
        self.active_charging_profiles = kept;
    }

    /// Records the status reported by the charge point.
    pub fn set_charge_point_status(&mut self, status: ChargePointStatus)
        ensures
            final(self)@ == (ChargePointStateView {
                charge_point_status: Some(status),
                ..old(self)@
            }),
    {
        self.charge_point_status = Some(status);
    }

    /// Records the maximum charging current (tenths of an ampere).
    pub fn set_max_current(&mut self, max_current: i64)
        ensures
            final(self)@ == (ChargePointStateView { max_current: Some(max_current), ..old(self)@ }),
    {
        self.max_current = Some(max_current);
    }

    /// Queues a request for the charge point.
    pub fn add_request_to_send(&mut self, request_to_send: RequestToSend)
        ensures
            final(self)@ == (ChargePointStateView {
                requests_to_send: old(self)@.requests_to_send.push(request_to_send@),
                ..old(self)@
            }),
    {
        let ghost before = self.requests_to_send@;
        self.requests_to_send.push(request_to_send);
        assert(request_views(self.requests_to_send@) =~= request_views(before).push(
            request_to_send@,
        ));
    }

    /// Sets the smart charging mode.
    pub fn set_smart_charging_mode(&mut self, mode: SmartChargingMode)
        ensures
            final(self)@ == (ChargePointStateView { smart_charging_mode: mode, ..old(self)@ }),
    {
        self.smart_charging_mode = mode;
    }

    /// Falls back to instant charging.
    pub fn disable_smart_charging(&mut self)
        ensures
            final(self)@ == (ChargePointStateView {
                smart_charging_mode: SmartChargingMode::Instant,
                ..old(self)@
            }),
    {
        self.smart_charging_mode = SmartChargingMode::Instant;
    }

    /// Records a request that was sent and awaits a response.
    pub fn add_request_awaiting_confirmation(&mut self, request: RequestToSend)
        ensures
            final(self)@ == (ChargePointStateView {
                requests_awaiting_confirmation: old(self)@.requests_awaiting_confirmation.push(
                    request@,
                ),
                ..old(self)@
            }),
    {
        let ghost before = self.requests_awaiting_confirmation@;
        self.requests_awaiting_confirmation.push(request);
        assert(request_views(self.requests_awaiting_confirmation@) =~= request_views(before).push(
            request@,
        ));
    }

    /// Whether a sent request still awaits its response.
    pub fn waiting_for_response(&self) -> (r: bool)
        ensures
            r == (self@.requests_awaiting_confirmation.len() > 0),
    {
        !self.requests_awaiting_confirmation.is_empty()
    }

    /// Takes the next queued request (the last one queued) and records it as awaiting a
    /// response, unless a sent request still awaits one.
    pub fn take_pending_message(&mut self) -> (r: Option<RequestToSend>)
        ensures
            final(self)@ == after_take_pending(old(self)@),
            r is Some <==> taken_pending(old(self)@) is Some,
            r matches Some(m) ==> taken_pending(old(self)@) == Some(m@),
    {
        if self.waiting_for_response() {
            return None;
        }
        let ghost before = self.requests_to_send@;
        match self.requests_to_send.pop() {
            Some(request_to_send) => {
                assert(request_views(self.requests_to_send@) =~= request_views(
                    before,
                ).drop_last());
                self.add_request_awaiting_confirmation(request_to_send.copy_of());
                assert(self@.requests_awaiting_confirmation =~= seq![request_to_send@]);
                Some(request_to_send)
            },
            None => None,
        }
    }

    /// The action of the first request awaiting a response with uuid `uuid`, if any.
    pub fn find_awaiting_request(&self, uuid: &String) -> (r: Option<MessageTypeName>)
        ensures
            r is None <==> first_with_uuid(self@.requests_awaiting_confirmation, uuid@) is None,
            r matches Some(t) ==> t == self@.requests_awaiting_confirmation[first_with_uuid(
                self@.requests_awaiting_confirmation,
                uuid@,
            )->Some_0].message_type,
    {
        let ghost s = self@.requests_awaiting_confirmation;
        let mut i: usize = 0;
        while i < self.requests_awaiting_confirmation.len()
            invariant
                i <= self.requests_awaiting_confirmation@.len(),
                s == request_views(self.requests_awaiting_confirmation@),
                forall|j: int| 0 <= j < i ==> s[j].uuid != uuid@,
            decreases self.requests_awaiting_confirmation.len() - i,
        {
            if self.requests_awaiting_confirmation[i].uuid == *uuid {
                proof {
                    assert(s[i as int].uuid == uuid@);
                    let w = first_with_uuid(s, uuid@)->Some_0;
                    assert(w == i) by {
                        if w < i {
                            assert(s[w].uuid != uuid@);
                        } else if w > i {
                        }
                    }
                }
                return Some(self.requests_awaiting_confirmation[i].message_type);
            }
            i = i + 1;
        }
        None
    }

    /// Records that the charge point stopped transaction `transaction_id` with the meter value
    /// `meter_stop`; whether such a transaction was running.
    pub fn stop_transaction(&mut self, transaction_id: i32, meter_stop: i32) -> (r: bool)
        ensures
            r == first_with_transaction_id(old(self)@.running_transactions, transaction_id) is Some,
            final(self)@ == (ChargePointStateView {
                running_transactions: stopped_transactions(
                    old(self)@.running_transactions,
                    transaction_id,
                    meter_stop,
                ),
                ..old(self)@
            }),
    {
        let ghost s = self.running_transactions@;
        let mut i: usize = 0;
        while i < self.running_transactions.len()
            invariant
                i <= s.len(),
                s == self.running_transactions@,
                forall|j: int| 0 <= j < i ==> s[j].transaction_id != transaction_id,
            ensures
                i <= s.len(),
                s == self.running_transactions@,
                forall|j: int| 0 <= j < i ==> s[j].transaction_id != transaction_id,
                i < s.len() ==> s[i as int].transaction_id == transaction_id,
            decreases self.running_transactions.len() - i,
        {
            if self.running_transactions[i].transaction_id == transaction_id {
                break;
            }
            i = i + 1;
        }
        if i == self.running_transactions.len() {
            return false;
        }
        proof {
            let w = first_with_transaction_id(s, transaction_id)->Some_0;
            assert(w == i) by {
                if w < i {
                    assert(s[w].transaction_id != transaction_id);
                } else if w > i {
                }
            }
        }
        let mut updated = self.running_transactions[i].copy_of();
        updated.meter_value_stop = meter_stop;
        let ghost u = s.update(i as int, updated);
        let ghost pred = |e: Transaction| !same_transaction(e, updated);
        let mut kept: Vec<Transaction> = Vec::new();
        let mut j: usize = 0;
        while j < self.running_transactions.len()
            invariant
                j <= s.len(),
                s == self.running_transactions@,
                i < s.len(),
                u == s.update(i as int, updated),
                pred == (|e: Transaction| !same_transaction(e, updated)),
                kept@ == u.subrange(0, j as int).filter(pred),
            decreases self.running_transactions.len() - j,
        {
            proof {
                let sub = u.subrange(0, j + 1);
                assert(sub.drop_last() =~= u.subrange(0, j as int));
                assert(sub.last() == u[j as int]);
                reveal_with_fuel(Seq::filter, 1);
                assert(sub.filter(pred) == (if pred(sub.last()) {
                    sub.drop_last().filter(pred).push(sub.last())
                } else {
                    sub.drop_last().filter(pred)
                }));
            }
            let element = if j == i {
                updated.copy_of()
            } else {
                self.running_transactions[j].copy_of()
            };
            if !transactions_equal(&element, &updated) {
                kept.push(element);
            }
            j = j + 1;
        }
        assert(u.subrange(0, u.len() as int) =~= u);
        self.running_transactions = kept;
        true
    }

    /// Forgets the requests awaiting a response with uuid `uuid`.
    pub fn confirm_request(&mut self, uuid: &String)
        ensures
            final(self)@ == (ChargePointStateView {
                requests_awaiting_confirmation: without_uuid(
                    old(self)@.requests_awaiting_confirmation,
                    uuid@,
                ),
                ..old(self)@
            }),
    {
        let ghost pred = |r: RequestToSendView| r.uuid != uuid@;
        let ghost before = request_views(self.requests_awaiting_confirmation@);
        let mut kept: Vec<RequestToSend> = Vec::new();
        let mut i: usize = 0;
        while i < self.requests_awaiting_confirmation.len()
            invariant
                i <= self.requests_awaiting_confirmation@.len(),
                before == request_views(self.requests_awaiting_confirmation@),
                pred == (|r: RequestToSendView| r.uuid != uuid@),
                request_views(kept@) == before.subrange(0, i as int).filter(pred),
            decreases self.requests_awaiting_confirmation.len() - i,
        {
            proof {
                let sub = before.subrange(0, i + 1);
                assert(sub.drop_last() =~= before.subrange(0, i as int));
                assert(sub.last() == before[i as int]);
                reveal_with_fuel(Seq::filter, 1);
                assert(sub.filter(pred) == (if pred(sub.last()) {
                    sub.drop_last().filter(pred).push(sub.last())
                } else {
                    sub.drop_last().filter(pred)
                }));
            }
            if self.requests_awaiting_confirmation[i].uuid != *uuid {
                let ghost k = kept@;
                kept.push(self.requests_awaiting_confirmation[i].copy_of());
                assert(request_views(kept@) =~= request_views(k).push(before[i as int]));
            }
            i = i + 1;
        }
        assert(before.subrange(0, before.len() as int) =~= before);
        self.requests_awaiting_confirmation = kept;
    }
}

} // verus!
