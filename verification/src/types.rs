//! Plain enumerations and configuration records shared by the whole library.
//!
//! The OCPP 1.6 enumerations carry the same variants as the wire protocol;
//! the conversion to and from the JSON representation lives at the edge of
//! the program.
use vstd::prelude::*;
use vstd::string::*;

verus! {

/// Status of a charge point connector as reported by a StatusNotification.
#[derive(Clone, Copy, Debug, PartialEq, Eq, Structural)]
pub enum ChargePointStatus {
    Available,
    Preparing,
    Charging,
    SuspendedEVSE,
    SuspendedEV,
    Finishing,
    Reserved,
    Unavailable,
    Faulted,
}

/// Authorization verdict attached to an IdTagInfo.
#[derive(Clone, Copy, Debug, PartialEq, Eq, Structural)]
pub enum AuthorizationStatus {
    Accepted,
    Blocked,
    Expired,
    Invalid,
    ConcurrentTx,
}

/// Verdict of a BootNotification.
#[derive(Clone, Copy, Debug, PartialEq, Eq, Structural)]
pub enum RegistrationStatus {
    Accepted,
    Pending,
    Rejected,
}

/// Verdict of a DataTransfer request.
#[derive(Clone, Copy, Debug, PartialEq, Eq, Structural)]
pub enum DataTransferStatus {
    Accepted,
    Rejected,
    UnknownMessageId,
    UnknownVendorId,
}

/// Purpose of a charging profile.
#[derive(Clone, Copy, Debug, PartialEq, Eq, Structural)]
pub enum ChargingProfilePurposeType {
    ChargePointMaxProfile,
    TxDefaultProfile,
    TxProfile,
}

/// Kind of a charging profile.
#[derive(Clone, Copy, Debug, PartialEq, Eq, Structural)]
pub enum ChargingProfileKindType {
    Absolute,
    Recurring,
    Relative,
}

/// Unit of the limits of a charging schedule.
#[derive(Clone, Copy, Debug, PartialEq, Eq, Structural)]
pub enum ChargingRateUnitType {
    W,
    A,
}

/// Recurrence of a recurring charging profile.
#[derive(Clone, Copy, Debug, PartialEq, Eq, Structural)]
pub enum RecurrencyKindType {
    Daily,
    Weekly,
}

/// Message that a TriggerMessage request asks the charge point to send.
#[derive(Clone, Copy, Debug, PartialEq, Eq, Structural)]
pub enum MessageTrigger {
    BootNotification,
    DiagnosticsStatusNotification,
    FirmwareStatusNotification,
    Heartbeat,
    MeterValues,
    StatusNotification,
}

/// Electrical phase a measured value refers to.
#[derive(Clone, Copy, Debug, PartialEq, Eq, Structural)]
pub enum Phase {
    L1,
    L2,
    L3,
    N,
    L1N,
    L2N,
    L3N,
    L1L2,
    L2L3,
    L3L1,
}

impl Phase {
    /// The name of the phase as printed in logs and stored readings.
    pub open spec fn name_view(self) -> Seq<char> {
        match self {
            Phase::L1 => "L1"@,
            Phase::L2 => "L2"@,
            Phase::L3 => "L3"@,
            Phase::N => "N"@,
            Phase::L1N => "L1N"@,
            Phase::L2N => "L2N"@,
            Phase::L3N => "L3N"@,
            Phase::L1L2 => "L1L2"@,
            Phase::L2L3 => "L2L3"@,
            Phase::L3L1 => "L3L1"@,
        }
    }

    /// The name of the phase (`L1`, `L2N`, ...).
    pub fn name(&self) -> (r: String)
        ensures
            r@ == self.name_view(),
    {
        match self {
            Phase::L1 => String::from_str("L1"),
            Phase::L2 => String::from_str("L2"),
            Phase::L3 => String::from_str("L3"),
            Phase::N => String::from_str("N"),
            Phase::L1N => String::from_str("L1N"),
            Phase::L2N => String::from_str("L2N"),
            Phase::L3N => String::from_str("L3N"),
            Phase::L1L2 => String::from_str("L1L2"),
            Phase::L2L3 => String::from_str("L2L3"),
            Phase::L3L1 => String::from_str("L3L1"),
        }
    }
}

/// How a transaction started with an IdTag is charged.
#[derive(Clone, Copy, Debug, PartialEq, Eq, Structural)]
pub enum SmartChargingMode {
    /// Charge immediately with the maximum current.
    Instant,
    /// Charge with PV overproduction and in the cheapest grid period.
    PVOverProductionAndGridBased,
    /// Charge with PV overproduction only.
    PVOverProduction,
}

impl SmartChargingMode {
    /// The name of the mode.
    pub open spec fn name_view(self) -> Seq<char> {
        match self {
            SmartChargingMode::Instant => "Instant"@,
            SmartChargingMode::PVOverProductionAndGridBased => "PVOverProductionAndGridBased"@,
            SmartChargingMode::PVOverProduction => "PVOverProduction"@,
        }
    }

    /// The name of the mode, as displayed.
    pub fn name(&self) -> (r: String)
        ensures
            r@ == self.name_view(),
    {
        match self {
            SmartChargingMode::Instant => String::from_str("Instant"),
            SmartChargingMode::PVOverProductionAndGridBased => String::from_str(
                "PVOverProductionAndGridBased",
            ),
            SmartChargingMode::PVOverProduction => String::from_str("PVOverProduction"),
        }
    }
}

impl Default for SmartChargingMode {
    fn default() -> (r: Self)
        ensures
            r == SmartChargingMode::Instant,
    {
        SmartChargingMode::Instant
    }
}

/// An IdTag that may start transactions, with the smart charging mode it selects.
#[derive(Clone, Debug, PartialEq, Eq)]
pub struct IdTag {
    pub id: String,
    pub smart_charging_mode: SmartChargingMode,
}

/// A configuration key/value pair that is sent to the charge point on connection.
#[derive(Clone, Debug, PartialEq, Eq)]
pub struct ConfigSetting {
    pub key: String,
    pub value: String,
}

impl IdTag {
    /// A copy of the tag.
    pub fn copy_of(&self) -> (r: Self)
        ensures
            r == *self,
    {
        IdTag { id: self.id.clone(), smart_charging_mode: self.smart_charging_mode }
    }
}

impl ConfigSetting {
    /// A copy of the setting.
    pub fn copy_of(&self) -> (r: Self)
        ensures
            r == *self,
    {
        ConfigSetting { key: self.key.clone(), value: self.value.clone() }
    }
}

/// Whether some tag of `tags` has the id `id`.
pub open spec fn has_tag(tags: Seq<IdTag>, id: Seq<char>) -> bool {
    exists|i: int| 0 <= i < tags.len() && tags[i].id@ == id
}

/// Index of the first tag of `tags` with the id `id`, if any.
pub fn find_id_tag(tags: &Vec<IdTag>, id: &String) -> (r: Option<usize>)
    ensures
        r is None <==> !has_tag(tags@, id@),
        r matches Some(i) ==> i < tags@.len() && tags@[i as int].id@ == id@ && forall|j: int|
            0 <= j < i ==> tags@[j].id@ != id@,
{
    let mut i: usize = 0;
    while i < tags.len()
        invariant
            i <= tags@.len(),
            forall|j: int| 0 <= j < i ==> tags@[j].id@ != id@,
        decreases tags.len() - i,
    {
        if tags[i].id == *id {
            return Some(i);
        }
        i = i + 1;
    }
    None
}

} // verus!
