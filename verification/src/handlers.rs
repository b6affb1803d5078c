//! Answers of the central system to the requests of the charge point.
use vstd::prelude::*;
use vstd::string::*;

use crate::charge_point_state::{ChargePointState, ChargePointStateView, Transaction};
use crate::ocpp_types::CustomError;
use crate::types::{
    find_id_tag, has_tag, AuthorizationStatus, DataTransferStatus, IdTag, RegistrationStatus,
};

verus! {

/// The part of an IdTagInfo that the central system fills.
#[derive(Clone, Copy, Debug, PartialEq, Eq, Structural)]
pub struct IdTagInfo {
    pub status: AuthorizationStatus,
}

/// Answer to an Authorize request.
#[derive(Clone, Copy, Debug, PartialEq, Eq, Structural)]
pub struct AuthorizeResponse {
    pub id_tag_info: IdTagInfo,
}

/// Answer to a BootNotification request; the current time is added when it is sent.
#[derive(Clone, Copy, Debug, PartialEq, Eq, Structural)]
pub struct BootNotificationResponse {
    pub interval: u32,
    pub status: RegistrationStatus,
}

/// Answer to a StartTransaction request.
#[derive(Clone, Copy, Debug, PartialEq, Eq, Structural)]
pub struct StartTransactionResponse {
    pub id_tag_info: IdTagInfo,
    pub transaction_id: i32,
}

/// Answer to a StopTransaction request.
#[derive(Clone, Copy, Debug, PartialEq, Eq, Structural)]
pub struct StopTransactionResponse {
    pub id_tag_info: Option<IdTagInfo>,
}

/// Answer to a DataTransfer request.
#[derive(Clone, Debug, PartialEq, Eq)]
pub struct DataTransferResponse {
    pub status: DataTransferStatus,
    pub data: Option<String>,
}

/// An IdTag is accepted iff it is one of the authorized tags.
pub fn handle_authorize_request(id_tag: &String, authorized_id_tags: &Vec<IdTag>) -> (r:
    AuthorizeResponse)
    ensures
        r.id_tag_info.status == (if has_tag(authorized_id_tags@, id_tag@) {
            AuthorizationStatus::Accepted
        } else {
            AuthorizationStatus::Blocked
        }),
{
    let status = match find_id_tag(authorized_id_tags, id_tag) {
        Some(_) => AuthorizationStatus::Accepted,
        None => AuthorizationStatus::Blocked,
    };
    AuthorizeResponse { id_tag_info: IdTagInfo { status } }
}

/// The message of the error for a charge point that sent no serial number.
pub open spec fn missing_serial_message() -> Seq<char> {
    "ChargePoint did not send serial number!"@
}

/// The message of the error for a charge point whose serial number is not configured.
pub open spec fn unknown_serial_message(serial: Seq<char>) -> Seq<char> {
    "ChargePoint with serial number "@ + serial + " is not configured!"@
}

/// A charge point is registered iff it sends the configured serial number; it is then
/// told to send heartbeats every `heartbeat_interval` seconds.
pub fn handle_boot_notification_request(
    charge_point_serial_number: &Option<String>,
    configured_serial_number: &String,
    heartbeat_interval: u32,
) -> (r: Result<BootNotificationResponse, CustomError>)
    ensures
        charge_point_serial_number is None ==> (r matches Err(CustomError::Common(m)) && m@
            == missing_serial_message()),
        charge_point_serial_number is Some && charge_point_serial_number->Some_0@
            != configured_serial_number@ ==> (r matches Err(CustomError::Common(m)) && m@
            == unknown_serial_message(charge_point_serial_number->Some_0@)),
        charge_point_serial_number is Some && charge_point_serial_number->Some_0@
            == configured_serial_number@ ==> r
            == Ok::<BootNotificationResponse, CustomError>(
            BootNotificationResponse {
                interval: heartbeat_interval,
                status: RegistrationStatus::Accepted,
            },
        ),
{
    match charge_point_serial_number {
        None => Err(
            CustomError::Common(String::from_str("ChargePoint did not send serial number!")),
        ),
        Some(serial) => {
            if *serial != *configured_serial_number {
                let mut m = String::from_str("ChargePoint with serial number ");
                m.append(serial.as_str());
                m.append(" is not configured!");
                Err(CustomError::Common(m))
            } else {
                Ok(
                    BootNotificationResponse {
                        interval: heartbeat_interval,
                        status: RegistrationStatus::Accepted,
                    },
                )
            }
        },
    }
}

/// The id given to the transaction started while `n` transactions run.
pub open spec fn next_transaction_id(n: nat) -> i32 {
    (n + 1) as i32
}

/// A transaction is accepted iff its IdTag is authorized; its id is one more than the
/// number of running transactions, and an accepted transaction is recorded as running.
pub fn handle_start_transaction_request(
    id_tag: &String,
    meter_start: i32,
    authorized_id_tags: &Vec<IdTag>,
    charge_point_state: &mut ChargePointState,
) -> (r: StartTransactionResponse)
    ensures
        r.transaction_id == next_transaction_id(old(charge_point_state)@.running_transactions.len()),
        has_tag(authorized_id_tags@, id_tag@) ==> r.id_tag_info.status
            == AuthorizationStatus::Accepted && final(charge_point_state)@ == (
        ChargePointStateView {
            running_transactions: old(charge_point_state)@.running_transactions.push(
                Transaction {
                    id_tag: Some(*id_tag),
                    transaction_id: r.transaction_id,
                    meter_value_start: meter_start,
                    meter_value_stop: 0,
                },
            ),
            ..old(charge_point_state)@
        }),
        !has_tag(authorized_id_tags@, id_tag@) ==> r.id_tag_info.status
            == AuthorizationStatus::Invalid && final(charge_point_state)@ == old(
            charge_point_state,
        )@,
{
    let authorized = find_id_tag(authorized_id_tags, id_tag).is_some();
    let running = charge_point_state.get_running_transaction_ids().len();
    let transaction_id = ((running as u128) + 1) as i32;
    if authorized {
        charge_point_state.add_running_transaction_id(
            Transaction {
                id_tag: Some(id_tag.clone()),
                transaction_id,
                meter_value_start: meter_start,
                meter_value_stop: 0,
            },
        );
        StartTransactionResponse {
            id_tag_info: IdTagInfo { status: AuthorizationStatus::Accepted },
            transaction_id,
        }
    } else {
        StartTransactionResponse {
            id_tag_info: IdTagInfo { status: AuthorizationStatus::Invalid },
            transaction_id,
        }
    }
}

/// A stop is accepted iff the transaction runs; see
/// [`crate::charge_point_state::stopped_transactions`] for the effect on the state.
pub fn handle_stop_transaction_request(
    transaction_id: i32,
    meter_stop: i32,
    charge_point_state: &mut ChargePointState,
) -> (r: StopTransactionResponse)
    ensures
        r.id_tag_info == Some(
            IdTagInfo {
                status: if crate::charge_point_state::first_with_transaction_id(
                    old(charge_point_state)@.running_transactions,
                    transaction_id,
                ) is Some {
                    AuthorizationStatus::Accepted
                } else {
                    AuthorizationStatus::Invalid
                },
            },
        ),
        final(charge_point_state)@ == (ChargePointStateView {
            running_transactions: crate::charge_point_state::stopped_transactions(
                old(charge_point_state)@.running_transactions,
                transaction_id,
                meter_stop,
            ),
            ..old(charge_point_state)@
        }),
{
    let stopped = charge_point_state.stop_transaction(transaction_id, meter_stop);
    let status = if stopped {
        AuthorizationStatus::Accepted
    } else {
        AuthorizationStatus::Invalid
    };
    StopTransactionResponse { id_tag_info: Some(IdTagInfo { status }) }
}

/// Every DataTransfer is rejected, without data.
pub fn handle_data_transfer_request() -> (r: DataTransferResponse)
    ensures
        r.status == DataTransferStatus::Rejected,
        r.data is None,
{
    DataTransferResponse { status: DataTransferStatus::Rejected, data: None }
}

} // verus!
