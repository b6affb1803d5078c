//! OCPP-J message types and the framing of outgoing messages.
use vstd::prelude::*;
use vstd::string::*;

verus! {

/// Errors of the central system.
#[derive(Debug, PartialEq, Eq)]
pub enum CustomError {
    /// A JSON (de)serialisation failed; carries the serialiser's message.
    Serde(String),
    /// A rule of the central system was broken; carries a description.
    Common(String),
    /// A database statement failed; carries the database's message.
    Sql(String),
}

impl CustomError {
    /// The message carried by the error.
    pub fn message(&self) -> (r: String)
        ensures
            r@ == match self {
                CustomError::Serde(m) => m@,
                CustomError::Common(m) => m@,
                CustomError::Sql(m) => m@,
            },
    {
        match self {
            CustomError::Serde(m) => m.clone(),
            CustomError::Common(m) => m.clone(),
            CustomError::Sql(m) => m.clone(),
        }
    }
}

/// Kind of an OCPP-J frame; its number is the first element of the frame.
#[derive(Clone, Copy, Debug, PartialEq, Eq, Structural)]
pub enum MessageType {
    Request,
    Response,
    Error,
}

impl MessageType {
    /// The number of the frame kind.
    pub open spec fn code_view(self) -> u32 {
        match self {
            MessageType::Request => 2,
            MessageType::Response => 3,
            MessageType::Error => 4,
        }
    }

    /// The number that identifies the frame kind on the wire.
    pub fn code(&self) -> (r: u32)
        ensures
            r == self.code_view(),
    {
        match self {
            MessageType::Request => 2,
            MessageType::Response => 3,
            MessageType::Error => 4,
        }
    }

    /// The frame kind for a number, if there is one.
    pub fn from_code(code: u32) -> (r: Option<MessageType>)
        ensures
            r matches Some(t) ==> t.code_view() == code,
            r is None <==> !(code == 2 || code == 3 || code == 4),
    {
        if code == 2 {
            Some(MessageType::Request)
        } else if code == 3 {
            Some(MessageType::Response)
        } else if code == 4 {
            Some(MessageType::Error)
        } else {
            None
        }
    }
}

/// Action of an OCPP request.
#[derive(Clone, Copy, Debug, PartialEq, Eq, Structural)]
pub enum MessageTypeName {
    // Initiated by the charge point
    Authorize,
    BootNotification,
    DataTransfer,
    DiagnosticsStatusNotification,
    FirmwareStatusNotification,
    Heartbeat,
    MeterValues,
    StartTransaction,
    StatusNotification,
    StopTransaction,
    LogStatusNotification,
    SecurityEventNotification,
    SignedFirmwareStatusNotification,
    // Initiated by the central system
    RemoteStartTransaction,
    RemoteStopTransaction,
    TriggerMessage,
    SetChargingProfile,
    GetDiagnostics,
    ChangeConfiguration,
    ClearChargingProfile,
}

impl MessageTypeName {
    /// The action name as it appears in a request frame.
    pub open spec fn name_view(self) -> Seq<char> {
        match self {
            MessageTypeName::Authorize => "Authorize"@,
            MessageTypeName::BootNotification => "BootNotification"@,
            MessageTypeName::DataTransfer => "DataTransfer"@,
            MessageTypeName::DiagnosticsStatusNotification => "DiagnosticsStatusNotification"@,
            MessageTypeName::FirmwareStatusNotification => "FirmwareStatusNotification"@,
            MessageTypeName::Heartbeat => "Heartbeat"@,
            MessageTypeName::MeterValues => "MeterValues"@,
            MessageTypeName::StartTransaction => "StartTransaction"@,
            MessageTypeName::StatusNotification => "StatusNotification"@,
            MessageTypeName::StopTransaction => "StopTransaction"@,
            MessageTypeName::LogStatusNotification => "LogStatusNotification"@,
            MessageTypeName::SecurityEventNotification => "SecurityEventNotification"@,
            MessageTypeName::SignedFirmwareStatusNotification => "SignedFirmwareStatusNotification"@,
            MessageTypeName::RemoteStartTransaction => "RemoteStartTransaction"@,
            MessageTypeName::RemoteStopTransaction => "RemoteStopTransaction"@,
            MessageTypeName::TriggerMessage => "TriggerMessage"@,
            MessageTypeName::SetChargingProfile => "SetChargingProfile"@,
            MessageTypeName::GetDiagnostics => "GetDiagnostics"@,
            MessageTypeName::ChangeConfiguration => "ChangeConfiguration"@,
            MessageTypeName::ClearChargingProfile => "ClearChargingProfile"@,
        }
    }

    /// The action name (`"BootNotification"`, ...).
    pub fn name(&self) -> (r: String)
        ensures
            r@ == self.name_view(),
    {
        let s = match self {
            MessageTypeName::Authorize => "Authorize",
            MessageTypeName::BootNotification => "BootNotification",
            MessageTypeName::DataTransfer => "DataTransfer",
            MessageTypeName::DiagnosticsStatusNotification => "DiagnosticsStatusNotification",
            MessageTypeName::FirmwareStatusNotification => "FirmwareStatusNotification",
            MessageTypeName::Heartbeat => "Heartbeat",
            MessageTypeName::MeterValues => "MeterValues",
            MessageTypeName::StartTransaction => "StartTransaction",
            MessageTypeName::StatusNotification => "StatusNotification",
            MessageTypeName::StopTransaction => "StopTransaction",
            MessageTypeName::LogStatusNotification => "LogStatusNotification",
            MessageTypeName::SecurityEventNotification => "SecurityEventNotification",
            MessageTypeName::SignedFirmwareStatusNotification => "SignedFirmwareStatusNotification",
            MessageTypeName::RemoteStartTransaction => "RemoteStartTransaction",
            MessageTypeName::RemoteStopTransaction => "RemoteStopTransaction",
            MessageTypeName::TriggerMessage => "TriggerMessage",
            MessageTypeName::SetChargingProfile => "SetChargingProfile",
            MessageTypeName::GetDiagnostics => "GetDiagnostics",
            MessageTypeName::ChangeConfiguration => "ChangeConfiguration",
            MessageTypeName::ClearChargingProfile => "ClearChargingProfile",
        };
        String::from_str(s)
    }
}

/// The actions, in the order of their declaration.
pub open spec fn all_message_type_names() -> Seq<MessageTypeName> {
    seq![
        MessageTypeName::Authorize,
        MessageTypeName::BootNotification,
        MessageTypeName::DataTransfer,
        MessageTypeName::DiagnosticsStatusNotification,
        MessageTypeName::FirmwareStatusNotification,
        MessageTypeName::Heartbeat,
        MessageTypeName::MeterValues,
        MessageTypeName::StartTransaction,
        MessageTypeName::StatusNotification,
        MessageTypeName::StopTransaction,
        MessageTypeName::LogStatusNotification,
        MessageTypeName::SecurityEventNotification,
        MessageTypeName::SignedFirmwareStatusNotification,
        MessageTypeName::RemoteStartTransaction,
        MessageTypeName::RemoteStopTransaction,
        MessageTypeName::TriggerMessage,
        MessageTypeName::SetChargingProfile,
        MessageTypeName::GetDiagnostics,
        MessageTypeName::ChangeConfiguration,
        MessageTypeName::ClearChargingProfile,
    ]
}

impl MessageTypeName {
    /// The action whose name is `name`, if any.
    pub fn from_name(name: &str) -> (r: Option<MessageTypeName>)
        ensures
            r matches Some(t) ==> t.name_view() == name@,
            r is None ==> forall|t: MessageTypeName| t.name_view() != name@,
    {
        let mut i: usize = 0;
        let candidates = vec![
            MessageTypeName::Authorize,
            MessageTypeName::BootNotification,
            MessageTypeName::DataTransfer,
            MessageTypeName::DiagnosticsStatusNotification,
            MessageTypeName::FirmwareStatusNotification,
            MessageTypeName::Heartbeat,
            MessageTypeName::MeterValues,
            MessageTypeName::StartTransaction,
            MessageTypeName::StatusNotification,
            MessageTypeName::StopTransaction,
            MessageTypeName::LogStatusNotification,
            MessageTypeName::SecurityEventNotification,
            MessageTypeName::SignedFirmwareStatusNotification,
            MessageTypeName::RemoteStartTransaction,
            MessageTypeName::RemoteStopTransaction,
            MessageTypeName::TriggerMessage,
            MessageTypeName::SetChargingProfile,
            MessageTypeName::GetDiagnostics,
            MessageTypeName::ChangeConfiguration,
            MessageTypeName::ClearChargingProfile,
        ];
        let target = String::from_str(name);
        assert(candidates@ == all_message_type_names());
        while i < candidates.len()
            invariant
                i <= candidates@.len(),
                candidates@ == all_message_type_names(),
                target@ == name@,
                forall|j: int| 0 <= j < i ==> (#[trigger] candidates@[j]).name_view() != name@,
            decreases candidates.len() - i,
        {
            let candidate = candidates[i];
            let candidate_name = candidate.name();
            if candidate_name == target {
                return Some(candidate);
            }
            i = i + 1;
        }
        assert forall|t: MessageTypeName| t.name_view() != name@ by {
            let names = all_message_type_names();
            let k: int = match t {
                MessageTypeName::Authorize => 0,
                MessageTypeName::BootNotification => 1,
                MessageTypeName::DataTransfer => 2,
                MessageTypeName::DiagnosticsStatusNotification => 3,
                MessageTypeName::FirmwareStatusNotification => 4,
                MessageTypeName::Heartbeat => 5,
                MessageTypeName::MeterValues => 6,
                MessageTypeName::StartTransaction => 7,
                MessageTypeName::StatusNotification => 8,
                MessageTypeName::StopTransaction => 9,
                MessageTypeName::LogStatusNotification => 10,
                MessageTypeName::SecurityEventNotification => 11,
                MessageTypeName::SignedFirmwareStatusNotification => 12,
                MessageTypeName::RemoteStartTransaction => 13,
                MessageTypeName::RemoteStopTransaction => 14,
                MessageTypeName::TriggerMessage => 15,
                MessageTypeName::SetChargingProfile => 16,
                MessageTypeName::GetDiagnostics => 17,
                MessageTypeName::ChangeConfiguration => 18,
                MessageTypeName::ClearChargingProfile => 19,
            };
            assert(names[k] == t);
            assert(candidates@[k].name_view() != name@);
        }
        None
    }
}

/// The frame of a request: `[2,"<uuid>","<action>",<payload>]`.
pub open spec fn request_frame(uuid: Seq<char>, action: Seq<char>, payload: Seq<char>) -> Seq<char> {
    "[2,\""@ + uuid + "\",\""@ + action + "\","@ + payload + "]"@
}

/// The frame of a response: `[3,"<uuid>",<payload>]`.
pub open spec fn response_frame(uuid: Seq<char>, payload: Seq<char>) -> Seq<char> {
    "[3,\""@ + uuid + "\","@ + payload + "]"@
}

/// Frames the JSON payload `request` of a request with the given action and uuid.
pub fn serialze_ocpp_request(message_type: MessageTypeName, uuid: &String, request: &String) -> (r:
    String)
    ensures
        r@ == request_frame(uuid@, message_type.name_view(), request@),
{
    let mut r = String::from_str("[2,\"");
    r.append(uuid.as_str());
    r.append("\",\"");
    let name = message_type.name();
    r.append(name.as_str());
    r.append("\",");
    r.append(request.as_str());
    r.append("]");
    r
}

/// Frames the JSON payload `response` of the response to the request with the given uuid.
pub fn serialze_ocpp_response(uuid: &String, response: &String) -> (r: String)
    ensures
        r@ == response_frame(uuid@, response@),
{
    let mut r = String::from_str("[3,\"");
    r.append(uuid.as_str());
    r.append("\",");
    r.append(response.as_str());
    r.append("]");
    r
}

} // verus!
