use ocpp_central::builders::{
    ChangeConfigurationBuilder, ClearChargingProfileBuilder, MessageBuilder,
    RemoteStartTransactionBuilder, RemoteStopTransactionBuilder, TriggerMessageBuilder,
};
use ocpp_central::ocpp_types::{
    serialze_ocpp_request, serialze_ocpp_response, CustomError, MessageType, MessageTypeName,
};
use ocpp_central::types::{MessageTrigger, Phase, SmartChargingMode};

#[test]
fn request_frame() {
    let frame = serialze_ocpp_request(
        MessageTypeName::StatusNotification,
        &"12345".to_owned(),
        &"{}".to_owned(),
    );
    assert_eq!(frame, "[2,\"12345\",\"StatusNotification\",{}]");
}

#[test]
fn response_frame() {
    let frame = serialze_ocpp_response(&"1367122111".to_owned(), &"{\"status\":\"Accepted\"}".to_owned());
    assert_eq!(frame, "[3,\"1367122111\",{\"status\":\"Accepted\"}]");
}

#[test]
fn message_type_codes() {
    assert_eq!(MessageType::Request.code(), 2);
    assert_eq!(MessageType::Response.code(), 3);
    assert_eq!(MessageType::Error.code(), 4);
    assert_eq!(MessageType::from_code(3), Some(MessageType::Response));
    assert_eq!(MessageType::from_code(5), None);
}

#[test]
fn names() {
    assert_eq!(MessageTypeName::ClearChargingProfile.name(), "ClearChargingProfile");
    assert_eq!(MessageTypeName::SignedFirmwareStatusNotification.name(), "SignedFirmwareStatusNotification");
    assert_eq!(SmartChargingMode::PVOverProductionAndGridBased.name(), "PVOverProductionAndGridBased");
    assert_eq!(SmartChargingMode::default(), SmartChargingMode::Instant);
    assert_eq!(Phase::L1N.name(), "L1N");
}

#[test]
fn error_messages() {
    assert_eq!(CustomError::Sql("no table".to_owned()).message(), "no table");
    assert_eq!(CustomError::Serde("bad json".to_owned()).message(), "bad json");
}

#[test]
fn unbuilt_request_is_an_error() {
    let builder = TriggerMessageBuilder::new(MessageTrigger::Heartbeat, Some(1));
    match builder.get_message_request() {
        Err(CustomError::Common(m)) => assert_eq!(m, ".build() has not been called!"),
        other => panic!("unexpected result {:?}", other),
    }
    assert!(builder.serialize().is_err());
}

#[test]
fn built_requests_carry_their_fields() {
    let (uuid, request) = ChangeConfigurationBuilder::new("Key".to_owned(), "Value".to_owned())
        .build()
        .serialize()
        .unwrap();
    assert_eq!(uuid.len(), 36);
    assert_eq!(request.key, "Key");
    assert_eq!(request.value, "Value");

    let stop = RemoteStopTransactionBuilder::new(7).build();
    assert_eq!(stop.get_message_type_name(), MessageTypeName::RemoteStopTransaction);
    assert_eq!(stop.get_message_request().unwrap().transaction_id, 7);

    let clear = ClearChargingProfileBuilder::default().build().get_message_request().unwrap();
    assert_eq!(clear.id, None);
    assert_eq!(clear.stack_level, None);

    let start = RemoteStartTransactionBuilder::new(1, "TAG").build().get_message_request().unwrap();
    assert_eq!(start.connector_id, Some(1));
    assert_eq!(start.id_tag, "TAG");
    assert!(start.charging_profile.is_none());
}
