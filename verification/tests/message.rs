use pushkind_sms::{prepare_send, PhoneParseError, ServiceError, SnsPublishRequest, ZMQSendSmsMessage};

fn msg(sender_id: &str, phone_number: &str, message: &str) -> ZMQSendSmsMessage {
    ZMQSendSmsMessage {
        sender_id: sender_id.into(),
        phone_number: phone_number.into(),
        message: message.into(),
    }
}

#[test]
fn valid_message_passes_validation() {
    let msg = ZMQSendSmsMessage {
        sender_id: "TEST".into(),
        phone_number: "+12345678901".into(),
        message: "Test message".into(),
    };
    assert!(msg.validate().is_ok());
}

#[test]
fn empty_sender_id_fails_validation() {
    let msg = ZMQSendSmsMessage {
        sender_id: "".into(),
        phone_number: "+1234567890".into(),
        message: "Test".into(),
    };
    assert!(matches!(
        msg.validate(),
        Err(ServiceError::InvalidMessage(_))
    ));
}

#[test]
fn empty_message_fails_validation() {
    let msg = ZMQSendSmsMessage {
        sender_id: "TEST".into(),
        phone_number: "+12345678901".into(),
        message: "".into(),
    };
    assert!(matches!(
        msg.validate(),
        Err(ServiceError::InvalidMessage(_))
    ));
}

#[test]
fn invalid_phone_number_fails_validation() {
    let msg = ZMQSendSmsMessage {
        sender_id: "TEST".into(),
        phone_number: "invalid".into(),
        message: "Test".into(),
    };
    assert!(matches!(
        msg.validate(),
        Err(ServiceError::InvalidPhoneNumber(_))
    ));
}

#[test]
fn phone_masking_works() {
    let msg = ZMQSendSmsMessage {
        sender_id: "TEST".into(),
        phone_number: "+12345678901".into(),
        message: "Test".into(),
    };
    assert_eq!(msg.mask_phone(), "+123******01");
}

#[test]
fn phone_masking_short_number() {
    let msg = ZMQSendSmsMessage {
        sender_id: "TEST".into(),
        phone_number: "+123".into(),
        message: "Test".into(),
    };
    assert_eq!(msg.mask_phone(), "+123******");
}

#[test]
fn validation_error_messages_name_the_field() {
    assert_eq!(
        msg("", "+12345678901", "Hi").validate(),
        Err(ServiceError::InvalidMessage("sender_id is empty".into()))
    );
    assert_eq!(
        msg("TEST", "+12345678901", "").validate(),
        Err(ServiceError::InvalidMessage("message is empty".into()))
    );
}

#[test]
fn validation_checks_sender_before_phone_and_phone_before_body() {
    assert_eq!(
        msg("", "invalid", "").validate(),
        Err(ServiceError::InvalidMessage("sender_id is empty".into()))
    );
    assert_eq!(
        msg("TEST", "invalid", "").validate(),
        Err(ServiceError::InvalidPhoneNumber(PhoneParseError::NoNumber))
    );
}

#[test]
fn unparsable_phone_reports_no_number() {
    assert_eq!(
        msg("TEST", "invalid", "Hi").validate(),
        Err(ServiceError::InvalidPhoneNumber(PhoneParseError::NoNumber))
    );
}

#[test]
fn parsable_but_invalid_phone_is_rejected() {
    // parses (country code 1) but no area code starts with 1
    assert_eq!(
        msg("TEST", "+11234567890", "Hi").validate(),
        Err(ServiceError::InvalidPhoneNumber(PhoneParseError::NoNumber))
    );
}

#[test]
fn phone_parse_errors_are_passed_on() {
    assert_eq!(
        msg("TEST", "+10000000000", "Hi").validate(),
        Err(ServiceError::InvalidPhoneNumber(PhoneParseError::MalformedInteger))
    );
}

#[test]
fn mask_keeps_length_of_long_numbers() {
    let m = msg("T", "+441234567890123", "x").mask_phone();
    assert_eq!(m, "+441******890123");
    assert_eq!(m.chars().count(), 16);
}

#[test]
fn mask_of_ten_characters() {
    assert_eq!(msg("T", "0123456789", "x").mask_phone(), "0123******");
    assert_eq!(msg("T", "01234567890", "x").mask_phone(), "0123******0");
}

#[test]
fn mask_of_empty_and_very_short_numbers() {
    assert_eq!(msg("T", "", "x").mask_phone(), "******");
    assert_eq!(msg("T", "+1", "x").mask_phone(), "+1******");
    assert_eq!(msg("T", "+12345", "x").mask_phone(), "+123******");
}

#[test]
fn mask_counts_characters_not_bytes() {
    assert_eq!(msg("T", "éééééééééééé", "x").mask_phone(), "éééé******éé");
}

#[test]
fn mask_hides_the_middle() {
    let a = msg("T", "+12345678901", "x").mask_phone();
    let b = msg("T", "+12399999901", "x").mask_phone();
    assert_eq!(a, b);
}

#[test]
fn mask_twice_is_mask_once() {
    let once = msg("T", "+12345678901", "x").mask_phone();
    let twice = msg("T", &once, "x").mask_phone();
    assert_eq!(once, twice);
}

#[test]
fn mask_twice_differs_for_numbers_under_four_characters() {
    let once = msg("T", "+1", "x").mask_phone();
    let twice = msg("T", &once, "x").mask_phone();
    assert_eq!(twice, "+1********");
    assert_ne!(once, twice);
}

#[test]
fn prepare_send_masks_a_valid_request() {
    assert_eq!(prepare_send(&msg("TEST", "+12345678901", "Hello")), Ok("+123******01".to_string()));
}

#[test]
fn prepare_send_rejects_an_invalid_request() {
    assert_eq!(
        prepare_send(&msg("TEST", "+12345678901", "")),
        Err(ServiceError::InvalidMessage("message is empty".into()))
    );
}

#[test]
fn sns_request_carries_phone_message_and_sender() {
    let req = match SnsPublishRequest::from_message(msg("TEST", "+12345678901", "Hello")) {
        Ok(r) => r,
        Err(_) => panic!("building the request failed"),
    };
    assert_eq!(req.phone_number, "+12345678901");
    assert_eq!(req.message, "Hello");
    assert_eq!(req.attribute_name, "SenderID");
    assert_eq!(req.sender_attribute.data_type(), "String");
    assert_eq!(req.sender_attribute.value(), "TEST");
    let attribute = req.sender_attribute.into_attribute();
    assert_eq!(attribute.data_type(), "String");
    assert_eq!(attribute.string_value(), Some("TEST"));
}
