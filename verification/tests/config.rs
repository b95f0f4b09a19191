use pushkind_sms::{parse_usize, ServiceConfig};

#[test]
fn parse_max_concurrent_from_value() {
    let c = ServiceConfig::from_values(Some("tcp://10.0.0.1:6000".into()), Some("7".into()));
    assert_eq!(c.zmq_endpoint, "tcp://10.0.0.1:6000");
    assert_eq!(c.max_concurrent_sms, 7);
}

#[test]
fn parse_max_concurrent_default() {
    let c = ServiceConfig::from_values(None, None);
    assert_eq!(c.zmq_endpoint, "tcp://127.0.0.1:5562");
    assert_eq!(c.max_concurrent_sms, 100);
}

#[test]
fn malformed_max_concurrent_falls_back_to_default() {
    for text in ["", "+", "abc", "12a", " 5", "5 ", "-3", "1.5", "99999999999999999999999"] {
        let c = ServiceConfig::from_values(None, Some(text.into()));
        assert_eq!(c.max_concurrent_sms, 100, "{text:?}");
    }
}

#[test]
fn parse_usize_agrees_with_std() {
    for text in [
        "0", "+0", "007", "+42", "42", "", "+", "++1", "-0", "-1", " 1", "1 ", "abc", "1_000",
        "18446744073709551615", "18446744073709551616", "99999999999999999999", "٣",
    ] {
        assert_eq!(parse_usize(text), text.parse::<usize>().ok(), "{text:?}");
    }
}

#[test]
fn empty_endpoint_is_kept() {
    let c = ServiceConfig::from_values(Some(String::new()), Some("3".into()));
    assert_eq!(c.zmq_endpoint, "");
    assert_eq!(c.max_concurrent_sms, 3);
}

#[test]
fn zero_max_concurrent_falls_back_to_default() {
    for text in ["0", "+0", "000"] {
        let c = ServiceConfig::from_values(None, Some(text.into()));
        assert_eq!(c.max_concurrent_sms, 100, "{text:?}");
    }
    let c = ServiceConfig::from_values(None, Some("1".into()));
    assert_eq!(c.max_concurrent_sms, 1);
}
