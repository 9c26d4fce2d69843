use pcd_acm::builder::PCD04Message;
use pcd_acm::manager::{classify, find_alert_observation, heartbeat_ack_text, mark_delivered, respond, Classification, Reply};
use pcd_acm::message::{Message, Observation};

fn obs(sub_id: &str, identifier: &str) -> Observation {
    Observation {
        set_id: String::new(),
        value_type: String::new(),
        identifier: identifier.to_string(),
        sub_id: sub_id.to_string(),
        values: Vec::new(),
        units: String::new(),
        result_status: String::new(),
        observed_at: String::new(),
        equipment: Vec::new(),
        sites: Vec::new(),
        actions: Vec::new(),
    }
}

fn inbound(message_type: &str, control_id: &str, observations: Vec<Observation>) -> Message {
    let mut m = Message::new();
    m.header.message_type = message_type.to_string();
    m.header.control_id = control_id.to_string();
    m.header.sending_facility = Some("SOMEWHERE".to_string());
    m.observations = observations;
    m
}

#[test]
fn heartbeat_gets_confirmed_ack() {
    let m = inbound(
        "ORU^R40^ORU_R40",
        "hb-7",
        vec![obs("1.0.0.0", "X"), obs("1.1.1.1", "196614^MDC_EVT_ACTIVE^MDC")],
    );
    assert_eq!(classify(&m), Classification::Heartbeat);
    match respond(&m) {
        Reply::HeartbeatAck(r) => {
            assert_eq!(r.header.message_type, "ACK^R40");
            assert_eq!(r.header.accept_ack_type.as_deref(), Some("CA"));
            assert_eq!(r.header.control_id, "hb-7");
            assert_eq!(r.header.sending_facility, None);
            assert!(r.observations.is_empty());
        }
        _ => panic!("expected a heartbeat acknowledgment"),
    }
}

#[test]
fn alarm_gets_manager_ack() {
    let m = inbound(
        "ORU^R40^ORU_R40",
        "al-3",
        vec![obs("1.0.0.0", "X"), obs("1.1.1.1", "196670^MDC_EVT_LO^MDC")],
    );
    assert_eq!(classify(&m), Classification::Alarm);
    match respond(&m) {
        Reply::AlarmAck(r) => {
            assert_eq!(r.header.message_type, "ACK^R40");
            assert_eq!(r.header.sending_facility.as_deref(), Some("MockAM"));
            assert_eq!(r.header.control_id, "al-3");
            assert_eq!(r.header.accept_ack_type, None);
        }
        _ => panic!("expected an alarm acknowledgment"),
    }
}

#[test]
fn bare_local_index_one_counts() {
    let m = inbound("ORU^R40^ORU_R40", "c", vec![obs("1", "196614^MDC_EVT_ACTIVE^MDC")]);
    assert_eq!(classify(&m), Classification::Heartbeat);
}

#[test]
fn first_alert_identity_decides() {
    let m = inbound(
        "ORU^R40^ORU_R40",
        "c",
        vec![obs("2.1", "196670^MDC_EVT_LO^MDC"), obs("2.1", "196614^MDC_EVT_ACTIVE^MDC")],
    );
    assert_eq!(find_alert_observation(&m.observations), Some(0));
    assert_eq!(classify(&m), Classification::Alarm);
}

#[test]
fn local_index_must_be_exactly_one() {
    let observations = vec![obs("1.11", "A"), obs("1.21", "B"), obs("1.0", "C"), obs("", "D")];
    assert_eq!(find_alert_observation(&observations), None);
    let m = inbound("ORU^R40^ORU_R40", "c", observations);
    assert_eq!(classify(&m), Classification::NoAlertIdentity);
    assert!(matches!(respond(&m), Reply::Nothing));
}

#[test]
fn acknowledgment_is_only_logged() {
    let m = inbound("ACK^R41", "c", vec![obs("1.1", "196614^MDC_EVT_ACTIVE^MDC")]);
    assert_eq!(classify(&m), Classification::Ack);
    assert!(matches!(respond(&m), Reply::Nothing));
}

#[test]
fn unknown_type_gets_no_reply() {
    let m = inbound("ADT^A01", "c", vec![obs("1.1", "196614^MDC_EVT_ACTIVE^MDC")]);
    assert_eq!(classify(&m), Classification::Unknown);
    assert!(matches!(respond(&m), Reply::Nothing));
}

#[test]
fn heartbeat_ack_literal() {
    assert_eq!(
        heartbeat_ack_text(1700000000, "abc"),
        "MSH|^~\\&|||||1700000000||ACK||P|2.1\rMSA|AA|abc\r"
    );
}

#[test]
fn mark_delivered_sets_first_action() {
    let mut m = Message::new();
    assert!(!mark_delivered(&mut m));
    let mut o = obs("1.1", "A");
    o.actions = vec![None, Some("other".to_string())];
    m.observations = vec![o];
    assert!(mark_delivered(&mut m));
    assert_eq!(m.observations[0].actions, vec![Some("Delivered".to_string()), Some("other".to_string())]);
}

#[test]
fn built_alarm_classifies_as_alarm() {
    let mut b = PCD04Message::new();
    b.create_pcd04_message_at(
        "T", "L", "E", "I", "N", "D", "S", "196670^MDC_EVT_LO^MDC", "Low", "start", "PM", "1.1.1",
        "OBS", "42", "NM", "", "U", "SP", "", 0, "", "", "", None, "", "", "",
    );
    let m = b.get_message().unwrap();
    assert_eq!(classify(&m), Classification::Alarm);
}
