use pcd_acm::manager::{classify, respond, Classification, Reply};
use pcd_acm::reporter::{create_example_alert, create_heartbeat_msg, parse_command, sender_step, Command, SenderAction, SenderPhase};

#[test]
fn sender_sends_sleeps_then_checks() {
    let (p, a) = sender_step(SenderPhase::Sending, false);
    assert_eq!((p, a), (SenderPhase::Sleeping, SenderAction::Send));
    let (p, a) = sender_step(p, false);
    assert_eq!((p, a), (SenderPhase::Checking, SenderAction::Sleep));
    let (p, a) = sender_step(p, false);
    assert_eq!((p, a), (SenderPhase::Sending, SenderAction::Continue));
}

#[test]
fn cancellation_stops_within_one_send_and_one_sleep() {
    let mut phase = SenderPhase::Sending;
    let mut sends = 0;
    let mut sleeps = 0;
    for _ in 0..3 {
        let (p, a) = sender_step(phase, true);
        if a == SenderAction::Send {
            sends += 1;
        }
        if a == SenderAction::Sleep {
            sleeps += 1;
        }
        phase = p;
    }
    assert_eq!(phase, SenderPhase::Stopped);
    assert_eq!(sends, 1);
    assert_eq!(sleeps, 1);
    for _ in 0..5 {
        let (p, a) = sender_step(phase, false);
        assert_eq!((p, a), (SenderPhase::Stopped, SenderAction::Stop));
        phase = p;
    }
}

#[test]
fn commands() {
    assert_eq!(parse_command("q"), Command::Quit);
    assert_eq!(parse_command("a"), Command::SendAlert);
    assert_eq!(parse_command("t"), Command::ToggleHeartbeat);
    assert_eq!(parse_command("x"), Command::Unknown);
    assert_eq!(parse_command(""), Command::Unknown);
    assert_eq!(parse_command("qq"), Command::Unknown);
}

#[test]
fn heartbeat_message_shape() {
    let hb = create_heartbeat_msg();
    let m = hb.get_message().unwrap();
    assert_eq!(m.observations.len(), 10);
    assert_eq!(m.observations[2].identifier, "196614^MDC_EVT_ACTIVE^MDC");
    assert_eq!(m.observations[2].sub_id, "1.1.1.1");
    assert_eq!(m.observations[9].sub_id, "0.0.1.8");
    assert_eq!(m.observations[9].set_id, "10");
    assert_eq!(m.header.control_id, "0");
    assert_eq!(hb.get_location(), Some("POC^Room^Bed^fac^^^building^floor"));
    assert_eq!(classify(&m), Classification::Heartbeat);
}

#[test]
fn heartbeat_reply_keeps_fresh_control_id() {
    let mut hb = create_heartbeat_msg();
    let id = hb.renew_control_id();
    assert_eq!(id.len(), 36);
    assert_eq!(hb.message.header.control_id, id);
    let again = hb.renew_control_id();
    assert_ne!(id, again);
    match respond(&hb.get_message().unwrap()) {
        Reply::HeartbeatAck(r) => assert_eq!(r.header.control_id, again),
        _ => panic!("expected a heartbeat acknowledgment"),
    }
}

#[test]
fn example_alert_is_an_alarm() {
    let al = create_example_alert();
    let m = al.get_message().unwrap();
    assert_eq!(m.observations.len(), 9);
    assert_eq!(m.observations[2].identifier, "196670^MDC_EVT_LO^MDC");
    assert_eq!(m.observations[3].values, vec!["42".to_string()]);
    assert_eq!(m.observations[0].identifier, "69837^MDC_DEV_METER_PHYSIO_MULTI_PARAM_MDS^MDC");
    assert_eq!(classify(&m), Classification::Alarm);
}
