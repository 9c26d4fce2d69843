use pcd_acm::builder::PCD04Message;

fn build(msg: &mut PCD04Message, counter: i32, receiving: Option<&str>) {
    msg.create_pcd04_message_at(
        "20240102030405UTC",
        "ICU^1^2",
        "EQ-1",
        "PID-9",
        "Doe^Jane",
        "19700101",
        "F",
        "196670^MDC_EVT_LO^MDC",
        "Low Alert",
        "start",
        "PM",
        "3.4.5",
        "150456^MDC_PULS_OXIM_SAT_O2^MDC",
        "42",
        "NM",
        "%",
        "alert-uuid",
        "SP",
        "20240102030400",
        counter,
        "active",
        "enabled",
        "FAC",
        receiving,
        "P",
        "MDS-T",
        "VMD-T",
    );
}

#[test]
fn observations_are_numbered_in_order() {
    let mut msg = PCD04Message::new();
    build(&mut msg, 0, None);
    let m = msg.get_message().unwrap();
    assert_eq!(m.observations.len(), 9);
    let ids: Vec<&str> = m.observations.iter().map(|o| o.set_id.as_str()).collect();
    assert_eq!(ids, vec!["1", "2", "3", "4", "5", "6", "7", "8", "9"]);
    let subs: Vec<&str> = m.observations.iter().map(|o| o.sub_id.as_str()).collect();
    assert_eq!(
        subs,
        vec!["3.0.0.0", "3.4.0.0", "3.4.5.1", "3.4.5.2", "3.4.5.3", "3.4.5.4", "3.4.5.5", "3.4.5.6", "3.4.5.7"]
    );
}

#[test]
fn observations_carry_their_codes_and_values() {
    let mut msg = PCD04Message::new();
    build(&mut msg, 0, None);
    let m = msg.get_message().unwrap();
    let o = &m.observations;
    assert_eq!(o[0].identifier, "MDS-T");
    assert_eq!(o[1].identifier, "VMD-T");
    assert_eq!(o[2].identifier, "196670^MDC_EVT_LO^MDC");
    assert_eq!(o[2].values, vec!["Low Alert".to_string()]);
    assert_eq!(o[3].identifier, "150456^MDC_PULS_OXIM_SAT_O2^MDC");
    assert_eq!(o[3].values, vec!["42".to_string()]);
    assert_eq!(o[3].units, "%");
    assert_eq!(o[3].observed_at, "20240102030400");
    assert_eq!(o[3].value_type, "NM");
    assert_eq!(o[3].result_status, "F");
    assert_eq!(o[0].result_status, "X");
    assert_eq!(o[0].value_type, "");
    assert_eq!(o[4].identifier, "68481^MDC_ATTR_EVENT_PHASE^MDC");
    assert_eq!(o[4].values, vec!["start".to_string()]);
    assert_eq!(o[5].identifier, "68482^MDC_ATTR_ALARM_STATE^MDC");
    assert_eq!(o[5].values, vec!["active".to_string()]);
    assert_eq!(o[6].identifier, "68483^MDC_ATTR_ALARM_INACTIVATION_STATE^MDC");
    assert_eq!(o[6].values, vec!["enabled".to_string()]);
    assert_eq!(o[7].identifier, "68484^MDC_ATTR_ALARM_PRIORITY^MDC");
    assert_eq!(o[7].values, vec!["PM".to_string()]);
    assert_eq!(o[8].identifier, "68485^MDC_ATTR_ALERT_TYPE^MDC");
    assert_eq!(o[8].values, vec!["SP".to_string()]);
    for obs in o {
        assert_eq!(obs.equipment, vec!["EQ-1".to_string()]);
        assert_eq!(obs.sites, vec!["".to_string()]);
    }
}

#[test]
fn header_patient_visit_and_order() {
    let mut msg = PCD04Message::new();
    build(&mut msg, 2, Some("RECV"));
    let m = msg.get_message().unwrap();
    let h = &m.header;
    assert_eq!(h.sending_application.as_deref(), Some("0000000000000001^EUI-64"));
    assert_eq!(h.sending_facility.as_deref(), Some("FAC"));
    assert_eq!(h.receiving_application.as_deref(), Some("RECV"));
    assert_eq!(h.timestamp, "20240102030405UTC");
    assert_eq!(h.message_type, "ORU^R40^ORU_R40");
    assert_eq!(h.control_id, "0");
    assert_eq!(h.processing_id, "P");
    assert_eq!(h.accept_ack_type.as_deref(), Some("AL"));
    assert_eq!(h.app_ack_type.as_deref(), Some("NE"));
    assert_eq!(
        h.profile_ids,
        vec!["IHE_PCD_ACM_001^IHE PCD^1.3.6.1.4.1.19376.1.6.1.4.1^ISO".to_string()]
    );
    let p = m.patient.as_ref().unwrap();
    assert_eq!(p.identifiers, vec!["PID-9".to_string()]);
    assert_eq!(p.names, vec!["Doe^Jane".to_string()]);
    assert_eq!(p.birth_date.as_deref(), Some("19700101"));
    assert_eq!(p.sex.as_deref(), Some("F"));
    let v = m.visit.as_ref().unwrap();
    assert_eq!(v.patient_class, "I");
    assert_eq!(v.location.as_deref(), Some("ICU^1^2"));
    let o = m.order.as_ref().unwrap();
    assert_eq!(o.order_control, "1");
    assert_eq!(o.filler_order_number.as_deref(), Some("2^alert-uuid^0000000000000001^EUI-64"));
    assert_eq!(o.placer_group_number.as_deref(), Some("196616^MDC_EVT_ALARM^MDC"));
    assert_eq!(o.quantity_timing, vec!["20240102030405UTC".to_string()]);
    assert_eq!(o.parent.as_deref(), Some("^0&alert-uuid&0000000000000001&EUI-64"));
}

#[test]
fn first_alert_has_no_parent() {
    let mut msg = PCD04Message::new();
    build(&mut msg, 0, None);
    let m = msg.get_message().unwrap();
    let o = m.order.as_ref().unwrap();
    assert_eq!(o.filler_order_number.as_deref(), Some("0^alert-uuid^0000000000000001^EUI-64"));
    assert_eq!(o.parent, None);
    assert_eq!(m.header.receiving_application, None);
}

#[test]
fn control_id_counter_runs_across_messages() {
    let mut msg = PCD04Message::new();
    build(&mut msg, 0, None);
    assert_eq!(msg.message.header.control_id, "0");
    build(&mut msg, 0, None);
    assert_eq!(msg.message.header.control_id, "1");
    assert_eq!(msg.message.observations.len(), 9);
    assert_eq!(msg.obx_count, 9);
}

#[test]
fn watchdog_continues_numbering() {
    let mut msg = PCD04Message::new();
    build(&mut msg, 0, None);
    msg.append_watchdog_obx_segment("5", "None", "0.0.1");
    let m = msg.get_message().unwrap();
    assert_eq!(m.observations.len(), 10);
    let w = &m.observations[9];
    assert_eq!(w.set_id, "10");
    assert_eq!(w.sub_id, "0.0.1.8");
    assert_eq!(w.identifier, "67860^MDC_ATTR_CONFIRM_TIMEOUT^MDC");
    assert_eq!(w.values, vec!["5".to_string()]);
    assert_eq!(w.units, "None");
    assert_eq!(w.value_type, "NM");
    assert_eq!(w.result_status, "F");
}

#[test]
fn set_control_id_changes_only_the_id() {
    let mut msg = PCD04Message::new();
    build(&mut msg, 0, None);
    msg.set_control_id("abc-123");
    let m = msg.get_message().unwrap();
    assert_eq!(m.header.control_id, "abc-123");
    assert_eq!(m.header.message_type, "ORU^R40^ORU_R40");
    assert_eq!(m.observations.len(), 9);
}

#[test]
fn clock_stamped_build_uses_utc() {
    let mut msg = PCD04Message::new();
    msg.create_pcd04_message(
        "LOC", "EQ", "ID", "NAME", "DOB", "SEX", "TYPE", "TEXT", "PHASE", "PRIO", "1.2.3", "OBS",
        "VAL", "", "", "UUID", "KIND", "", 0, "", "", "", None, "", "", "",
    );
    let m = msg.get_message().unwrap();
    assert_eq!(m.header.timestamp.len(), 17);
    assert!(m.header.timestamp.ends_with("UTC"));
    assert_eq!(m.order.as_ref().unwrap().quantity_timing, vec![m.header.timestamp.clone()]);
    assert_eq!(m.observations[3].result_status, "X");
}

#[test]
fn getters_read_the_message() {
    let mut msg = PCD04Message::new();
    assert_eq!(msg.get_device_id(), None);
    assert_eq!(msg.get_location(), None);
    assert_eq!(msg.get_patient_id(), None);
    build(&mut msg, 0, None);
    assert_eq!(msg.get_device_id(), Some("EQ-1"));
    assert_eq!(msg.get_equip(), Some("EQ-1"));
    assert_eq!(msg.get_location(), Some("ICU^1^2"));
    assert_eq!(msg.get_patient_id(), Some("PID-9"));
    assert_eq!(msg.get_patient_name(), Some("Doe^Jane"));
    assert_eq!(msg.get_patient_dob(), Some("19700101"));
    assert_eq!(msg.get_patient_sex(), Some("F"));
    assert_eq!(msg.get_obx_segment("4"), Some("4"));
    assert_eq!(msg.get_obx_segment("12"), None);
}

#[test]
fn setters_replace_observations() {
    let mut msg = PCD04Message::new();
    build(&mut msg, 0, None);
    msg.set_alarm_phase("end");
    assert_eq!(msg.message.observations[3].values, vec!["end".to_string()]);
    assert_eq!(msg.message.observations[3].identifier, "");
    msg.set_alarm_state("inactive");
    assert_eq!(msg.message.observations[4].values, vec!["inactive".to_string()]);
    msg.set_alarm_inactivation_state("off");
    assert_eq!(msg.message.observations[5].values, vec!["off".to_string()]);
    msg.set_alarm_prio("PH");
    assert_eq!(msg.message.observations[6].values, vec!["PH".to_string()]);
    msg.set_alarm_kind("ST");
    assert_eq!(msg.message.observations[7].values, vec!["ST".to_string()]);
    msg.set_observation_value_by_index(99, "ignored");
    assert_eq!(msg.message.observations.len(), 9);
    msg.set_alarm_ctp("comment");
    assert_eq!(msg.message.notes, vec!["comment".to_string()]);
    msg.set_alarm_type_and_text("T", "text");
    for o in &msg.message.observations {
        assert_eq!(o.identifier, "T");
        assert_eq!(o.values, vec!["text".to_string()]);
    }
}

#[test]
fn note_needs_a_patient() {
    let mut msg = PCD04Message::new();
    msg.set_alarm_ctp("comment");
    assert!(msg.message.notes.is_empty());
}
