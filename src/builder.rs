//! Assembles an alert-report message: header, order, patient, visit and the
//! ordered observations that describe one heartbeat or alarm.

use vstd::prelude::*;
use crate::message::{
    Message, MessageView, HeaderView, empty_message, OrderView, PatientView, VisitView, ObservationView,
    Observation, Order, PatientIdentity, Visit, strs, opts, obs_views,
};
use crate::text::{dec, signed_dec, decimal, signed_decimal, tree_roots, mds_tree, vmd_tree, has_dot};

verus! {

/// Sending application of every alert report: the reporting actor.
pub const ACTOR_EUI64: &'static str = "0000000000000001^EUI-64";

/// The same actor, written as a sub-component.
pub const ACTOR_EUI64_SUB: &'static str = "0000000000000001&EUI-64";

/// Accept-acknowledgment type of an alert report: always.
pub const ACCEPT_ACK_TYPE_ACM: &'static str = "AL";

/// Application-acknowledgment type of an alert report: never.
pub const APP_ACK_TYPE: &'static str = "NE";

/// Message type of an alert report.
pub const ALERT_REPORT_TYPE: &'static str = "ORU^R40^ORU_R40";

/// Profile identifier of an alert report.
pub const ACM_PROFILE: &'static str = "IHE_PCD_ACM_001^IHE PCD^1.3.6.1.4.1.19376.1.6.1.4.1^ISO";

/// Patient class of the visit block: inpatient.
pub const PATIENT_CLASS_INPATIENT: &'static str = "I";

/// Order control code of the order block.
pub const ORDER_CONTROL: &'static str = "1";

/// Placer group of the order block: an alarm event.
pub const EVT_ALARM: &'static str = "196616^MDC_EVT_ALARM^MDC";

/// Observation identifier of the event-phase attribute.
pub const ATTR_EVENT_PHASE: &'static str = "68481^MDC_ATTR_EVENT_PHASE^MDC";

/// Observation identifier of the alarm-state attribute.
pub const ATTR_ALARM_STATE: &'static str = "68482^MDC_ATTR_ALARM_STATE^MDC";

/// Observation identifier of the alarm-inactivation-state attribute.
pub const ATTR_ALARM_INACTIVATION_STATE: &'static str = "68483^MDC_ATTR_ALARM_INACTIVATION_STATE^MDC";

/// Observation identifier of the alarm-priority attribute.
pub const ATTR_ALARM_PRIORITY: &'static str = "68484^MDC_ATTR_ALARM_PRIORITY^MDC";

/// Observation identifier of the alert-kind attribute.
pub const ATTR_ALERT_TYPE: &'static str = "68485^MDC_ATTR_ALERT_TYPE^MDC";

/// Observation identifier of the confirm-timeout attribute.
pub const ATTR_CONFIRM_TIMEOUT: &'static str = "67860^MDC_ATTR_CONFIRM_TIMEOUT^MDC";

/// Value type of a numeric observation.
pub const VALUE_TYPE_NUMERIC: &'static str = "NM";

/// Result status of an observation that carries a value.
pub const STATUS_FINAL: &'static str = "F";

/// Result status of a structural observation with no value.
pub const STATUS_NO_RESULT: &'static str = "X";

/// View of an optional borrowed string.
pub open spec fn opt_str(o: Option<&str>) -> Option<Seq<char>> {
    match o {
        Some(s) => Some(s@),
        None => None,
    }
}

/// The header of an alert report.
pub open spec fn alert_header(
    prev: HeaderView,
    counter: nat,
    time: Seq<char>,
    facility: Seq<char>,
    receiving: Option<Seq<char>>,
    processing: Seq<char>,
) -> HeaderView {
    HeaderView {
        sending_application: Some(ACTOR_EUI64@),
        sending_facility: Some(facility),
        receiving_application: match receiving {
            Some(r) => Some(r),
            None => prev.receiving_application,
        },
        timestamp: time,
        message_type: ALERT_REPORT_TYPE@,
        control_id: dec(counter),
        processing_id: processing,
        accept_ack_type: Some(ACCEPT_ACK_TYPE_ACM@),
        app_ack_type: Some(APP_ACK_TYPE@),
        profile_ids: seq![ACM_PROFILE@],
    }
}

/// The patient block of an alert report.
pub open spec fn patient_block(
    ids: Seq<char>,
    name: Seq<char>,
    dob: Seq<char>,
    sex: Seq<char>,
) -> PatientView {
    PatientView { identifiers: seq![ids], names: seq![name], birth_date: Some(dob), sex: Some(sex) }
}

/// The visit block of an alert report.
pub open spec fn visit_block(location: Seq<char>) -> VisitView {
    VisitView { patient_class: PATIENT_CLASS_INPATIENT@, location: Some(location) }
}

/// The order block of an alert report: the update count, the alert's unique
/// id and the reporting actor, and for an update the alert it continues.
pub open spec fn order_block(time: Seq<char>, alert_uuid: Seq<char>, update: int) -> OrderView {
    OrderView {
        order_control: ORDER_CONTROL@,
        filler_order_number: Some(signed_dec(update) + "^"@ + alert_uuid + "^"@ + ACTOR_EUI64@),
        placer_group_number: Some(EVT_ALARM@),
        quantity_timing: seq![time],
        parent: if update > 0 {
            Some("^0&"@ + alert_uuid + "&"@ + ACTOR_EUI64_SUB@)
        } else {
            None
        },
    }
}

/// One observation: number `seq_no` in the message, local index `idx` under
/// the containment tree `tree`.
pub open spec fn obx_view(
    seq_no: nat,
    idx: nat,
    id: Seq<char>,
    value: Seq<char>,
    unit: Seq<char>,
    time: Seq<char>,
    site: Seq<char>,
    vtype: Seq<char>,
    tree: Seq<char>,
    equip: Seq<char>,
) -> ObservationView {
    ObservationView {
        set_id: dec(seq_no),
        value_type: vtype,
        identifier: id,
        sub_id: tree + "."@ + dec(idx),
        values: seq![value],
        units: unit,
        result_status: if vtype.len() > 0 {
            STATUS_FINAL@
        } else {
            STATUS_NO_RESULT@
        },
        observed_at: time,
        equipment: seq![equip],
        sites: seq![site],
        actions: Seq::empty(),
    }
}

/// The observations of an alert report, in order: device system and virtual
/// device (local index 0 both), alert type and text (1), the physiological
/// value (2), then phase, state, inactivation state, priority and kind
/// (3 to 7).
pub open spec fn alert_observations(
    equip: Seq<char>,
    tree: Seq<char>,
    mds_type: Seq<char>,
    vmd_type: Seq<char>,
    alert_type: Seq<char>,
    alert_text: Seq<char>,
    obs_type: Seq<char>,
    obs_value: Seq<char>,
    obs_unit: Seq<char>,
    obs_time: Seq<char>,
    obs_value_type: Seq<char>,
    phase: Seq<char>,
    state: Seq<char>,
    inactivation: Seq<char>,
    priority: Seq<char>,
    kind: Seq<char>,
) -> Seq<ObservationView> {
    let e = Seq::<char>::empty();
    seq![
        obx_view(1, 0, mds_type, e, e, e, e, e, mds_tree(tree), equip),
        obx_view(2, 0, vmd_type, e, e, e, e, e, vmd_tree(tree), equip),
        obx_view(3, 1, alert_type, alert_text, e, e, e, e, tree, equip),
        obx_view(4, 2, obs_type, obs_value, obs_unit, obs_time, e, obs_value_type, tree, equip),
        obx_view(5, 3, ATTR_EVENT_PHASE@, phase, e, e, e, e, tree, equip),
        obx_view(6, 4, ATTR_ALARM_STATE@, state, e, e, e, e, tree, equip),
        obx_view(7, 5, ATTR_ALARM_INACTIVATION_STATE@, inactivation, e, e, e, e, tree, equip),
        obx_view(8, 6, ATTR_ALARM_PRIORITY@, priority, e, e, e, e, tree, equip),
        obx_view(9, 7, ATTR_ALERT_TYPE@, kind, e, e, e, e, tree, equip),
    ]
}

/// Builds alert-report messages. The control-id counter runs across the
/// messages it builds; the observation counter restarts with each message.
pub struct PCD04Message {
    pub message: Message,
    pub msg_control_id_iter: u64,
    pub obx_count: u64,
    pub equip_ii: String,
}

/// The mathematical view of a builder: its message, the next control id,
/// the observation counter and the equipment id it stamps on observations.
pub ghost struct BuilderView {
    pub message: MessageView,
    pub next_control_id: nat,
    pub obx_count: nat,
    pub equipment: Seq<char>,
}

impl View for PCD04Message {
    type V = BuilderView;

    open spec fn view(&self) -> BuilderView {
        BuilderView {
            message: self.message@,
            next_control_id: self.msg_control_id_iter as nat,
            obx_count: self.obx_count as nat,
            equipment: self.equip_ii@,
        }
    }
}

/// Relies on chrono's `Utc::now` and `DateTime::format`: the current time in
/// UTC, written as `%Y%m%d%H%M%S%Z`.
#[verifier::external_body]
fn utc_timestamp_now() -> (r: String) {
    chrono::Utc::now().format("%Y%m%d%H%M%S%Z").to_string()
}

impl PCD04Message {
    /// The observation counter matches the observations the message holds.
    pub open spec fn wf(&self) -> bool {
        self.obx_count as nat == self.message.observations@.len()
    }

    /// A builder with an empty message and both counters at zero.
    pub fn new() -> (r: PCD04Message)
        ensures
            r.wf(),
            r@.message == empty_message(),
            r@.next_control_id == 0,
            r@.obx_count == 0,
            r@.equipment.len() == 0,
    {
        PCD04Message {
            message: Message::new(),
            msg_control_id_iter: 0,
            obx_count: 0,
            equip_ii: String::new(),
        }
    }
}

impl PCD04Message {
    fn create_msh_segment_acm(
        &mut self,
        msg_time_str: &str,
        sending_facility: &str,
        receiving_app: Option<&str>,
        processing_id: &str,
    )
        requires
            old(self).msg_control_id_iter < u64::MAX,
        ensures
            final(self)@ == (BuilderView {
                message: MessageView {
                    header: alert_header(
                        old(self)@.message.header,
                        old(self)@.next_control_id,
                        msg_time_str@,
                        sending_facility@,
                        opt_str(receiving_app),
                        processing_id@,
                    ),
                    ..old(self)@.message
                },
                next_control_id: old(self)@.next_control_id + 1,
                ..old(self)@
            }),
            final(self).message.observations@ == old(self).message.observations@,
    {
        let msg_control_id_val = decimal(self.msg_control_id_iter);
        self.msg_control_id_iter = self.msg_control_id_iter + 1;
        let msh = &mut self.message.header;
        msh.sending_application = Some(String::from_str(ACTOR_EUI64));
        msh.sending_facility = Some(String::from_str(sending_facility));
        if let Some(receiving_app) = receiving_app {
            msh.receiving_application = Some(String::from_str(receiving_app));
        }
        msh.timestamp = String::from_str(msg_time_str);
        msh.message_type = String::from_str(ALERT_REPORT_TYPE);
        msh.control_id = msg_control_id_val;
        msh.processing_id = String::from_str(processing_id);
        msh.accept_ack_type = Some(String::from_str(ACCEPT_ACK_TYPE_ACM));
        msh.app_ack_type = Some(String::from_str(APP_ACK_TYPE));
        msh.profile_ids = vec![String::from_str(ACM_PROFILE)];
        assert(strs(msh.profile_ids@) =~= seq![ACM_PROFILE@]);
    }

    fn create_pid_segment_acm(
        &mut self,
        patient_id_list: &str,
        patient_name: &str,
        patient_dob: &str,
        patient_sex: &str,
    )
        ensures
            final(self)@ == (BuilderView {
                message: MessageView {
                    patient: Some(
                        patient_block(patient_id_list@, patient_name@, patient_dob@, patient_sex@),
                    ),
                    ..old(self)@.message
                },
                ..old(self)@
            }),
            final(self).message.observations@ == old(self).message.observations@,
    {
        let pid = PatientIdentity {
            identifiers: vec![String::from_str(patient_id_list)],
            names: vec![String::from_str(patient_name)],
            birth_date: Some(String::from_str(patient_dob)),
            sex: Some(String::from_str(patient_sex)),
        };
        assert(strs(pid.identifiers@) =~= seq![patient_id_list@]);
        assert(strs(pid.names@) =~= seq![patient_name@]);
        self.message.patient = Some(pid);
    }

    fn create_pv1_segment_acm(&mut self, location: &str)
        ensures
            final(self)@ == (BuilderView {
                message: MessageView { visit: Some(visit_block(location@)), ..old(self)@.message },
                ..old(self)@
            }),
            final(self).message.observations@ == old(self).message.observations@,
    {
        let pv1 = Visit {
            patient_class: String::from_str(PATIENT_CLASS_INPATIENT),
            location: Some(String::from_str(location)),
        };
        self.message.visit = Some(pv1);
    }

    fn create_obr_segment_acm(
        &mut self,
        message_time_str: &str,
        unique_alert_uuid: &str,
        alert_update: i32,
    )
        ensures
            final(self)@ == (BuilderView {
                message: MessageView {
                    order: Some(
                        order_block(message_time_str@, unique_alert_uuid@, alert_update as int),
                    ),
                    ..old(self)@.message
                },
                ..old(self)@
            }),
            final(self).message.observations@ == old(self).message.observations@,
    {
        let mut filler_order_number = signed_decimal(alert_update);
        filler_order_number.append("^");
        filler_order_number.append(unique_alert_uuid);
        filler_order_number.append("^");
        filler_order_number.append(ACTOR_EUI64);
        let parent = if alert_update > 0 {
            let mut p = String::from_str("^0&");
            p.append(unique_alert_uuid);
            p.append("&");
            p.append(ACTOR_EUI64_SUB);
            Some(p)
        } else {
            None
        };
        let obr = Order {
            order_control: String::from_str(ORDER_CONTROL),
            filler_order_number: Some(filler_order_number),
            placer_group_number: Some(String::from_str(EVT_ALARM)),
            quantity_timing: vec![String::from_str(message_time_str)],
            parent,
        };
        assert(strs(obr.quantity_timing@) =~= seq![message_time_str@]);
        self.message.order = Some(obr);
    }

    fn create_obx_segment_acm(
        &mut self,
        set_id: u64,
        obs_id: &str,
        obs_value: &str,
        obs_unit: &str,
        obs_time_str: &str,
        obs_site: &str,
        obs_value_type: &str,
        ctp: &str,
    )
        requires
            old(self).wf(),
            old(self).obx_count < u64::MAX,
        ensures
            final(self).wf(),
            final(self)@ == (BuilderView {
                message: MessageView {
                    observations: old(self)@.message.observations.push(
                        obx_view(
                            old(self)@.obx_count + 1,
                            set_id as nat,
                            obs_id@,
                            obs_value@,
                            obs_unit@,
                            obs_time_str@,
                            obs_site@,
                            obs_value_type@,
                            ctp@,
                            old(self)@.equipment,
                        ),
                    ),
                    ..old(self)@.message
                },
                obx_count: old(self)@.obx_count + 1,
                ..old(self)@
            }),
    {
        self.obx_count = self.obx_count + 1;
        let (value_type, status) = if !obs_value_type.is_empty() {
            (String::from_str(obs_value_type), String::from_str(STATUS_FINAL))
        } else {
            assert(obs_value_type@ =~= Seq::<char>::empty());
            (String::new(), String::from_str(STATUS_NO_RESULT))
        };
        let mut sub_id = String::from_str(ctp);
        sub_id.append(".");
        let idx = decimal(set_id);
        sub_id.append(idx.as_str());
        let obx = Observation {
            set_id: decimal(self.obx_count),
            value_type,
            identifier: String::from_str(obs_id),
            sub_id,
            values: vec![String::from_str(obs_value)],
            units: String::from_str(obs_unit),
            result_status: status,
            observed_at: String::from_str(obs_time_str),
            equipment: vec![self.equip_ii.clone()],
            sites: vec![String::from_str(obs_site)],
            actions: Vec::new(),
        };
        assert(strs(obx.values@) =~= seq![obs_value@]);
        assert(strs(obx.equipment@) =~= seq![self.equip_ii@]);
        assert(strs(obx.sites@) =~= seq![obs_site@]);
        assert(opts(obx.actions@) =~= Seq::empty());
        let ghost prev = self.message.observations@;
        self.message.observations.push(obx);
        assert(obs_views(self.message.observations@) =~= obs_views(prev).push(obx@));
        assert(obx@ == obx_view(
            old(self)@.obx_count + 1,
            set_id as nat,
            obs_id@,
            obs_value@,
            obs_unit@,
            obs_time_str@,
            obs_site@,
            obs_value_type@,
            ctp@,
            old(self)@.equipment,
        ));
    }
}

impl PCD04Message {
    /// Builds the alert report described by the arguments, stamped with
    /// `msg_time_str`: header, order, patient, visit, and the nine
    /// observations numbered 1 to 9 in the order of `alert_observations`. The
    /// control id is the builder's counter, which then moves on by one.
    pub fn create_pcd04_message_at(
        &mut self,
        msg_time_str: &str,
        assigned_location: &str,
        equip_ii: &str,
        patient_id_list: &str,
        patient_name: &str,
        patient_dob: &str,
        patient_sex: &str,
        alert_type: &str,
        alert_text: &str,
        alert_phase: &str,
        alert_kind_prio_star: &str,
        src_containment_tree_id: &str,
        obs_type: &str,
        obs_value: &str,
        obs_value_type: &str,
        obs_unit: &str,
        unique_alert_uuid: &str,
        alert_kind: &str,
        obs_det_time: &str,
        alert_counter: i32,
        alert_state: &str,
        alert_inactivation_state: &str,
        sending_facility: &str,
        receiving_app: Option<&str>,
        processing_id: &str,
        mds_type: &str,
        vmd_type: &str,
    )
        requires
            old(self).msg_control_id_iter < u64::MAX,
            has_dot(src_containment_tree_id@),
        ensures
            final(self).wf(),
            final(self)@.next_control_id == old(self)@.next_control_id + 1,
            final(self)@.obx_count == 9,
            final(self)@.equipment == equip_ii@,
            final(self)@.message.header == alert_header(
                old(self)@.message.header,
                old(self)@.next_control_id,
                msg_time_str@,
                sending_facility@,
                opt_str(receiving_app),
                processing_id@,
            ),
            final(self)@.message.order == Some(
                order_block(msg_time_str@, unique_alert_uuid@, alert_counter as int),
            ),
            final(self)@.message.patient == Some(
                patient_block(patient_id_list@, patient_name@, patient_dob@, patient_sex@),
            ),
            final(self)@.message.visit == Some(visit_block(assigned_location@)),
            final(self)@.message.notes == old(self)@.message.notes,
            final(self)@.message.observations == alert_observations(
                equip_ii@,
                src_containment_tree_id@,
                mds_type@,
                vmd_type@,
                alert_type@,
                alert_text@,
                obs_type@,
                obs_value@,
                obs_unit@,
                obs_det_time@,
                obs_value_type@,
                alert_phase@,
                alert_state@,
                alert_inactivation_state@,
                alert_kind_prio_star@,
                alert_kind@,
            ),
            final(self)@.message.observations.len() == 9,
            forall|i: int|
                0 <= i < 9 ==> #[trigger] final(self)@.message.observations[i].set_id == dec(
                    (i + 1) as nat,
                ),
            final(self)@.message.observations[0].sub_id == mds_tree(src_containment_tree_id@)
                + "."@ + dec(0),
            final(self)@.message.observations[1].sub_id == vmd_tree(src_containment_tree_id@)
                + "."@ + dec(0),
            forall|i: int|
                2 <= i < 9 ==> #[trigger] final(self)@.message.observations[i].sub_id
                    == src_containment_tree_id@ + "."@ + dec((i - 1) as nat),
    {
        self.create_msh_segment_acm(msg_time_str, sending_facility, receiving_app, processing_id);
        self.create_pid_segment_acm(patient_id_list, patient_name, patient_dob, patient_sex);
        self.create_pv1_segment_acm(assigned_location);
        self.equip_ii = String::from_str(equip_ii);
        self.create_obr_segment_acm(msg_time_str, unique_alert_uuid, alert_counter);
        self.obx_count = 0;
        self.message.observations = Vec::new();
        proof {
            reveal_strlit("");
            assert(""@ =~= Seq::<char>::empty());
            assert(self@.message.observations =~= Seq::empty());
        }
        let (mds_tree, vmd_tree) = tree_roots(src_containment_tree_id);
        let tree = src_containment_tree_id;
        self.create_obx_segment_acm(0, mds_type, "", "", "", "", "", mds_tree.as_str());
        self.create_obx_segment_acm(0, vmd_type, "", "", "", "", "", vmd_tree.as_str());
        self.create_obx_segment_acm(1, alert_type, alert_text, "", "", "", "", tree);
        self.create_obx_segment_acm(
            2,
            obs_type,
            obs_value,
            obs_unit,
            obs_det_time,
            "",
            obs_value_type,
            tree,
        );
        self.create_obx_segment_acm(3, ATTR_EVENT_PHASE, alert_phase, "", "", "", "", tree);
        self.create_obx_segment_acm(4, ATTR_ALARM_STATE, alert_state, "", "", "", "", tree);
        self.create_obx_segment_acm(
            5,
            ATTR_ALARM_INACTIVATION_STATE,
            alert_inactivation_state,
            "",
            "",
            "",
            "",
            tree,
        );
        self.create_obx_segment_acm(
            6,
            ATTR_ALARM_PRIORITY,
            alert_kind_prio_star,
            "",
            "",
            "",
            "",
            tree,
        );
        self.create_obx_segment_acm(7, ATTR_ALERT_TYPE, alert_kind, "", "", "", "", tree);
        assert(self@.message.observations =~= alert_observations(
            equip_ii@,
            src_containment_tree_id@,
            mds_type@,
            vmd_type@,
            alert_type@,
            alert_text@,
            obs_type@,
            obs_value@,
            obs_unit@,
            obs_det_time@,
            obs_value_type@,
            alert_phase@,
            alert_state@,
            alert_inactivation_state@,
            alert_kind_prio_star@,
            alert_kind@,
        ));
    }

    /// Builds the alert report described by the arguments, stamped with the
    /// current time in UTC. Everything but the time is as
    /// `create_pcd04_message_at` gives it; the order block carries the same
    /// time as the header.
    pub fn create_pcd04_message(
        &mut self,
        assigned_location: &str,
        equip_ii: &str,
        patient_id_list: &str,
        patient_name: &str,
        patient_dob: &str,
        patient_sex: &str,
        alert_type: &str,
        alert_text: &str,
        alert_phase: &str,
        alert_kind_prio_star: &str,
        src_containment_tree_id: &str,
        obs_type: &str,
        obs_value: &str,
        obs_value_type: &str,
        obs_unit: &str,
        unique_alert_uuid: &str,
        alert_kind: &str,
        obs_det_time: &str,
        alert_counter: i32,
        alert_state: &str,
        alert_inactivation_state: &str,
        sending_facility: &str,
        receiving_app: Option<&str>,
        processing_id: &str,
        mds_type: &str,
        vmd_type: &str,
    )
        requires
            old(self).msg_control_id_iter < u64::MAX,
            has_dot(src_containment_tree_id@),
        ensures
            final(self).wf(),
            final(self)@.next_control_id == old(self)@.next_control_id + 1,
            final(self)@.obx_count == 9,
            final(self)@.equipment == equip_ii@,
            final(self)@.message.header == alert_header(
                old(self)@.message.header,
                old(self)@.next_control_id,
                final(self)@.message.header.timestamp,
                sending_facility@,
                opt_str(receiving_app),
                processing_id@,
            ),
            final(self)@.message.order == Some(
                order_block(final(self)@.message.header.timestamp, unique_alert_uuid@, alert_counter as int),
            ),
            final(self)@.message.patient == Some(
                patient_block(patient_id_list@, patient_name@, patient_dob@, patient_sex@),
            ),
            final(self)@.message.visit == Some(visit_block(assigned_location@)),
            final(self)@.message.notes == old(self)@.message.notes,
            final(self)@.message.observations == alert_observations(
                equip_ii@,
                src_containment_tree_id@,
                mds_type@,
                vmd_type@,
                alert_type@,
                alert_text@,
                obs_type@,
                obs_value@,
                obs_unit@,
                obs_det_time@,
                obs_value_type@,
                alert_phase@,
                alert_state@,
                alert_inactivation_state@,
                alert_kind_prio_star@,
                alert_kind@,
            ),
            final(self)@.message.observations.len() == 9,
            forall|i: int|
                0 <= i < 9 ==> #[trigger] final(self)@.message.observations[i].set_id == dec(
                    (i + 1) as nat,
                ),
            final(self)@.message.observations[0].sub_id == mds_tree(src_containment_tree_id@)
                + "."@ + dec(0),
            final(self)@.message.observations[1].sub_id == vmd_tree(src_containment_tree_id@)
                + "."@ + dec(0),
            forall|i: int|
                2 <= i < 9 ==> #[trigger] final(self)@.message.observations[i].sub_id
                    == src_containment_tree_id@ + "."@ + dec((i - 1) as nat),
    {
        let msg_time_str = utc_timestamp_now();
        self.create_pcd04_message_at(msg_time_str.as_str(), assigned_location, equip_ii, patient_id_list, patient_name, patient_dob, patient_sex, alert_type, alert_text, alert_phase, alert_kind_prio_star, src_containment_tree_id, obs_type, obs_value, obs_value_type, obs_unit, unique_alert_uuid, alert_kind, obs_det_time, alert_counter, alert_state, alert_inactivation_state, sending_facility, receiving_app, processing_id, mds_type, vmd_type);
    }

    /// Appends the confirm-timeout observation of a heartbeat: local index 8,
    /// numeric, next in the message's numbering.
    pub fn append_watchdog_obx_segment(
        &mut self,
        timeout_period: &str,
        timeout_unit: &str,
        mds_tree: &str,
    )
        requires
            old(self).wf(),
            old(self).obx_count < u64::MAX,
        ensures
            final(self).wf(),
            final(self)@ == (BuilderView {
                message: MessageView {
                    observations: old(self)@.message.observations.push(
                        obx_view(
                            old(self)@.obx_count + 1,
                            8,
                            ATTR_CONFIRM_TIMEOUT@,
                            timeout_period@,
                            timeout_unit@,
                            Seq::empty(),
                            Seq::empty(),
                            VALUE_TYPE_NUMERIC@,
                            mds_tree@,
                            old(self)@.equipment,
                        ),
                    ),
                    ..old(self)@.message
                },
                obx_count: old(self)@.obx_count + 1,
                ..old(self)@
            }),
    {
        proof {
            reveal_strlit("");
            assert(""@ =~= Seq::<char>::empty());
        }
        self.create_obx_segment_acm(
            8,
            ATTR_CONFIRM_TIMEOUT,
            timeout_period,
            timeout_unit,
            "",
            "",
            VALUE_TYPE_NUMERIC,
            mds_tree,
        );
    }

    /// Overwrites the header's control id, and nothing else.
    pub fn set_control_id(&mut self, id: &str)
        ensures
            final(self)@ == (BuilderView {
                message: MessageView {
                    header: HeaderView { control_id: id@, ..old(self)@.message.header },
                    ..old(self)@.message
                },
                ..old(self)@
            }),
            final(self).message.observations@ == old(self).message.observations@,
            final(self).obx_count == old(self).obx_count,
    {
        self.message.header.control_id = String::from_str(id);
    }

    /// A copy of the message as built so far.
    pub fn get_message(&self) -> (r: Option<Message>)
        ensures
            r is Some,
            r->Some_0@ == self@.message,
    {
        Some(self.message.copy())
    }
}

/// An observation that carries only the given identifier and values.
pub open spec fn bare_obs(id: Seq<char>, values: Seq<Seq<char>>) -> ObservationView {
    ObservationView {
        set_id: Seq::empty(),
        value_type: Seq::empty(),
        identifier: id,
        sub_id: Seq::empty(),
        values,
        units: Seq::empty(),
        result_status: Seq::empty(),
        observed_at: Seq::empty(),
        equipment: Seq::empty(),
        sites: Seq::empty(),
        actions: Seq::empty(),
    }
}

/// Position of the first observation at or after `k` that names equipment.
pub open spec fn first_equipped_from(obs: Seq<ObservationView>, k: int) -> Option<int>
    decreases obs.len() - k,
{
    if k < 0 || k >= obs.len() {
        None
    } else if obs[k].equipment.len() > 0 {
        Some(k)
    } else {
        first_equipped_from(obs, k + 1)
    }
}

proof fn lemma_first_equipped_bounds(obs: Seq<ObservationView>, k: int)
    ensures
        first_equipped_from(obs, k) matches Some(i) ==> 0 <= k <= i < obs.len() && obs[i].equipment.len() > 0,
    decreases obs.len() - k,
{
    if 0 <= k < obs.len() && obs[k].equipment.len() == 0 {
        lemma_first_equipped_bounds(obs, k + 1);
    }
}

/// Position of the first observation at or after `k` whose set id is `nr`.
pub open spec fn first_numbered_from(obs: Seq<ObservationView>, k: int, nr: Seq<char>) -> Option<int>
    decreases obs.len() - k,
{
    if k < 0 || k >= obs.len() {
        None
    } else if obs[k].set_id == nr {
        Some(k)
    } else {
        first_numbered_from(obs, k + 1, nr)
    }
}

/// The string inside an optional borrowed string, as an optional view.
pub open spec fn first_of(v: Seq<Seq<char>>) -> Option<Seq<char>> {
    if v.len() > 0 {
        Some(v[0])
    } else {
        None
    }
}

fn bare_observation(id: String, value: &str) -> (r: Observation)
    ensures
        r@ == bare_obs(id@, seq![value@]),
{
    let r = Observation {
        set_id: String::new(),
        value_type: String::new(),
        identifier: id,
        sub_id: String::new(),
        values: vec![String::from_str(value)],
        units: String::new(),
        result_status: String::new(),
        observed_at: String::new(),
        equipment: Vec::new(),
        sites: Vec::new(),
        actions: Vec::new(),
    };
    assert(strs(r.values@) =~= seq![value@]);
    assert(strs(r.equipment@) =~= Seq::empty());
    assert(strs(r.sites@) =~= Seq::empty());
    assert(opts(r.actions@) =~= Seq::empty());
    r
}

impl PCD04Message {
    /// Replaces the observation at `index`, where there is one, by one that
    /// carries only `observation_value`.
    pub fn set_observation_value_by_index(&mut self, index: usize, observation_value: &str)
        ensures
            final(self).message.observations@.len() == old(self).message.observations@.len(),
            final(self).obx_count == old(self).obx_count,
            final(self)@ == (BuilderView {
                message: MessageView {
                    observations: if index < old(self)@.message.observations.len() {
                        old(self)@.message.observations.update(
                            index as int,
                            bare_obs(Seq::empty(), seq![observation_value@]),
                        )
                    } else {
                        old(self)@.message.observations
                    },
                    ..old(self)@.message
                },
                ..old(self)@
            }),
    {
        if index < self.message.observations.len() {
            let ghost prev = self.message.observations@;
            let obx_seg = bare_observation(String::new(), observation_value);
            self.message.observations.set(index, obx_seg);
            assert(obs_views(self.message.observations@) =~= obs_views(prev).update(
                index as int,
                obx_seg@,
            ));
        }
    }

    /// Replaces every observation by one that carries only `alarm_type` as
    /// its identifier and `alarm_text` as its value.
    pub fn set_alarm_type_and_text(&mut self, alarm_type: &str, alarm_text: &str)
        ensures
            final(self).message.observations@.len() == old(self).message.observations@.len(),
            final(self).obx_count == old(self).obx_count,
            final(self)@ == (BuilderView {
                message: MessageView {
                    observations: Seq::new(
                        old(self)@.message.observations.len(),
                        |i: int| bare_obs(alarm_type@, seq![alarm_text@]),
                    ),
                    ..old(self)@.message
                },
                ..old(self)@
            }),
    {
        let n = self.message.observations.len();
        let ghost prev = self.message.observations@;
        let mut i: usize = 0;
        while i < n
            invariant
                0 <= i <= n,
                n == self.message.observations@.len(),
                n == prev.len(),
                forall|j: int| 0 <= j < i ==> #[trigger] self.message.observations@[j]@ == bare_obs(
                    alarm_type@,
                    seq![alarm_text@],
                ),
                forall|j: int| i <= j < n ==> #[trigger] self.message.observations@[j] == prev[j],
                self.message.header@ == old(self).message.header@,
                self.message.order == old(self).message.order,
                self.message.patient == old(self).message.patient,
                self.message.visit == old(self).message.visit,
                self.message.notes == old(self).message.notes,
                self.msg_control_id_iter == old(self).msg_control_id_iter,
                self.obx_count == old(self).obx_count,
                self.equip_ii == old(self).equip_ii,
            decreases n - i,
        {
            let obx_seg = bare_observation(String::from_str(alarm_type), alarm_text);
            self.message.observations.set(i, obx_seg);
            i = i + 1;
        }
        assert(obs_views(self.message.observations@) =~= Seq::new(
            n as nat,
            |i: int| bare_obs(alarm_type@, seq![alarm_text@]),
        ));
    }

    /// Attaches `note` to the patient block, where there is one, as its only
    /// note.
    pub fn set_alarm_ctp(&mut self, note: &str)
        ensures
            final(self).message.observations@ == old(self).message.observations@,
            final(self).obx_count == old(self).obx_count,
            final(self)@ == (BuilderView {
                message: MessageView {
                    notes: if old(self)@.message.patient is Some {
                        seq![note@]
                    } else {
                        old(self)@.message.notes
                    },
                    ..old(self)@.message
                },
                ..old(self)@
            }),
    {
        if self.message.patient.is_some() {
            self.message.notes = vec![String::from_str(note)];
            assert(strs(self.message.notes@) =~= seq![note@]);
        }
    }

    /// Sets the value of the event-phase observation.
    pub fn set_alarm_phase(&mut self, alert_phase: &str)
        ensures
            final(self).message.observations@.len() == old(self).message.observations@.len(),
            final(self).obx_count == old(self).obx_count,
            final(self)@.message.observations == if 3 < old(self)@.message.observations.len() {
                old(self)@.message.observations.update(3, bare_obs(Seq::empty(), seq![alert_phase@]))
            } else {
                old(self)@.message.observations
            },
    {
        self.set_observation_value_by_index(3, alert_phase)
    }

    /// Sets the value of the alarm-state observation.
    pub fn set_alarm_state(&mut self, alert_state: &str)
        ensures
            final(self).message.observations@.len() == old(self).message.observations@.len(),
            final(self).obx_count == old(self).obx_count,
            final(self)@.message.observations == if 4 < old(self)@.message.observations.len() {
                old(self)@.message.observations.update(4, bare_obs(Seq::empty(), seq![alert_state@]))
            } else {
                old(self)@.message.observations
            },
    {
        self.set_observation_value_by_index(4, alert_state)
    }

    /// Sets the value of the alarm-inactivation-state observation.
    pub fn set_alarm_inactivation_state(&mut self, alert_state: &str)
        ensures
            final(self).message.observations@.len() == old(self).message.observations@.len(),
            final(self).obx_count == old(self).obx_count,
            final(self)@.message.observations == if 5 < old(self)@.message.observations.len() {
                old(self)@.message.observations.update(5, bare_obs(Seq::empty(), seq![alert_state@]))
            } else {
                old(self)@.message.observations
            },
    {
        self.set_observation_value_by_index(5, alert_state);
    }

    /// Sets the value of the alarm-priority observation.
    pub fn set_alarm_prio(&mut self, alert_prio: &str)
        ensures
            final(self).message.observations@.len() == old(self).message.observations@.len(),
            final(self).obx_count == old(self).obx_count,
            final(self)@.message.observations == if 6 < old(self)@.message.observations.len() {
                old(self)@.message.observations.update(6, bare_obs(Seq::empty(), seq![alert_prio@]))
            } else {
                old(self)@.message.observations
            },
    {
        self.set_observation_value_by_index(6, alert_prio);
    }

    /// Sets the value of the alert-kind observation.
    pub fn set_alarm_kind(&mut self, alert_kind: &str)
        ensures
            final(self).message.observations@.len() == old(self).message.observations@.len(),
            final(self).obx_count == old(self).obx_count,
            final(self)@.message.observations == if 7 < old(self)@.message.observations.len() {
                old(self)@.message.observations.update(7, bare_obs(Seq::empty(), seq![alert_kind@]))
            } else {
                old(self)@.message.observations
            },
    {
        self.set_observation_value_by_index(7, alert_kind);
    }

    /// The equipment named by the first observation that names any.
    pub fn get_device_id(&self) -> (r: Option<&str>)
        ensures
            opt_str(r) == match first_equipped_from(self@.message.observations, 0) {
                Some(i) => Some(self@.message.observations[i].equipment[0]),
                None => None,
            },
    {
        let ghost v = self@.message.observations;
        let obs = &self.message.observations;
        let mut i: usize = 0;
        while i < obs.len()
            invariant
                0 <= i <= obs@.len(),
                v == obs_views(obs@),
                v == self@.message.observations,
                first_equipped_from(v, 0) == first_equipped_from(v, i as int),
            decreases obs@.len() - i,
        {
            assert(v[i as int] == obs@[i as int]@);
            if obs[i].equipment.len() > 0 {
                assert(v[i as int].equipment.len() == obs@[i as int].equipment@.len());
                assert(first_equipped_from(v, i as int) == Some(i as int));
                assert(v[i as int].equipment[0] == obs@[i as int].equipment@[0]@);
                return Some(obs[i].equipment[0].as_str());
            }
            assert(v[i as int].equipment.len() == obs@[i as int].equipment@.len());
            i = i + 1;
        }
        None
    }

    /// The equipment named by the first observation, where there is one.
    pub fn get_equip(&self) -> (r: Option<&str>)
        ensures
            opt_str(r) == if self@.message.observations.len() > 0 {
                first_of(self@.message.observations[0].equipment)
            } else {
                None
            },
    {
        if self.message.observations.len() > 0 {
            let obx = &self.message.observations[0];
            assert(self@.message.observations[0] == obx@);
            if obx.equipment.len() > 0 {
                Some(obx.equipment[0].as_str())
            } else {
                None
            }
        } else {
            None
        }
    }

    /// The assigned location of the visit, where there is one.
    pub fn get_location(&self) -> (r: Option<&str>)
        ensures
            opt_str(r) == match self@.message.visit {
                Some(v) => v.location,
                None => None,
            },
    {
        match &self.message.visit {
            Some(visit) => match &visit.location {
                Some(l) => Some(l.as_str()),
                None => None,
            },
            None => None,
        }
    }

    /// The patient's first identifier.
    pub fn get_patient_id(&self) -> (r: Option<&str>)
        ensures
            opt_str(r) == match self@.message.patient {
                Some(p) => first_of(p.identifiers),
                None => None,
            },
    {
        match &self.message.patient {
            Some(p) => if p.identifiers.len() > 0 {
                Some(p.identifiers[0].as_str())
            } else {
                None
            },
            None => None,
        }
    }

    /// The patient's first name.
    pub fn get_patient_name(&self) -> (r: Option<&str>)
        ensures
            opt_str(r) == match self@.message.patient {
                Some(p) => first_of(p.names),
                None => None,
            },
    {
        match &self.message.patient {
            Some(p) => if p.names.len() > 0 {
                Some(p.names[0].as_str())
            } else {
                None
            },
            None => None,
        }
    }

    /// The patient's date of birth.
    pub fn get_patient_dob(&self) -> (r: Option<&str>)
        ensures
            opt_str(r) == match self@.message.patient {
                Some(p) => p.birth_date,
                None => None,
            },
    {
        match &self.message.patient {
            Some(p) => match &p.birth_date {
                Some(d) => Some(d.as_str()),
                None => None,
            },
            None => None,
        }
    }

    /// The patient's sex.
    pub fn get_patient_sex(&self) -> (r: Option<&str>)
        ensures
            opt_str(r) == match self@.message.patient {
                Some(p) => p.sex,
                None => None,
            },
    {
        match &self.message.patient {
            Some(p) => match &p.sex {
                Some(x) => Some(x.as_str()),
                None => None,
            },
            None => None,
        }
    }

    /// The set id `nr`, where an observation carries it.
    pub fn get_obx_segment(&self, nr: &str) -> (r: Option<&str>)
        ensures
            opt_str(r) == match first_numbered_from(self@.message.observations, 0, nr@) {
                Some(i) => Some(nr@),
                None => None,
            },
    {
        let ghost v = self@.message.observations;
        let obs = &self.message.observations;
        let target = String::from_str(nr);
        let mut i: usize = 0;
        while i < obs.len()
            invariant
                0 <= i <= obs@.len(),
                v == obs_views(obs@),
                v == self@.message.observations,
                target@ == nr@,
                first_numbered_from(v, 0, nr@) == first_numbered_from(v, i as int, nr@),
            decreases obs@.len() - i,
        {
            assert(v[i as int] == obs@[i as int]@);
            if obs[i].set_id == target {
                assert(first_numbered_from(v, i as int, nr@) == Some(i as int));
                return Some(obs[i].set_id.as_str());
            }
            i = i + 1;
        }
        None
    }
}

} // verus!
