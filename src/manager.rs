//! The alert manager's dispatch: classify an inbound message and build the
//! reply it is owed.

use vstd::prelude::*;
use crate::message::{Message, MessageView, HeaderView, ObservationView, Observation, obs_views, empty_message, empty_header, opts};
use crate::builder::ALERT_REPORT_TYPE;
use crate::text::{dec, decimal};

verus! {

/// Message type of an acknowledgment the manager only logs.
pub const ACK_RECEIPT_TYPE: &'static str = "ACK^R41";

/// Message type of the manager's replies.
pub const ACK_REPORT_TYPE: &'static str = "ACK^R40";

/// Observation identifier that marks a heartbeat rather than an alarm.
pub const HEARTBEAT_EVENT: &'static str = "196614^MDC_EVT_ACTIVE^MDC";

/// Accept-acknowledgment type of a heartbeat reply: confirmed.
pub const ACCEPT_ACK_CONFIRMED: &'static str = "CA";

/// Sending facility of an alarm reply.
pub const MANAGER_TAG: &'static str = "MockAM";

/// Action reason of a delivered alarm.
pub const DELIVERED: &'static str = "Delivered";

/// How the manager classifies an inbound message.
#[derive(Debug, Clone, Copy, PartialEq, Eq, Structural)]
pub enum Classification {
    /// An acknowledgment: logged, no reply.
    Ack,
    /// An alert report whose alert-identity observation is the heartbeat event.
    Heartbeat,
    /// An alert report for a genuine alarm.
    Alarm,
    /// An alert report without an alert-identity observation: dropped.
    NoAlertIdentity,
    /// Any other message type: logged, no reply.
    Unknown,
}

/// Whether a sub-identifier's local index, the part after its last dot, is `1`.
pub open spec fn local_index_one(sub: Seq<char>) -> bool {
    &&& sub.len() >= 1
    &&& sub[sub.len() - 1] == '1'
    &&& (sub.len() == 1 || sub[sub.len() - 2] == '.')
}

/// Position of the first observation at or after `k` whose local index is `1`.
pub open spec fn first_alert_from(obs: Seq<ObservationView>, k: int) -> Option<int>
    decreases obs.len() - k,
{
    if k < 0 || k >= obs.len() {
        None
    } else if local_index_one(obs[k].sub_id) {
        Some(k)
    } else {
        first_alert_from(obs, k + 1)
    }
}

proof fn lemma_first_alert_bounds(obs: Seq<ObservationView>, k: int)
    ensures
        first_alert_from(obs, k) matches Some(i) ==> 0 <= k <= i < obs.len(),
    decreases obs.len() - k,
{
    if 0 <= k < obs.len() && !local_index_one(obs[k].sub_id) {
        lemma_first_alert_bounds(obs, k + 1);
    }
}

/// The classification of a message.
pub open spec fn classify_spec(m: MessageView) -> Classification {
    if m.header.message_type == ACK_RECEIPT_TYPE@ {
        Classification::Ack
    } else if m.header.message_type == ALERT_REPORT_TYPE@ {
        match first_alert_from(m.observations, 0) {
            None => Classification::NoAlertIdentity,
            Some(i) => if m.observations[i].identifier == HEARTBEAT_EVENT@ {
                Classification::Heartbeat
            } else {
                Classification::Alarm
            },
        }
    } else {
        Classification::Unknown
    }
}

/// The reply to a heartbeat: an acknowledgment report, confirmed, under the
/// inbound control id.
pub open spec fn heartbeat_reply(m: MessageView) -> MessageView {
    MessageView {
        header: HeaderView {
            message_type: ACK_REPORT_TYPE@,
            accept_ack_type: Some(ACCEPT_ACK_CONFIRMED@),
            control_id: m.header.control_id,
            ..empty_header()
        },
        ..empty_message()
    }
}

/// The reply to an alarm: an acknowledgment report from the manager, under the
/// inbound control id.
pub open spec fn alarm_reply(m: MessageView) -> MessageView {
    MessageView {
        header: HeaderView {
            message_type: ACK_REPORT_TYPE@,
            sending_facility: Some(MANAGER_TAG@),
            control_id: m.header.control_id,
            ..empty_header()
        },
        ..empty_message()
    }
}

/// What the manager sends back.
pub enum Reply {
    /// No reply is sent.
    Nothing,
    /// Acknowledges a heartbeat.
    HeartbeatAck(Message),
    /// Acknowledges an alarm.
    AlarmAck(Message),
}

fn local_index_is_one(sub: &String) -> (r: bool)
    ensures
        r == local_index_one(sub@),
{
    let n = sub.as_str().unicode_len();
    if n == 0 {
        false
    } else if sub.as_str().get_char(n - 1) != '1' {
        false
    } else if n == 1 {
        true
    } else {
        sub.as_str().get_char(n - 2) == '.'
    }
}

/// Position of the alert-identity observation: the first whose local index
/// is `1`.
pub fn find_alert_observation(obs: &Vec<Observation>) -> (r: Option<usize>)
    ensures
        match r {
            Some(i) => first_alert_from(obs_views(obs@), 0) == Some(i as int) && i < obs@.len(),
            None => first_alert_from(obs_views(obs@), 0) is None,
        },
{
    let ghost v = obs_views(obs@);
    let mut i: usize = 0;
    while i < obs.len()
        invariant
            0 <= i <= obs@.len(),
            v == obs_views(obs@),
            first_alert_from(v, 0) == first_alert_from(v, i as int),
        decreases obs@.len() - i,
    {
        assert(v[i as int] == obs@[i as int]@);
        if local_index_is_one(&obs[i].sub_id) {
            proof {
                lemma_first_alert_bounds(v, i as int);
            }
            return Some(i);
        }
        i = i + 1;
    }
    None
}

/// Classifies an inbound message by its type and, for an alert report, by the
/// identifier of its alert-identity observation.
pub fn classify(msg: &Message) -> (r: Classification)
    ensures
        r == classify_spec(msg@),
{
    let ack = String::from_str(ACK_RECEIPT_TYPE);
    let report = String::from_str(ALERT_REPORT_TYPE);
    if msg.header.message_type == ack {
        Classification::Ack
    } else if msg.header.message_type == report {
        match find_alert_observation(&msg.observations) {
            None => Classification::NoAlertIdentity,
            Some(i) => {
                let heartbeat = String::from_str(HEARTBEAT_EVENT);
                assert(obs_views(msg.observations@)[i as int] == msg.observations@[i as int]@);
                if msg.observations[i].identifier == heartbeat {
                    Classification::Heartbeat
                } else {
                    Classification::Alarm
                }
            },
        }
    } else {
        Classification::Unknown
    }
}

/// Marks the first participation block of the first observation as
/// delivered, where there is one. Returns whether it did.
pub fn mark_delivered(msg: &mut Message) -> (r: bool)
    ensures
        r == (old(msg).observations@.len() > 0 && old(msg).observations@[0].actions@.len() > 0),
        !r ==> final(msg)@ == old(msg)@,
        r ==> final(msg)@ == (MessageView {
            observations: old(msg)@.observations.update(
                0,
                ObservationView {
                    actions: old(msg)@.observations[0].actions.update(0, Some(DELIVERED@)),
                    ..old(msg)@.observations[0]
                },
            ),
            ..old(msg)@
        }),
{
    if msg.observations.len() > 0 && msg.observations[0].actions.len() > 0 {
        let ghost prev = msg.observations@;
        let mut first = msg.observations[0].copy();
        let ghost prev_actions = first.actions@;
        assert(opts(first.actions@).len() == first.actions@.len());
        assert(opts(prev_actions) == obs_views(prev)[0].actions);
        first.actions.set(0, Some(String::from_str(DELIVERED)));
        assert(opts(first.actions@) =~= opts(prev_actions).update(0, Some(DELIVERED@)));
        msg.observations.set(0, first);
        assert(obs_views(msg.observations@) =~= obs_views(prev).update(0, first@));
        true
    } else {
        false
    }
}

/// The reply the manager owes an inbound message: a confirmed
/// acknowledgment for a heartbeat, an acknowledgment from the manager for an
/// alarm, both under the inbound control id; nothing for an acknowledgment,
/// an unknown message type, or an alert report without an alert-identity
/// observation.
pub fn respond(msg: &Message) -> (r: Reply)
    ensures
        classify_spec(msg@) == Classification::Heartbeat <==> r is HeartbeatAck,
        classify_spec(msg@) == Classification::Alarm <==> r is AlarmAck,
        r is HeartbeatAck ==> r->HeartbeatAck_0@ == heartbeat_reply(msg@),
        r is AlarmAck ==> r->AlarmAck_0@ == alarm_reply(msg@),
        classify_spec(msg@) != Classification::Heartbeat && classify_spec(msg@)
            != Classification::Alarm ==> r is Nothing,
{
    match classify(msg) {
        Classification::Heartbeat => {
            let mut answer = Message::new();
            answer.header.message_type = String::from_str(ACK_REPORT_TYPE);
            answer.header.accept_ack_type = Some(String::from_str(ACCEPT_ACK_CONFIRMED));
            answer.header.control_id = msg.header.control_id.clone();
            Reply::HeartbeatAck(answer)
        },
        Classification::Alarm => {
            let mut answer = Message::new();
            answer.header.message_type = String::from_str(ACK_REPORT_TYPE);
            answer.header.sending_facility = Some(String::from_str(MANAGER_TAG));
            mark_delivered(&mut answer);
            answer.header.control_id = msg.header.control_id.clone();
            Reply::AlarmAck(answer)
        },
        _ => Reply::Nothing,
    }
}

/// The literal acknowledgment the manager writes for a heartbeat: a header
/// stamped with `unix_secs` and an accept line naming the inbound control id.
pub fn heartbeat_ack_text(unix_secs: u64, control_id: &str) -> (r: String)
    ensures
        r@ == "MSH|^~\\&|||||"@ + dec(unix_secs as nat) + "||ACK||P|2.1\rMSA|AA|"@ + control_id@
            + "\r"@,
{
    let mut s = String::from_str("MSH|^~\\&|||||");
    let secs = decimal(unix_secs);
    s.append(secs.as_str());
    s.append("||ACK||P|2.1\rMSA|AA|");
    s.append(control_id);
    s.append("\r");
    s
}

} // verus!
