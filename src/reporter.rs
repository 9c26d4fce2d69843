//! The alert reporter's decisions: the heartbeat sender loop as a state
//! machine, the console commands, and the messages it sends.

use vstd::prelude::*;
use crate::builder::{
    PCD04Message, alert_header, alert_observations, obx_view, ATTR_CONFIRM_TIMEOUT,
    VALUE_TYPE_NUMERIC,
};
use crate::message::{empty_header, HeaderView, ObservationView};
use crate::manager::{ACK_RECEIPT_TYPE, classify_spec, first_alert_from, local_index_one, Classification, HEARTBEAT_EVENT};
use crate::builder::ALERT_REPORT_TYPE;
use crate::text::{dec, dot_from, has_dot, mds_tree, vmd_tree};

verus! {

/// The reporting device's id.
pub const DEVICE_ID: &'static str = "uuid:df041f5c-a3c9-11e9-8d8a-0050b612afeb";

/// The reporting device's location.
pub const DEVICE_LOCATION: &'static str = "POC^Room^Bed^fac^^^building^floor";

/// The equipment instance identifier: the device id, twice, as a URN.
pub const DEVICE_EQUIPMENT: &'static str =
    "uuid:df041f5c-a3c9-11e9-8d8a-0050b612afeb^^uuid:df041f5c-a3c9-11e9-8d8a-0050b612afeb^URN";

/// Patient identifier list of the example messages.
pub const EXAMPLE_PATIENT_ID: &'static str = "HO2009001^^^Hospital^PI";

/// Patient name of the example messages.
pub const EXAMPLE_PATIENT_NAME: &'static str = "Abo^Nasser^^^L";

/// Patient date of birth of the example messages.
pub const EXAMPLE_PATIENT_DOB: &'static str = "18991230";

/// Patient sex of the example messages.
pub const EXAMPLE_PATIENT_SEX: &'static str = "M";

/// Containment-tree id of the example messages.
pub const EXAMPLE_TREE: &'static str = "1.1.1";

/// Observation type of a heartbeat: the alert source.
pub const HEARTBEAT_OBS_TYPE: &'static str = "68480^MDC_ATTR_ALERT_SOURCE^MDC";

/// Alert type of the example alarm: a low limit.
pub const EXAMPLE_ALERT_TYPE: &'static str = "196670^MDC_EVT_LO^MDC";

/// Observation type of the example alarm: oxygen saturation.
pub const EXAMPLE_OBS_TYPE: &'static str = "150456^MDC_PULS_OXIM_SAT_O2^MDC";

/// Device-system type of the example alarm.
pub const EXAMPLE_MDS_TYPE: &'static str = "69837^MDC_DEV_METER_PHYSIO_MULTI_PARAM_MDS^MDC";

/// Virtual-device type of the example alarm.
pub const EXAMPLE_VMD_TYPE: &'static str = "69686^MDC_DEV_ANALY_BLD_CHEM_MULTI_PARAM_VMD^MDC";

/// Confirm timeout of a heartbeat.
pub const WATCHDOG_PERIOD: &'static str = "5";

/// Unit of a heartbeat's confirm timeout.
pub const WATCHDOG_UNIT: &'static str = "None";

/// Containment tree of a heartbeat's confirm-timeout observation.
pub const WATCHDOG_TREE: &'static str = "0.0.1";

/// Where the sender loop stands.
#[derive(Debug, Clone, Copy, PartialEq, Eq, Structural)]
pub enum SenderPhase {
    /// Next: send a heartbeat.
    Sending,
    /// Next: sleep one interval.
    Sleeping,
    /// Next: look at the cancellation flag.
    Checking,
    /// The loop has ended.
    Stopped,
}

/// What the sender loop asks its runner to do.
#[derive(Debug, Clone, Copy, PartialEq, Eq, Structural)]
pub enum SenderAction {
    /// Give the heartbeat a fresh control id and write it.
    Send,
    /// Sleep one interval.
    Sleep,
    /// Go on with the next step.
    Continue,
    /// Leave the loop.
    Stop,
}

/// One step of the sender loop: send, sleep, then stop if cancellation was
/// asked for, else start over. The flag is read at the check alone.
pub open spec fn sender_next(p: SenderPhase, cancelled: bool) -> (SenderPhase, SenderAction) {
    match p {
        SenderPhase::Sending => (SenderPhase::Sleeping, SenderAction::Send),
        SenderPhase::Sleeping => (SenderPhase::Checking, SenderAction::Sleep),
        SenderPhase::Checking => if cancelled {
            (SenderPhase::Stopped, SenderAction::Stop)
        } else {
            (SenderPhase::Sending, SenderAction::Continue)
        },
        SenderPhase::Stopped => (SenderPhase::Stopped, SenderAction::Stop),
    }
}

/// Takes one step of the sender loop.
pub fn sender_step(phase: SenderPhase, cancelled: bool) -> (r: (SenderPhase, SenderAction))
    ensures
        r == sender_next(phase, cancelled),
{
    match phase {
        SenderPhase::Sending => (SenderPhase::Sleeping, SenderAction::Send),
        SenderPhase::Sleeping => (SenderPhase::Checking, SenderAction::Sleep),
        SenderPhase::Checking => if cancelled {
            (SenderPhase::Stopped, SenderAction::Stop)
        } else {
            (SenderPhase::Sending, SenderAction::Continue)
        },
        SenderPhase::Stopped => (SenderPhase::Stopped, SenderAction::Stop),
    }
}

/// The phase after `n` steps with the flag set.
pub open spec fn run_cancelled(p: SenderPhase, n: nat) -> SenderPhase
    decreases n,
{
    if n == 0 {
        p
    } else {
        run_cancelled(sender_next(p, true).0, (n - 1) as nat)
    }
}

/// How many steps among the first `n` with the flag set ask for `a`.
pub open spec fn count_cancelled(p: SenderPhase, n: nat, a: SenderAction) -> nat
    decreases n,
{
    if n == 0 {
        0
    } else {
        let (q, b) = sender_next(p, true);
        (if b == a {
            1nat
        } else {
            0nat
        }) + count_cancelled(q, (n - 1) as nat, a)
    }
}

/// Once the cancellation flag is set, the sender loop stops within three
/// steps, having sent at most one heartbeat and slept at most one interval on
/// the way; once stopped, it sends nothing more, however long it is run.
pub proof fn lemma_cancellation_bound(p: SenderPhase, n: nat)
    ensures
        run_cancelled(p, 3) == SenderPhase::Stopped,
        count_cancelled(p, 3, SenderAction::Send) <= 1,
        count_cancelled(p, 3, SenderAction::Sleep) <= 1,
        count_cancelled(SenderPhase::Stopped, n, SenderAction::Send) == 0,
        run_cancelled(SenderPhase::Stopped, n) == SenderPhase::Stopped,
        forall|c: bool| #[trigger]
            sender_next(SenderPhase::Stopped, c) == (SenderPhase::Stopped, SenderAction::Stop),
    decreases n,
{
    reveal_with_fuel(run_cancelled, 4);
    reveal_with_fuel(count_cancelled, 4);
    if n > 0 {
        lemma_cancellation_bound(p, (n - 1) as nat);
    }
}

/// A console command of the reporter.
#[derive(Debug, Clone, Copy, PartialEq, Eq, Structural)]
pub enum Command {
    /// `q`: stop both loops and leave.
    Quit,
    /// `a`: send one example alarm.
    SendAlert,
    /// `t`: toggle the heartbeat.
    ToggleHeartbeat,
    /// Anything else.
    Unknown,
}

/// The command a (trimmed) console line names.
pub open spec fn command_of(key: Seq<char>) -> Command {
    if key == seq!['q'] {
        Command::Quit
    } else if key == seq!['a'] {
        Command::SendAlert
    } else if key == seq!['t'] {
        Command::ToggleHeartbeat
    } else {
        Command::Unknown
    }
}

/// Reads a (trimmed) console line as a command.
pub fn parse_command(key: &str) -> (r: Command)
    ensures
        r == command_of(key@),
{
    let k = String::from_str(key);
    let q = String::from_str("q");
    let a = String::from_str("a");
    let t = String::from_str("t");
    proof {
        reveal_strlit("q");
        reveal_strlit("a");
        reveal_strlit("t");
        assert("q"@ =~= seq!['q']);
        assert("a"@ =~= seq!['a']);
        assert("t"@ =~= seq!['t']);
    }
    if k == q {
        Command::Quit
    } else if k == a {
        Command::SendAlert
    } else if k == t {
        Command::ToggleHeartbeat
    } else {
        Command::Unknown
    }
}

/// Relies on uuid's `Uuid::new_v4` and its `Display`: a fresh random id in
/// the hyphenated form, 36 characters long.
#[verifier::external_body]
fn new_uuid_text() -> (r: String)
    ensures
        r@.len() == 36,
{
    uuid::Uuid::new_v4().to_string()
}

proof fn lemma_example_tree()
    ensures
        has_dot(EXAMPLE_TREE@),
{
    reveal_strlit("1.1.1");
    assert(EXAMPLE_TREE@[1] == '.');
    assert(dot_from(EXAMPLE_TREE@, 1) == 1);
    assert(dot_from(EXAMPLE_TREE@, 0) == 1);
}

/// In the observations of an alert report built on the example tree, the
/// alert-identity observation is the third.
proof fn lemma_alert_identity_position(obs: Seq<ObservationView>)
    requires
        obs.len() >= 3,
        obs[0].sub_id == mds_tree(EXAMPLE_TREE@) + "."@ + dec(0),
        obs[1].sub_id == vmd_tree(EXAMPLE_TREE@) + "."@ + dec(0),
        obs[2].sub_id == EXAMPLE_TREE@ + "."@ + dec(1),
    ensures
        first_alert_from(obs, 0) == Some(2int),
{
    reveal_strlit(".");
    reveal_strlit("1.1.1");
    let s0 = obs[0].sub_id;
    let s1 = obs[1].sub_id;
    let s2 = obs[2].sub_id;
    assert(s0[s0.len() - 1] == '0');
    assert(s1[s1.len() - 1] == '0');
    assert(s2.len() == 7);
    assert(s2[6] == '1');
    assert(s2[5] == '.');
    assert(!local_index_one(s0));
    assert(!local_index_one(s1));
    assert(local_index_one(s2));
    assert(first_alert_from(obs, 2) == Some(2int));
    assert(first_alert_from(obs, 1) == Some(2int));
}

proof fn lemma_report_is_not_receipt()
    ensures
        ALERT_REPORT_TYPE@ != ACK_RECEIPT_TYPE@,
{
    reveal_strlit("ORU^R40^ORU_R40");
    reveal_strlit("ACK^R41");
    assert(ALERT_REPORT_TYPE@[0] != ACK_RECEIPT_TYPE@[0]);
}

impl PCD04Message {
    /// Gives the message a fresh random control id, and returns it.
    pub fn renew_control_id(&mut self) -> (id: String)
        ensures
            id@.len() == 36,
            final(self)@.message.header.control_id == id@,
            final(self)@.message.header == (HeaderView {
                control_id: id@,
                ..old(self)@.message.header
            }),
            final(self)@.message.observations == old(self)@.message.observations,
            final(self).message.observations@ == old(self).message.observations@,
            final(self).obx_count == old(self).obx_count,
    {
        let id = new_uuid_text();
        self.set_control_id(id.as_str());
        id
    }
}

/// The heartbeat the sender loop repeats: an alert report whose
/// alert-identity observation is the heartbeat event, followed by a
/// confirm-timeout observation.
pub fn create_heartbeat_msg() -> (r: PCD04Message)
    ensures
        r.wf(),
        r@.obx_count == 10,
        r@.next_control_id == 1,
        r@.message.header == alert_header(
            empty_header(),
            0,
            r@.message.header.timestamp,
            Seq::empty(),
            None,
            Seq::empty(),
        ),
        r@.message.observations == alert_observations(
            DEVICE_EQUIPMENT@,
            EXAMPLE_TREE@,
            Seq::empty(),
            Seq::empty(),
            HEARTBEAT_EVENT@,
            Seq::empty(),
            HEARTBEAT_OBS_TYPE@,
            Seq::empty(),
            Seq::empty(),
            Seq::empty(),
            "ST"@,
            "start"@,
            Seq::empty(),
            Seq::empty(),
            "PN"@,
            "SA"@,
        ).push(
            obx_view(
                10,
                8,
                ATTR_CONFIRM_TIMEOUT@,
                WATCHDOG_PERIOD@,
                WATCHDOG_UNIT@,
                Seq::empty(),
                Seq::empty(),
                VALUE_TYPE_NUMERIC@,
                WATCHDOG_TREE@,
                DEVICE_EQUIPMENT@,
            ),
        ),
        classify_spec(r@.message) == Classification::Heartbeat,
{
    let mut msg = PCD04Message::new();
    proof {
        lemma_example_tree();
        reveal_strlit("");
        assert(""@ =~= Seq::<char>::empty());
    }
    msg.create_pcd04_message(
        DEVICE_LOCATION,
        DEVICE_EQUIPMENT,
        EXAMPLE_PATIENT_ID,
        EXAMPLE_PATIENT_NAME,
        EXAMPLE_PATIENT_DOB,
        EXAMPLE_PATIENT_SEX,
        HEARTBEAT_EVENT,
        "",
        "start",
        "PN",
        EXAMPLE_TREE,
        HEARTBEAT_OBS_TYPE,
        "",
        "ST",
        "",
        DEVICE_ID,
        "SA",
        "",
        0,
        "",
        "",
        "",
        None,
        "",
        "",
        "",
    );
    msg.append_watchdog_obx_segment(WATCHDOG_PERIOD, WATCHDOG_UNIT, WATCHDOG_TREE);
    proof {
        lemma_alert_identity_position(msg@.message.observations);
        lemma_report_is_not_receipt();
    }
    msg
}

/// The example alarm the `a` command sends: a low oxygen-saturation alert.
pub fn create_example_alert() -> (r: PCD04Message)
    ensures
        r.wf(),
        r@.obx_count == 9,
        r@.next_control_id == 1,
        r@.message.header == alert_header(
            empty_header(),
            0,
            r@.message.header.timestamp,
            Seq::empty(),
            None,
            Seq::empty(),
        ),
        r@.message.observations == alert_observations(
            DEVICE_EQUIPMENT@,
            EXAMPLE_TREE@,
            EXAMPLE_MDS_TYPE@,
            EXAMPLE_VMD_TYPE@,
            EXAMPLE_ALERT_TYPE@,
            "Low Alert"@,
            EXAMPLE_OBS_TYPE@,
            "42"@,
            Seq::empty(),
            Seq::empty(),
            VALUE_TYPE_NUMERIC@,
            "start"@,
            Seq::empty(),
            Seq::empty(),
            "PM"@,
            "SP"@,
        ),
        classify_spec(r@.message) == Classification::Alarm,
{
    let mut msg = PCD04Message::new();
    proof {
        lemma_example_tree();
        reveal_strlit("");
        assert(""@ =~= Seq::<char>::empty());
    }
    msg.create_pcd04_message(
        DEVICE_ID,
        DEVICE_EQUIPMENT,
        EXAMPLE_PATIENT_ID,
        EXAMPLE_PATIENT_NAME,
        EXAMPLE_PATIENT_DOB,
        EXAMPLE_PATIENT_SEX,
        EXAMPLE_ALERT_TYPE,
        "Low Alert",
        "start",
        "PM",
        EXAMPLE_TREE,
        EXAMPLE_OBS_TYPE,
        "42",
        VALUE_TYPE_NUMERIC,
        "",
        DEVICE_ID,
        "SP",
        "",
        0,
        "",
        "",
        "",
        None,
        "",
        EXAMPLE_MDS_TYPE,
        EXAMPLE_VMD_TYPE,
    );
    proof {
        lemma_alert_identity_position(msg@.message.observations);
        lemma_report_is_not_receipt();
        reveal_strlit("196670^MDC_EVT_LO^MDC");
        reveal_strlit("196614^MDC_EVT_ACTIVE^MDC");
        assert(EXAMPLE_ALERT_TYPE@[4] != HEARTBEAT_EVENT@[4]);
    }
    msg
}

} // verus!
