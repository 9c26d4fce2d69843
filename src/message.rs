//! The structured alert message: header, order, patient, visit, notes and the
//! ordered observations, each with a mathematical view.

use vstd::prelude::*;

verus! {

/// Views of a list of strings.
pub open spec fn strs(v: Seq<String>) -> Seq<Seq<char>> {
    v.map_values(|s: String| s@)
}

/// View of an optional string.
pub open spec fn opt(o: Option<String>) -> Option<Seq<char>> {
    match o {
        Some(s) => Some(s@),
        None => None,
    }
}

/// Views of a list of optional strings.
pub open spec fn opts(v: Seq<Option<String>>) -> Seq<Option<Seq<char>>> {
    v.map_values(|o: Option<String>| opt(o))
}

/// A copy of a list of strings.
pub fn copy_strings(v: &Vec<String>) -> (r: Vec<String>)
    ensures
        r@ == v@,
{
    let mut out: Vec<String> = Vec::new();
    let mut i: usize = 0;
    while i < v.len()
        invariant
            0 <= i <= v@.len(),
            out@ == v@.subrange(0, i as int),
        decreases v@.len() - i,
    {
        out.push(v[i].clone());
        proof {
            assert(v@.subrange(0, i + 1) == v@.subrange(0, i as int).push(v@[i as int]));
        }
        i = i + 1;
    }
    proof {
        assert(v@.subrange(0, v@.len() as int) == v@);
    }
    out
}

/// A copy of an optional string.
pub fn copy_opt(o: &Option<String>) -> (r: Option<String>)
    ensures
        r == *o,
{
    match o {
        Some(s) => Some(s.clone()),
        None => None,
    }
}

/// A copy of a list of optional strings.
pub fn copy_opts(v: &Vec<Option<String>>) -> (r: Vec<Option<String>>)
    ensures
        r@ == v@,
{
    let mut out: Vec<Option<String>> = Vec::new();
    let mut i: usize = 0;
    while i < v.len()
        invariant
            0 <= i <= v@.len(),
            out@ == v@.subrange(0, i as int),
        decreases v@.len() - i,
    {
        out.push(copy_opt(&v[i]));
        proof {
            assert(v@.subrange(0, i + 1) == v@.subrange(0, i as int).push(v@[i as int]));
        }
        i = i + 1;
    }
    proof {
        assert(v@.subrange(0, v@.len() as int) == v@);
    }
    out
}

/// The message header.
pub struct Header {
    pub sending_application: Option<String>,
    pub sending_facility: Option<String>,
    pub receiving_application: Option<String>,
    pub timestamp: String,
    pub message_type: String,
    pub control_id: String,
    pub processing_id: String,
    pub accept_ack_type: Option<String>,
    pub app_ack_type: Option<String>,
    pub profile_ids: Vec<String>,
}

/// The mathematical view of a header: its strings as character sequences.
pub ghost struct HeaderView {
    pub sending_application: Option<Seq<char>>,
    pub sending_facility: Option<Seq<char>>,
    pub receiving_application: Option<Seq<char>>,
    pub timestamp: Seq<char>,
    pub message_type: Seq<char>,
    pub control_id: Seq<char>,
    pub processing_id: Seq<char>,
    pub accept_ack_type: Option<Seq<char>>,
    pub app_ack_type: Option<Seq<char>>,
    pub profile_ids: Seq<Seq<char>>,
}

impl View for Header {
    type V = HeaderView;

    open spec fn view(&self) -> HeaderView {
        HeaderView {
            sending_application: opt(self.sending_application),
            sending_facility: opt(self.sending_facility),
            receiving_application: opt(self.receiving_application),
            timestamp: self.timestamp@,
            message_type: self.message_type@,
            control_id: self.control_id@,
            processing_id: self.processing_id@,
            accept_ack_type: opt(self.accept_ack_type),
            app_ack_type: opt(self.app_ack_type),
            profile_ids: strs(self.profile_ids@),
        }
    }
}

/// The header of a message that nothing has filled in.
pub open spec fn empty_header() -> HeaderView {
    HeaderView {
        sending_application: None,
        sending_facility: None,
        receiving_application: None,
        timestamp: Seq::empty(),
        message_type: Seq::empty(),
        control_id: Seq::empty(),
        processing_id: Seq::empty(),
        accept_ack_type: None,
        app_ack_type: None,
        profile_ids: Seq::empty(),
    }
}

impl Header {
    /// A header with every field absent or empty.
    pub fn new() -> (r: Header)
        ensures
            r@ == empty_header(),
    {
        let r = Header {
            sending_application: None,
            sending_facility: None,
            receiving_application: None,
            timestamp: String::new(),
            message_type: String::new(),
            control_id: String::new(),
            processing_id: String::new(),
            accept_ack_type: None,
            app_ack_type: None,
            profile_ids: Vec::new(),
        };
        assert(strs(r.profile_ids@) =~= Seq::empty());
        r
    }

    /// A copy of the header.
    pub fn copy(&self) -> (r: Header)
        ensures
            r@ == self@,
    {
        Header {
            sending_application: copy_opt(&self.sending_application),
            sending_facility: copy_opt(&self.sending_facility),
            receiving_application: copy_opt(&self.receiving_application),
            timestamp: self.timestamp.clone(),
            message_type: self.message_type.clone(),
            control_id: self.control_id.clone(),
            processing_id: self.processing_id.clone(),
            accept_ack_type: copy_opt(&self.accept_ack_type),
            app_ack_type: copy_opt(&self.app_ack_type),
            profile_ids: copy_strings(&self.profile_ids),
        }
    }
}

/// The order block: which alert this message reports and its update count.
pub struct Order {
    pub order_control: String,
    pub filler_order_number: Option<String>,
    pub placer_group_number: Option<String>,
    pub quantity_timing: Vec<String>,
    pub parent: Option<String>,
}

/// The mathematical view of a order block: its strings as character sequences.
pub ghost struct OrderView {
    pub order_control: Seq<char>,
    pub filler_order_number: Option<Seq<char>>,
    pub placer_group_number: Option<Seq<char>>,
    pub quantity_timing: Seq<Seq<char>>,
    pub parent: Option<Seq<char>>,
}

impl View for Order {
    type V = OrderView;

    open spec fn view(&self) -> OrderView {
        OrderView {
            order_control: self.order_control@,
            filler_order_number: opt(self.filler_order_number),
            placer_group_number: opt(self.placer_group_number),
            quantity_timing: strs(self.quantity_timing@),
            parent: opt(self.parent),
        }
    }
}

impl Order {
    /// A copy of the order block.
    pub fn copy(&self) -> (r: Order)
        ensures
            r@ == self@,
    {
        Order {
            order_control: self.order_control.clone(),
            filler_order_number: copy_opt(&self.filler_order_number),
            placer_group_number: copy_opt(&self.placer_group_number),
            quantity_timing: copy_strings(&self.quantity_timing),
            parent: copy_opt(&self.parent),
        }
    }
}

/// Who the patient is.
pub struct PatientIdentity {
    pub identifiers: Vec<String>,
    pub names: Vec<String>,
    pub birth_date: Option<String>,
    pub sex: Option<String>,
}

/// The mathematical view of a patient block: its strings as character sequences.
pub ghost struct PatientView {
    pub identifiers: Seq<Seq<char>>,
    pub names: Seq<Seq<char>>,
    pub birth_date: Option<Seq<char>>,
    pub sex: Option<Seq<char>>,
}

impl View for PatientIdentity {
    type V = PatientView;

    open spec fn view(&self) -> PatientView {
        PatientView {
            identifiers: strs(self.identifiers@),
            names: strs(self.names@),
            birth_date: opt(self.birth_date),
            sex: opt(self.sex),
        }
    }
}

impl PatientIdentity {
    /// A copy of the patient block.
    pub fn copy(&self) -> (r: PatientIdentity)
        ensures
            r@ == self@,
    {
        PatientIdentity {
            identifiers: copy_strings(&self.identifiers),
            names: copy_strings(&self.names),
            birth_date: copy_opt(&self.birth_date),
            sex: copy_opt(&self.sex),
        }
    }
}

/// Where the patient is.
pub struct Visit {
    pub patient_class: String,
    pub location: Option<String>,
}

/// The mathematical view of a visit block: its strings as character sequences.
pub ghost struct VisitView {
    pub patient_class: Seq<char>,
    pub location: Option<Seq<char>>,
}

impl View for Visit {
    type V = VisitView;

    open spec fn view(&self) -> VisitView {
        VisitView { patient_class: self.patient_class@, location: opt(self.location) }
    }
}

impl Visit {
    /// A copy of the visit block.
    pub fn copy(&self) -> (r: Visit)
        ensures
            r@ == self@,
    {
        Visit { patient_class: self.patient_class.clone(), location: copy_opt(&self.location) }
    }
}

/// One observation: a coded identifier, its value and where in the device it
/// was made. `actions` holds, for each participation block attached to the
/// observation, its action reason.
pub struct Observation {
    pub set_id: String,
    pub value_type: String,
    pub identifier: String,
    pub sub_id: String,
    pub values: Vec<String>,
    pub units: String,
    pub result_status: String,
    pub observed_at: String,
    pub equipment: Vec<String>,
    pub sites: Vec<String>,
    pub actions: Vec<Option<String>>,
}

/// The mathematical view of a observation: its strings as character sequences.
pub ghost struct ObservationView {
    pub set_id: Seq<char>,
    pub value_type: Seq<char>,
    pub identifier: Seq<char>,
    pub sub_id: Seq<char>,
    pub values: Seq<Seq<char>>,
    pub units: Seq<char>,
    pub result_status: Seq<char>,
    pub observed_at: Seq<char>,
    pub equipment: Seq<Seq<char>>,
    pub sites: Seq<Seq<char>>,
    pub actions: Seq<Option<Seq<char>>>,
}

impl View for Observation {
    type V = ObservationView;

    open spec fn view(&self) -> ObservationView {
        ObservationView {
            set_id: self.set_id@,
            value_type: self.value_type@,
            identifier: self.identifier@,
            sub_id: self.sub_id@,
            values: strs(self.values@),
            units: self.units@,
            result_status: self.result_status@,
            observed_at: self.observed_at@,
            equipment: strs(self.equipment@),
            sites: strs(self.sites@),
            actions: opts(self.actions@),
        }
    }
}

impl Observation {
    /// A copy of the observation.
    pub fn copy(&self) -> (r: Observation)
        ensures
            r@ == self@,
    {
        Observation {
            set_id: self.set_id.clone(),
            value_type: self.value_type.clone(),
            identifier: self.identifier.clone(),
            sub_id: self.sub_id.clone(),
            values: copy_strings(&self.values),
            units: self.units.clone(),
            result_status: self.result_status.clone(),
            observed_at: self.observed_at.clone(),
            equipment: copy_strings(&self.equipment),
            sites: copy_strings(&self.sites),
            actions: copy_opts(&self.actions),
        }
    }
}

/// Views of a list of observations.
pub open spec fn obs_views(v: Seq<Observation>) -> Seq<ObservationView> {
    v.map_values(|o: Observation| o@)
}

/// A whole message.
pub struct Message {
    pub header: Header,
    pub order: Option<Order>,
    pub patient: Option<PatientIdentity>,
    pub visit: Option<Visit>,
    pub notes: Vec<String>,
    pub observations: Vec<Observation>,
}

/// The mathematical view of a message: its strings as character sequences.
pub ghost struct MessageView {
    pub header: HeaderView,
    pub order: Option<OrderView>,
    pub patient: Option<PatientView>,
    pub visit: Option<VisitView>,
    pub notes: Seq<Seq<char>>,
    pub observations: Seq<ObservationView>,
}

impl View for Message {
    type V = MessageView;

    open spec fn view(&self) -> MessageView {
        MessageView {
            header: self.header@,
            order: match self.order {
                Some(o) => Some(o@),
                None => None,
            },
            patient: match self.patient {
                Some(p) => Some(p@),
                None => None,
            },
            visit: match self.visit {
                Some(v) => Some(v@),
                None => None,
            },
            notes: strs(self.notes@),
            observations: obs_views(self.observations@),
        }
    }
}

/// A message that nothing has filled in.
pub open spec fn empty_message() -> MessageView {
    MessageView {
        header: empty_header(),
        order: None,
        patient: None,
        visit: None,
        notes: Seq::empty(),
        observations: Seq::empty(),
    }
}

impl Message {
    /// A message with an empty header and no blocks.
    pub fn new() -> (r: Message)
        ensures
            r@ == empty_message(),
            r.observations@.len() == 0,
    {
        let r = Message {
            header: Header::new(),
            order: None,
            patient: None,
            visit: None,
            notes: Vec::new(),
            observations: Vec::new(),
        };
        assert(strs(r.notes@) =~= Seq::empty());
        assert(obs_views(r.observations@) =~= Seq::empty());
        r
    }

    /// A copy of the message.
    pub fn copy(&self) -> (r: Message)
        ensures
            r@ == self@,
    {
        let order = match &self.order {
            Some(o) => Some(o.copy()),
            None => None,
        };
        let patient = match &self.patient {
            Some(p) => Some(p.copy()),
            None => None,
        };
        let visit = match &self.visit {
            Some(v) => Some(v.copy()),
            None => None,
        };
        let mut observations: Vec<Observation> = Vec::new();
        let mut i: usize = 0;
        while i < self.observations.len()
            invariant
                0 <= i <= self.observations@.len(),
                observations@.len() == i,
                forall|j: int| 0 <= j < i ==> observations@[j]@ == self.observations@[j]@,
            decreases self.observations@.len() - i,
        {
            let o = self.observations[i].copy();
            observations.push(o);
            i = i + 1;
        }
        assert(obs_views(observations@) =~= obs_views(self.observations@));
        Message {
            header: self.header.copy(),
            order,
            patient,
            visit,
            notes: copy_strings(&self.notes),
            observations,
        }
    }
}

} // verus!
