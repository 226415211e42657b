//! Handing the desk session to a worker for one operation and getting it back.
//!
//! The controlling context parks the session in a [`SessionSlot`]. To run an
//! operation it takes the session out ([`SessionSlot::dispatch`]), moves it with
//! a [`DeskOp`] to a worker that calls [`run_op`], and parks what comes back
//! ([`SessionSlot::complete`]). While an operation is out the slot is empty, so
//! a second dispatch finds nothing to hand out.
use vstd::prelude::*;

use crate::desk::{
    add_college_step, can_verify, colleges_with_prefix, hospitality_step, lookup,
    new_participant_step, new_verified_participant_step, update_participant_step, verify_step,
    DeskState, IRegDesk,
};
use crate::model::{College, CollegeView, Participant, ParticipantInfo, ParticipantRegNotVerified, ParticipantView};

verus! {

/// Holds the desk session while no operation is in flight.
pub struct SessionSlot<D> {
    session: Option<D>,
}

/// The slot and the session handed out by a dispatch from slot `s`.
pub open spec fn after_dispatch<D>(s: Option<D>) -> (Option<D>, Option<D>) {
    (None, s)
}

/// The slot after an operation hands `session` back.
pub open spec fn after_complete<D>(session: D) -> Option<D> {
    Some(session)
}

impl<D> View for SessionSlot<D> {
    type V = Option<D>;

    closed spec fn view(&self) -> Option<D> {
        self.session
    }
}

impl<D> SessionSlot<D> {
    /// A slot holding `session`.
    pub fn new(session: D) -> (r: Self)
        ensures
            r@ == Some(session),
    {
        SessionSlot { session: Some(session) }
    }

    /// A slot still waiting to be handed its session.
    pub fn vacant() -> (r: Self)
        ensures
            r@ is None,
    {
        SessionSlot { session: None }
    }

    /// Whether the session is parked here, that is no operation is in flight.
    pub fn is_parked(&self) -> (r: bool)
        ensures
            r == self@ is Some,
    {
        self.session.is_some()
    }

    /// Takes the session out for one operation; `None` while one is already in flight.
    pub fn dispatch(&mut self) -> (r: Option<D>)
        ensures
            (final(self)@, r) == after_dispatch(old(self)@),
    {
        self.session.take()
    }

    /// Parks the session handed back by the operation in flight.
    pub fn complete(&mut self, session: D)
        requires
            old(self)@ is None,
        ensures
            final(self)@ == after_complete(session),
    {
        self.session = Some(session);
    }

    /// The parked session, for a quick read that needs no worker.
    pub fn session(&self) -> (r: Option<&D>)
        ensures
            r is Some <==> self@ is Some,
            r matches Some(d) ==> *d == self@->0,
    {
        self.session.as_ref()
    }
}

/// One call into the desk, ready to be moved to a worker.
pub enum DeskOp {
    GetParticipant(i32),
    NewParticipant(ParticipantInfo, College),
    NewParticipantVerified(ParticipantInfo, College),
    UpdateParticipant(Participant),
    VerifyRegistration(ParticipantRegNotVerified),
    UpdateHospitality(Participant, String, String),
    AddCollege(String),
    ListColleges(String),
}

/// What an operation handed back besides the session.
pub enum DeskOutcome {
    /// The record looked up, if any.
    Found(Option<Participant>),
    /// The record as stored after a creation, a verification or a hospitality change.
    Saved(Participant),
    /// The record that was sent to be updated.
    Updated(Participant),
    /// The college that was added.
    CollegeAdded(College),
    /// The colleges that were listed.
    Colleges(Vec<College>),
    /// The store behind the session failed; the session itself comes back unharmed.
    BackendFailure,
}

pub open spec fn option_view(p: Option<Participant>) -> Option<ParticipantView> {
    match p {
        Some(p) => Some(p@),
        None => None,
    }
}

pub open spec fn colleges_view(cs: Vec<College>) -> Seq<CollegeView> {
    cs@.map_values(|c: College| c@)
}

/// What the store must hold for `op` to be run on it.
pub open spec fn op_allowed_in(s: DeskState, op: DeskOp) -> bool {
    match op {
        DeskOp::VerifyRegistration(t) => can_verify(s, t.spec_id()),
        DeskOp::UpdateHospitality(p, _, _) => s.participants.contains_key(p@.id),
        _ => true,
    }
}

/// `op` may be run on `desk`: the store allows it and an id is left where one is needed.
pub open spec fn op_allowed<D: IRegDesk>(desk: D, op: DeskOp) -> bool {
    &&& op_allowed_in(desk.state(), op)
    &&& match op {
        DeskOp::NewParticipant(..) | DeskOp::NewParticipantVerified(..) => desk.has_participant_id_left(),
        DeskOp::AddCollege(_) => desk.has_college_id_left(),
        _ => true,
    }
}

/// Running `op` took the store from `pre` to `post` and gave `out`.
pub open spec fn op_step(pre: DeskState, op: DeskOp, post: DeskState, out: DeskOutcome) -> bool {
    match op {
        DeskOp::GetParticipant(id) => {
            &&& post == pre
            &&& out matches DeskOutcome::Found(r) && option_view(r) == lookup(pre, id as int)
        },
        DeskOp::NewParticipant(info, college) => {
            out matches DeskOutcome::Saved(r) && new_participant_step(pre, info@, college@, post, r@)
        },
        DeskOp::NewParticipantVerified(info, college) => {
            out matches DeskOutcome::Saved(r) && new_verified_participant_step(
                pre,
                info@,
                college@,
                post,
                r@,
            )
        },
        DeskOp::UpdateParticipant(p) => {
            out matches DeskOutcome::Updated(r) && r@ == p@ && update_participant_step(pre, p@, post)
        },
        DeskOp::VerifyRegistration(t) => {
            out matches DeskOutcome::Saved(r) && verify_step(pre, t.spec_id(), post, r@)
        },
        DeskOp::UpdateHospitality(p, hostel, room) => {
            out matches DeskOutcome::Saved(r) && hospitality_step(pre, p@.id, hostel@, room@, post, r@)
        },
        DeskOp::AddCollege(name) => {
            out matches DeskOutcome::CollegeAdded(c) && add_college_step(pre, name@, post, c@)
        },
        DeskOp::ListColleges(filter) => {
            &&& post == pre
            &&& out matches DeskOutcome::Colleges(cs) && colleges_view(cs) == colleges_with_prefix(
                pre.colleges,
                filter@,
            )
        },
    }
}

/// Runs one operation on the session it was given and hands the session back with the outcome.
pub fn run_op<D: IRegDesk>(desk: D, op: DeskOp) -> (r: (DeskOutcome, D))
    requires
        desk.wf(),
        op_allowed(desk, op),
    ensures
        r.1.wf(),
        op_step(desk.state(), op, r.1.state(), r.0),
{
    let mut desk = desk;
    let out = match op {
        DeskOp::GetParticipant(id) => DeskOutcome::Found(desk.participant_get(id)),
        DeskOp::NewParticipant(info, college) => DeskOutcome::Saved(desk.participant_new(info, college)),
        DeskOp::NewParticipantVerified(info, college) => DeskOutcome::Saved(
            desk.participant_new_verified(info, college),
        ),
        DeskOp::UpdateParticipant(p) => {
            desk.participant_update(&p);
            DeskOutcome::Updated(p)
        },
        DeskOp::VerifyRegistration(t) => DeskOutcome::Saved(desk.participant_verify_reg(t)),
        DeskOp::UpdateHospitality(p, hostel, room) => DeskOutcome::Saved(
            desk.participant_update_hospi(p, hostel.as_str(), room.as_str()),
        ),
        DeskOp::AddCollege(name) => DeskOutcome::CollegeAdded(desk.college_add(name)),
        DeskOp::ListColleges(filter) => DeskOutcome::Colleges(desk.college_get_filtered(filter.as_str())),
    };
    (out, desk)
}

} // verus!
