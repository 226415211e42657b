//! The desk session contract: what a logged-in desk may do to the store, and
//! the login gate that hands such a desk out.
use vstd::prelude::*;

use crate::model::{
    AdminView, College, CollegeView, InfoView, Participant, ParticipantInfo,
    ParticipantRegNotVerified, ParticipantView, RegView, HospView,
};

verus! {

/// What a desk session sees of the store it works on.
pub struct DeskState {
    /// The admin the session belongs to; every stamp it makes names this admin.
    pub admin: AdminView,
    /// Participant records by id.
    pub participants: Map<int, ParticipantView>,
    /// Colleges in the order they were added.
    pub colleges: Seq<CollegeView>,
}

/// The record with `id`, if the store holds one.
pub open spec fn lookup(s: DeskState, id: int) -> Option<ParticipantView> {
    if s.participants.contains_key(id) {
        Some(s.participants[id])
    } else {
        None
    }
}

/// Every record sits under its own id, and an unverified record's token names that id.
pub open spec fn records_consistent(s: DeskState) -> bool {
    forall|id: int|
        #[trigger] s.participants.contains_key(id) ==> s.participants[id].id == id
            && (s.participants[id].reg matches RegView::NotVerified { id: t } ==> t == id)
}

/// `id` is not the id of any college in `cs`.
pub open spec fn college_id_unused(cs: Seq<CollegeView>, id: int) -> bool {
    forall|i: int| 0 <= i < cs.len() ==> #[trigger] cs[i].id != id
}

/// The colleges of `cs` whose name starts with `prefix`, in their order.
pub open spec fn colleges_with_prefix(cs: Seq<CollegeView>, prefix: Seq<char>) -> Seq<CollegeView> {
    cs.filter(|c: CollegeView| prefix.is_prefix_of(c.name))
}

/// A fresh, unverified record holding `info` and `college` was added as `r`.
pub open spec fn new_participant_step(
    pre: DeskState,
    info: InfoView,
    college: CollegeView,
    post: DeskState,
    r: ParticipantView,
) -> bool {
    &&& !pre.participants.contains_key(r.id)
    &&& r == ParticipantView {
        id: r.id,
        info,
        college,
        reg: RegView::NotVerified { id: r.id },
        hospitality: None,
    }
    &&& post == DeskState { participants: pre.participants.insert(r.id, r), ..pre }
}

/// A fresh record holding `info` and `college`, verified by the session's admin, was added as `r`.
pub open spec fn new_verified_participant_step(
    pre: DeskState,
    info: InfoView,
    college: CollegeView,
    post: DeskState,
    r: ParticipantView,
) -> bool {
    &&& !pre.participants.contains_key(r.id)
    &&& r == ParticipantView {
        id: r.id,
        info,
        college,
        reg: RegView::Verified { admin: pre.admin },
        hospitality: None,
    }
    &&& post == DeskState { participants: pre.participants.insert(r.id, r), ..pre }
}

/// The details and college of the record with `p.id` were replaced by those of `p`;
/// nothing changes when there is no such record.
pub open spec fn update_participant_step(pre: DeskState, p: ParticipantView, post: DeskState) -> bool {
    if pre.participants.contains_key(p.id) {
        post == DeskState {
            participants: pre.participants.insert(
                p.id,
                ParticipantView { info: p.info, college: p.college, ..pre.participants[p.id] },
            ),
            ..pre
        }
    } else {
        post == pre
    }
}

/// Verification may be asked for `id`: the record exists and is not verified.
pub open spec fn can_verify(s: DeskState, id: int) -> bool {
    s.participants.contains_key(id) && s.participants[id].reg is NotVerified
}

/// The record `id` was stamped as verified by the session's admin and `r` is the result.
pub open spec fn verify_step(pre: DeskState, id: int, post: DeskState, r: ParticipantView) -> bool {
    &&& post == DeskState {
        participants: pre.participants.insert(
            id,
            ParticipantView { reg: RegView::Verified { admin: pre.admin }, ..pre.participants[id] },
        ),
        ..pre
    }
    &&& r == post.participants[id]
}

/// The hospitality of record `id` is now exactly `(admin, hostel, room)`, and `r` is the result.
pub open spec fn hospitality_step(
    pre: DeskState,
    id: int,
    hostel: Seq<char>,
    room: Seq<char>,
    post: DeskState,
    r: ParticipantView,
) -> bool {
    &&& post == DeskState {
        participants: pre.participants.insert(
            id,
            ParticipantView {
                hospitality: Some(HospView { admin: pre.admin, hostel, room }),
                ..pre.participants[id]
            },
        ),
        ..pre
    }
    &&& r == post.participants[id]
}

/// A college named `name` with a fresh id was appended as `r`.
pub open spec fn add_college_step(pre: DeskState, name: Seq<char>, post: DeskState, r: CollegeView) -> bool {
    &&& college_id_unused(pre.colleges, r.id)
    &&& r.name == name
    &&& post == DeskState { colleges: pre.colleges.push(r), ..pre }
}

/// A desk session: the one handle through which a logged-in admin reads and
/// changes participants and colleges.
pub trait IRegDesk: Sized {
    /// The store as this session sees it.
    spec fn state(&self) -> DeskState;

    /// The session's internal invariant.
    spec fn wf(&self) -> bool;

    /// Another participant id can still be allocated.
    spec fn has_participant_id_left(&self) -> bool;

    /// Another college id can still be allocated.
    spec fn has_college_id_left(&self) -> bool;

    /// Adds an unverified participant under a fresh id.
    fn participant_new(&mut self, info: ParticipantInfo, college: College) -> (r: Participant)
        requires
            old(self).wf(),
            old(self).has_participant_id_left(),
        ensures
            final(self).wf(),
            new_participant_step(old(self).state(), info@, college@, final(self).state(), r@),
    ;

    /// Adds a participant under a fresh id, already verified by the session's admin.
    fn participant_new_verified(&mut self, info: ParticipantInfo, college: College) -> (r: Participant)
        requires
            old(self).wf(),
            old(self).has_participant_id_left(),
        ensures
            final(self).wf(),
            new_verified_participant_step(old(self).state(), info@, college@, final(self).state(), r@),
    ;

    /// The current record with `id`, if any.
    fn participant_get(&self, id: i32) -> (r: Option<Participant>)
        requires
            self.wf(),
        ensures
            r matches Some(p) ==> lookup(self.state(), id as int) == Some(p@),
            r is None ==> lookup(self.state(), id as int) is None,
    ;

    /// Replaces the details and college of the record with the same id;
    /// registration and hospitality are kept. An unknown id changes nothing.
    fn participant_update(&mut self, participant: &Participant)
        requires
            old(self).wf(),
        ensures
            final(self).wf(),
            update_participant_step(old(self).state(), participant@, final(self).state()),
    ;

    /// Consumes the token of an unverified record and stamps it verified by the session's admin.
    fn participant_verify_reg(&mut self, p: ParticipantRegNotVerified) -> (r: Participant)
        requires
            old(self).wf(),
            can_verify(old(self).state(), p.spec_id()),
        ensures
            final(self).wf(),
            verify_step(old(self).state(), p.spec_id(), final(self).state(), r@),
    ;

    /// Sets the hospitality of the record with `p`'s id, overwriting any earlier one.
    fn participant_update_hospi(&mut self, p: Participant, hostel: &str, room: &str) -> (r: Participant)
        requires
            old(self).wf(),
            old(self).state().participants.contains_key(p@.id),
        ensures
            final(self).wf(),
            hospitality_step(old(self).state(), p@.id, hostel@, room@, final(self).state(), r@),
    ;

    /// The colleges whose name starts with `name`, in the order they were added.
    fn college_get_filtered(&self, name: &str) -> (r: Vec<College>)
        requires
            self.wf(),
        ensures
            r@.map_values(|c: College| c@) == colleges_with_prefix(self.state().colleges, name@),
    ;

    /// Adds a college under a fresh id; names are not checked for uniqueness.
    fn college_add(&mut self, name: String) -> (r: College)
        requires
            old(self).wf(),
            old(self).has_college_id_left(),
        ensures
            final(self).wf(),
            add_college_step(old(self).state(), name@, final(self).state(), r@),
    ;
}

/// An operator account known to a login gate.
pub struct AccountView {
    pub username: Seq<char>,
    pub password: Seq<char>,
    pub admin: AdminView,
}

/// Some account of `accounts` has exactly these credentials.
pub open spec fn credentials_match(accounts: Seq<AccountView>, username: Seq<char>, password: Seq<char>) -> bool {
    exists|i: int|
        0 <= i < accounts.len() && #[trigger] accounts[i].username == username
            && accounts[i].password == password
}

/// The login gate: checks credentials and hands out a desk session for the matching admin.
pub trait ILogin: Sized {
    type Desk: IRegDesk;

    /// Operator accounts that can log in here.
    spec fn accounts(&self) -> Seq<AccountView>;

    /// A desk for the admin whose credentials these are; one opaque error otherwise.
    fn login_reg_desk(&self, username: &str, password: &str) -> (r: Result<Self::Desk, ()>)
        ensures
            r is Ok <==> credentials_match(self.accounts(), username@, password@),
            r matches Ok(d) ==> d.wf() && exists|i: int|
                0 <= i < self.accounts().len() && #[trigger] self.accounts()[i].username == username@
                    && self.accounts()[i].password == password@
                    && d.state().admin == self.accounts()[i].admin,
    ;
}

} // verus!
