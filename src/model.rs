//! Value types of the registration desk and their mathematical views.
use vstd::prelude::*;

verus! {

/// Spec-level view of an [`Admin`].
pub struct AdminView {
    pub id: int,
    pub name: Seq<char>,
}

/// Spec-level view of a [`College`].
pub struct CollegeView {
    pub id: int,
    pub name: Seq<char>,
}

/// Spec-level view of a [`ParticipantInfo`].
pub struct InfoView {
    pub name: Seq<char>,
    pub gender: Gender,
    pub email: Seq<char>,
    pub phone: Seq<char>,
    pub category: ParticipantCategory,
}

/// Spec-level view of a registration state.
pub enum RegView {
    /// Verified by the given admin.
    Verified { admin: AdminView },
    /// Not yet verified; carries the participant id only.
    NotVerified { id: int },
}

/// Spec-level view of a [`HospitalityVerified`].
pub struct HospView {
    pub admin: AdminView,
    pub hostel: Seq<char>,
    pub room: Seq<char>,
}

/// Spec-level view of a [`Participant`].
pub struct ParticipantView {
    pub id: int,
    pub info: InfoView,
    pub college: CollegeView,
    pub reg: RegView,
    pub hospitality: Option<HospView>,
}

/// An operator account as seen by the rest of the desk.
pub struct Admin {
    pub id: i32,
    pub name: String,
}

impl View for Admin {
    type V = AdminView;

    open spec fn view(&self) -> AdminView {
        AdminView { id: self.id as int, name: self.name@ }
    }
}

impl Clone for Admin {
    fn clone(&self) -> (r: Self)
        ensures
            r == *self,
    {
        Admin { id: self.id, name: self.name.clone() }
    }
}

#[derive(Debug, Clone, Copy, PartialEq, Eq, Structural)]
pub enum ParticipantCategory {
    Ragam,
    Kalotsavam,
}

#[derive(Debug, Clone, Copy, PartialEq, Eq, Structural)]
pub enum Gender {
    Male,
    Female,
    Other,
}

/// Personal details of a participant; replaced wholesale on update.
pub struct ParticipantInfo {
    pub name: String,
    pub gender: Gender,
    pub email: String,
    pub phone: String,
    pub category: ParticipantCategory,
}

impl View for ParticipantInfo {
    type V = InfoView;

    open spec fn view(&self) -> InfoView {
        InfoView {
            name: self.name@,
            gender: self.gender,
            email: self.email@,
            phone: self.phone@,
            category: self.category,
        }
    }
}

impl Clone for ParticipantInfo {
    fn clone(&self) -> (r: Self)
        ensures
            r == *self,
    {
        ParticipantInfo {
            name: self.name.clone(),
            gender: self.gender,
            email: self.email.clone(),
            phone: self.phone.clone(),
            category: self.category,
        }
    }
}

/// A college; its id is assigned by the desk that created it.
pub struct College {
    id: i32,
    pub name: String,
}

impl College {
    pub(crate) fn from_parts(id: i32, name: String) -> (r: College)
        ensures
            r@ == (CollegeView { id: id as int, name: name@ }),
    {
        College { id, name }
    }

    pub fn id(&self) -> (r: i32)
        ensures
            r as int == self@.id,
    {
        self.id
    }

    pub fn name(&self) -> (r: &str)
        ensures
            r@ == self@.name,
    {
        self.name.as_str()
    }
}

impl View for College {
    type V = CollegeView;

    closed spec fn view(&self) -> CollegeView {
        CollegeView { id: self.id as int, name: self.name@ }
    }
}

impl Clone for College {
    fn clone(&self) -> (r: Self)
        ensures
            r == *self,
    {
        College { id: self.id, name: self.name.clone() }
    }
}

/// Proof that a participant's registration was verified, and by whom.
pub struct ParticipantRegVerified {
    pub admin: Admin,
}

impl Clone for ParticipantRegVerified {
    fn clone(&self) -> (r: Self)
        ensures
            r == *self,
    {
        ParticipantRegVerified { admin: self.admin.clone() }
    }
}

/// Token held by a participant whose registration is not verified yet.
///
/// It can only be obtained from a participant record handed out by a desk,
/// and it is the only argument that verification accepts.
#[derive(Clone, Copy)]
pub struct ParticipantRegNotVerified {
    id: i32,
}

impl ParticipantRegNotVerified {
    /// The id of the participant this token belongs to.
    pub closed spec fn spec_id(&self) -> int {
        self.id as int
    }

    pub(crate) fn for_id(id: i32) -> (r: Self)
        ensures
            r.spec_id() == id as int,
    {
        ParticipantRegNotVerified { id }
    }

    pub fn id(&self) -> (r: i32)
        ensures
            r as int == self.spec_id(),
    {
        self.id
    }
}

/// Registration state of a participant: `Ok` once verified, `Err` with a token before.
pub open spec fn reg_view(r: Result<ParticipantRegVerified, ParticipantRegNotVerified>) -> RegView {
    match r {
        Ok(v) => RegView::Verified { admin: v.admin@ },
        Err(t) => RegView::NotVerified { id: t.spec_id() },
    }
}

/// Hospitality assignment, with the admin who made it.
pub struct HospitalityVerified {
    pub admin: Admin,
    pub hostel: String,
    pub room: String,
}

impl View for HospitalityVerified {
    type V = HospView;

    open spec fn view(&self) -> HospView {
        HospView { admin: self.admin@, hostel: self.hostel@, room: self.room@ }
    }
}

impl Clone for HospitalityVerified {
    fn clone(&self) -> (r: Self)
        ensures
            r == *self,
    {
        HospitalityVerified {
            admin: self.admin.clone(),
            hostel: self.hostel.clone(),
            room: self.room.clone(),
        }
    }
}

pub open spec fn hosp_view(h: Option<HospitalityVerified>) -> Option<HospView> {
    match h {
        Some(v) => Some(v@),
        None => None,
    }
}

/// A participant record as held by a desk.
pub struct Participant {
    id: i32,
    pub info: ParticipantInfo,
    pub college: College,
    pub reg_status: Result<ParticipantRegVerified, ParticipantRegNotVerified>,
    pub hospitality: Option<HospitalityVerified>,
}

impl Participant {
    pub(crate) fn from_parts(
        id: i32,
        info: ParticipantInfo,
        college: College,
        reg_status: Result<ParticipantRegVerified, ParticipantRegNotVerified>,
        hospitality: Option<HospitalityVerified>,
    ) -> (r: Participant)
        ensures
            r@ == (ParticipantView {
                id: id as int,
                info: info@,
                college: college@,
                reg: reg_view(reg_status),
                hospitality: hosp_view(hospitality),
            }),
    {
        Participant { id, info, college, reg_status, hospitality }
    }

    pub fn id(&self) -> (r: i32)
        ensures
            r as int == self@.id,
    {
        self.id
    }

    /// The token of an unverified participant; `None` once verified.
    pub fn not_verified(&self) -> (r: Option<ParticipantRegNotVerified>)
        ensures
            r is Some <==> self@.reg is NotVerified,
            r is Some ==> r->0.spec_id() == self@.reg->NotVerified_id,
    {
        match &self.reg_status {
            Ok(_) => None,
            Err(t) => Some(*t),
        }
    }

    /// Replaces the personal details and the college, keeping the rest.
    pub fn set_details(&mut self, info: ParticipantInfo, college: College)
        ensures
            final(self)@ == (ParticipantView { info: info@, college: college@, ..old(self)@ }),
    {
        self.info = info;
        self.college = college;
    }

    /// Takes the personal details and the college of `other`, keeping the rest.
    pub(crate) fn copy_details_from(&mut self, other: &Participant)
        ensures
            final(self)@ == (ParticipantView { info: other@.info, college: other@.college, ..old(self)@ }),
    {
        self.info = other.info.clone();
        self.college = other.college.clone();
    }

    /// Replaces the registration state, keeping the rest.
    pub(crate) fn set_reg_status(
        &mut self,
        reg_status: Result<ParticipantRegVerified, ParticipantRegNotVerified>,
    )
        ensures
            final(self)@ == (ParticipantView { reg: reg_view(reg_status), ..old(self)@ }),
    {
        self.reg_status = reg_status;
    }

    /// Replaces the hospitality assignment, keeping the rest.
    pub(crate) fn set_hospitality(&mut self, hospitality: Option<HospitalityVerified>)
        ensures
            final(self)@ == (ParticipantView { hospitality: hosp_view(hospitality), ..old(self)@ }),
    {
        self.hospitality = hospitality;
    }
}

impl View for Participant {
    type V = ParticipantView;

    closed spec fn view(&self) -> ParticipantView {
        ParticipantView {
            id: self.id as int,
            info: self.info@,
            college: self.college@,
            reg: reg_view(self.reg_status),
            hospitality: hosp_view(self.hospitality),
        }
    }
}

impl Clone for Participant {
    fn clone(&self) -> (r: Self)
        ensures
            r == *self,
    {
        let reg_status = match &self.reg_status {
            Ok(v) => Ok(v.clone()),
            Err(t) => Err(*t),
        };
        let hospitality = match &self.hospitality {
            Some(h) => Some(h.clone()),
            None => None,
        };
        Participant {
            id: self.id,
            info: self.info.clone(),
            college: self.college.clone(),
            reg_status,
            hospitality,
        }
    }
}

} // verus!
