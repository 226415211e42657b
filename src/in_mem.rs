//! A desk backend that keeps everything in memory.
use vstd::prelude::*;

use crate::desk::{
    colleges_with_prefix, credentials_match, records_consistent, AccountView, DeskState, ILogin, IRegDesk,
};
use crate::model::{
    Admin, College, CollegeView, HospitalityVerified, Participant, ParticipantInfo,
    ParticipantRegNotVerified, ParticipantRegVerified,
};
use crate::text::starts_with;

verus! {

/// Ids handed out by a fresh desk start right after this one.
pub const FIRST_ID: i32 = 1000;

struct AdminEx {
    id: i32,
    username: String,
    password: String,
    info: Admin,
}

impl AdminEx {
    spec fn account(&self) -> AccountView {
        AccountView { username: self.username@, password: self.password@, admin: self.info@ }
    }
}

/// The colleges every fresh in-memory desk starts with, in this order.
pub open spec fn seed_college_names() -> Seq<Seq<char>> {
    seq![
        "NIT Calicut"@,
        "GEC Kannur"@,
        "GEC Thrissur"@,
        "CET Trivandrum"@,
        "TKM Kollam"@,
        "Amrita Coimbatore"@,
    ]
}

/// The colleges of a fresh desk: the seed names under ids counting up from `FIRST_ID + 1`.
pub open spec fn seeded_colleges(cs: Seq<CollegeView>) -> bool {
    &&& cs.len() == seed_college_names().len()
    &&& forall|i: int|
        0 <= i < cs.len() ==> #[trigger] cs[i] == (CollegeView {
            id: FIRST_ID + 1 + i,
            name: seed_college_names()[i],
        })
}

/// In-memory login gate.
pub struct Login {
    admins: Vec<AdminEx>,
}

impl Login {
    /// A gate that knows no account.
    pub fn new() -> (r: Login)
        ensures
            r.accounts() == Seq::<AccountView>::empty(),
    {
        Login { admins: Vec::new() }
    }

    /// Adds the demonstration account `admin` / `admin`, for the admin `Admin` with id 1000.
    pub fn generate_dummy_values(&mut self)
        ensures
            final(self).accounts().len() == old(self).accounts().len() + 1,
            final(self).accounts().drop_last() == old(self).accounts(),
            final(self).accounts().last() == (AccountView {
                username: "admin"@,
                password: "admin"@,
                admin: crate::model::AdminView { id: 1000, name: "Admin"@ },
            }),
    {
        let acct = AdminEx {
            id: 1000,
            username: "admin".to_owned(),
            password: "admin".to_owned(),
            info: Admin { id: 1000, name: "Admin".to_owned() },
        };
        self.admins.push(acct);
        assert(self.accounts().drop_last() =~= old(self).accounts());
    }
}

impl ILogin for Login {
    type Desk = RegDesk;

    closed spec fn accounts(&self) -> Seq<AccountView> {
        self.admins@.map_values(|a: AdminEx| a.account())
    }

    fn login_reg_desk(&self, username: &str, password: &str) -> (r: Result<RegDesk, ()>)
        ensures
            r matches Ok(d) ==> d.state().participants.is_empty() && records_consistent(d.state())
                && seeded_colleges(d.state().colleges)
                && d.has_participant_id_left() && d.has_college_id_left()
                && d.next_participant_id() == FIRST_ID + 1,
    {
        let wanted_user = username.to_owned();
        let wanted_pass = password.to_owned();
        let mut i: usize = 0;
        while i < self.admins.len()
            invariant
                i <= self.admins@.len(),
                wanted_user@ == username@,
                wanted_pass@ == password@,
                forall|j: int|
                    0 <= j < i ==> !(#[trigger] self.accounts()[j].username == username@
                        && self.accounts()[j].password == password@),
            decreases self.admins.len() - i,
        {
            let admin = &self.admins[i];
            assert(self.accounts()[i as int] == admin.account());
            if admin.username == wanted_user && admin.password == wanted_pass {
                let mut reg_desk = RegDesk::new(admin.info.clone());
                reg_desk.generate_dummy_values();
                assert(self.accounts()[i as int].username == username@);
                assert(credentials_match(self.accounts(), username@, password@));
                return Ok(reg_desk);
            }
            i = i + 1;
        }
        Err(())
    }
}

/// In-memory desk session.
pub struct RegDesk {
    logged_in_admin: Admin,
    participants: Vec<Participant>,
    colleges: Vec<College>,
    participant_last_id: i32,
    college_last_id: i32,
}

impl RegDesk {
    /// The id the next participant will get.
    pub closed spec fn next_participant_id(&self) -> int {
        self.participant_last_id + 1
    }

    /// The id the next college will get.
    pub closed spec fn next_college_id(&self) -> int {
        self.college_last_id + 1
    }

    fn new(logged_in_admin: Admin) -> (r: RegDesk)
        ensures
            r.wf(),
            r.state().admin == logged_in_admin@,
            r.state().participants.is_empty(),
            r.state().colleges.len() == 0,
            r.next_participant_id() == FIRST_ID + 1,
            r.next_college_id() == FIRST_ID + 1,
    {
        let r = RegDesk {
            logged_in_admin,
            participants: Vec::new(),
            colleges: Vec::new(),
            participant_last_id: FIRST_ID,
            college_last_id: FIRST_ID,
        };
        assert(r.state().participants =~= Map::empty());
        r
    }

    /// Seeds the colleges every fresh desk starts with.
    fn generate_dummy_values(&mut self)
        requires
            old(self).wf(),
            old(self).state().colleges.len() == 0,
            old(self).next_college_id() == FIRST_ID + 1,
        ensures
            final(self).wf(),
            final(self).state().admin == old(self).state().admin,
            final(self).state().participants == old(self).state().participants,
            seeded_colleges(final(self).state().colleges),
            final(self).next_participant_id() == old(self).next_participant_id(),
    {
        self.college_add("NIT Calicut".to_owned());
        self.college_add("GEC Kannur".to_owned());
        self.college_add("GEC Thrissur".to_owned());
        self.college_add("CET Trivandrum".to_owned());
        self.college_add("TKM Kollam".to_owned());
        self.college_add("Amrita Coimbatore".to_owned());
    }
}

impl IRegDesk for RegDesk {
    closed spec fn state(&self) -> DeskState {
        DeskState {
            admin: self.logged_in_admin@,
            participants: Map::new(
                |id: int| FIRST_ID < id <= self.participant_last_id,
                |id: int| self.participants@[id - FIRST_ID - 1]@,
            ),
            colleges: self.colleges@.map_values(|c: College| c@),
        }
    }

    closed spec fn wf(&self) -> bool {
        &&& self.participant_last_id == FIRST_ID + self.participants@.len()
        &&& forall|i: int|
            0 <= i < self.participants@.len() ==> #[trigger] self.participants@[i]@.id == FIRST_ID + 1 + i
        &&& self.college_last_id == FIRST_ID + self.colleges@.len()
        &&& forall|i: int|
            0 <= i < self.colleges@.len() ==> #[trigger] self.colleges@[i]@.id == FIRST_ID + 1 + i
    }

    closed spec fn has_participant_id_left(&self) -> bool {
        self.participant_last_id < i32::MAX
    }

    closed spec fn has_college_id_left(&self) -> bool {
        self.college_last_id < i32::MAX
    }

    fn participant_new(&mut self, info: ParticipantInfo, college: College) -> (r: Participant)
        ensures
            r@.id == old(self).next_participant_id(),
            final(self).next_participant_id() == r@.id + 1,
            final(self).next_college_id() == old(self).next_college_id(),
    {
        self.participant_last_id = self.participant_last_id + 1;
        let id = self.participant_last_id;
        let participant = Participant::from_parts(
            id,
            info,
            college,
            Err(ParticipantRegNotVerified::for_id(id)),
            None,
        );
        self.participants.push(participant.clone());
        assert(self.state().participants =~= old(self).state().participants.insert(id as int, participant@));
        participant
    }

    fn participant_new_verified(&mut self, info: ParticipantInfo, college: College) -> (r: Participant)
        ensures
            r@.id == old(self).next_participant_id(),
            final(self).next_participant_id() == r@.id + 1,
            final(self).next_college_id() == old(self).next_college_id(),
    {
        self.participant_last_id = self.participant_last_id + 1;
        let id = self.participant_last_id;
        let admin = self.logged_in_admin.clone();
        let participant = Participant::from_parts(
            id,
            info,
            college,
            Ok(ParticipantRegVerified { admin }),
            None,
        );
        self.participants.push(participant.clone());
        assert(self.state().participants =~= old(self).state().participants.insert(id as int, participant@));
        participant
    }

    fn participant_get(&self, id: i32) -> (r: Option<Participant>) {
        if FIRST_ID < id && id <= self.participant_last_id {
            let idx = (id - FIRST_ID - 1) as usize;
            Some(self.participants[idx].clone())
        } else {
            None
        }
    }

    fn participant_update(&mut self, participant: &Participant) {
        let id = participant.id();
        if FIRST_ID < id && id <= self.participant_last_id {
            let idx = (id - FIRST_ID - 1) as usize;
            self.participants[idx].copy_details_from(participant);
            assert(self.state().participants =~= old(self).state().participants.insert(
                id as int,
                crate::model::ParticipantView {
                    info: participant@.info,
                    college: participant@.college,
                    ..old(self).state().participants[id as int]
                },
            ));
        }
    }

    fn participant_verify_reg(&mut self, p: ParticipantRegNotVerified) -> (r: Participant) {
        let id = p.id();
        let idx = (id - FIRST_ID - 1) as usize;
        let admin = self.logged_in_admin.clone();
        self.participants[idx].set_reg_status(Ok(ParticipantRegVerified { admin }));
        assert(self.state().participants =~= old(self).state().participants.insert(
            id as int,
            crate::model::ParticipantView {
                reg: crate::model::RegView::Verified { admin: old(self).state().admin },
                ..old(self).state().participants[id as int]
            },
        ));
        self.participants[idx].clone()
    }

    fn participant_update_hospi(&mut self, p: Participant, hostel: &str, room: &str) -> (r: Participant) {
        let id = p.id();
        let idx = (id - FIRST_ID - 1) as usize;
        let admin = self.logged_in_admin.clone();
        let hospitality = HospitalityVerified { admin, hostel: hostel.to_owned(), room: room.to_owned() };
        self.participants[idx].set_hospitality(Some(hospitality));
        assert(self.state().participants =~= old(self).state().participants.insert(
            id as int,
            crate::model::ParticipantView {
                hospitality: Some(crate::model::HospView {
                    admin: old(self).state().admin,
                    hostel: hostel@,
                    room: room@,
                }),
                ..old(self).state().participants[id as int]
            },
        ));
        self.participants[idx].clone()
    }

    fn college_get_filtered(&self, name: &str) -> (r: Vec<College>) {
        let mut found: Vec<College> = Vec::new();
        let mut i: usize = 0;
        let ghost all = self.colleges@.map_values(|c: College| c@);
        while i < self.colleges.len()
            invariant
                i <= self.colleges@.len(),
                all == self.colleges@.map_values(|c: College| c@),
                found@.map_values(|c: College| c@) == colleges_with_prefix(all.take(i as int), name@),
            decreases self.colleges.len() - i,
        {
            let c = &self.colleges[i];
            proof {
                reveal(Seq::filter);
                assert(all.take(i as int + 1).drop_last() =~= all.take(i as int));
                assert(all.take(i as int + 1).last() == c@);
            }
            if starts_with(c.name(), name) {
                found.push(c.clone());
                assert(found@.map_values(|c: College| c@) =~= colleges_with_prefix(all.take(i as int), name@).push(c@));
            }
            i = i + 1;
        }
        assert(all.take(i as int) =~= all);
        found
    }

    fn college_add(&mut self, name: String) -> (r: College)
        ensures
            r@.id == old(self).next_college_id(),
            final(self).next_college_id() == r@.id + 1,
            final(self).next_participant_id() == old(self).next_participant_id(),
    {
        self.college_last_id = self.college_last_id + 1;
        let college = College::from_parts(self.college_last_id, name);
        self.colleges.push(college.clone());
        assert(self.state().colleges =~= old(self).state().colleges.push(college@));
        college
    }
}

} // verus!
