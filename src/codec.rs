//! How the persistent store writes the desk's values, and how its rows are read back.
use vstd::prelude::*;

use crate::model::{
    reg_view, Admin, AdminView, College, CollegeView, Gender, HospView, HospitalityVerified,
    InfoView, Participant, ParticipantCategory, ParticipantInfo, ParticipantRegNotVerified,
    ParticipantRegVerified, ParticipantView, RegView,
};

verus! {

/// The stored code of a gender.
pub open spec fn gender_code(g: Gender) -> int {
    match g {
        Gender::Male => 0,
        Gender::Female => 1,
        Gender::Other => 2,
    }
}

/// The gender a stored code stands for; codes other than 0 and 1 read as `Other`.
pub open spec fn gender_of_code(c: int) -> Gender {
    if c == 0 {
        Gender::Male
    } else if c == 1 {
        Gender::Female
    } else {
        Gender::Other
    }
}

/// The stored code of a category.
pub open spec fn category_code(c: ParticipantCategory) -> int {
    match c {
        ParticipantCategory::Ragam => 0,
        ParticipantCategory::Kalotsavam => 1,
    }
}

/// The category a stored code stands for; codes other than 0 read as `Kalotsavam`.
pub open spec fn category_of_code(c: int) -> ParticipantCategory {
    if c == 0 {
        ParticipantCategory::Ragam
    } else {
        ParticipantCategory::Kalotsavam
    }
}

pub fn gender_to_i32(gender: Gender) -> (r: i32)
    ensures
        r as int == gender_code(gender),
        gender_of_code(r as int) == gender,
{
    match gender {
        Gender::Male => 0,
        Gender::Female => 1,
        Gender::Other => 2,
    }
}

pub fn gender_from_i32(gender: i32) -> (r: Gender)
    ensures
        r == gender_of_code(gender as int),
{
    match gender {
        0 => Gender::Male,
        1 => Gender::Female,
        _ => Gender::Other,
    }
}

pub fn category_to_i32(cat: ParticipantCategory) -> (r: i32)
    ensures
        r as int == category_code(cat),
        category_of_code(r as int) == cat,
{
    match cat {
        ParticipantCategory::Ragam => 0,
        ParticipantCategory::Kalotsavam => 1,
    }
}

pub fn category_from_i32(cat: i32) -> (r: ParticipantCategory)
    ensures
        r == category_of_code(cat as int),
{
    match cat {
        0 => ParticipantCategory::Ragam,
        _ => ParticipantCategory::Kalotsavam,
    }
}

/// A college as read from a stored row.
pub fn college_from_row(id: i32, name: String) -> (r: College)
    ensures
        r@ == (CollegeView { id: id as int, name: name@ }),
{
    College::from_parts(id, name)
}

/// One participant row of the persistent store, joined with its college and
/// with the admins who verified it and assigned its hospitality.
pub struct ParticipantRow {
    pub id: i32,
    pub name: String,
    pub gender: i32,
    pub email: String,
    pub phone: String,
    pub category: i32,
    pub college_id: i32,
    pub college_name: String,
    pub reg_admin_id: Option<i32>,
    pub reg_admin_name: Option<String>,
    pub hosp_admin_id: Option<i32>,
    pub hosp_admin_name: Option<String>,
    pub hostel: Option<String>,
    pub room: Option<String>,
}

/// The row records a hospitality assignment: both of its admin columns are filled.
pub open spec fn row_has_hospitality(row: ParticipantRow) -> bool {
    row.hosp_admin_id is Some && row.hosp_admin_name is Some
}

/// A row is readable when every hospitality assignment it records names a hostel and a room.
pub open spec fn row_readable(row: ParticipantRow) -> bool {
    row_has_hospitality(row) ==> row.hostel is Some && row.room is Some
}

/// The participant a readable row describes: verified when both verifying-admin
/// columns are filled, with hospitality when both hospitality-admin columns are.
pub open spec fn row_view(row: ParticipantRow) -> ParticipantView {
    ParticipantView {
        id: row.id as int,
        info: InfoView {
            name: row.name@,
            gender: gender_of_code(row.gender as int),
            email: row.email@,
            phone: row.phone@,
            category: category_of_code(row.category as int),
        },
        college: CollegeView { id: row.college_id as int, name: row.college_name@ },
        reg: if row.reg_admin_id is Some && row.reg_admin_name is Some {
            RegView::Verified {
                admin: AdminView { id: row.reg_admin_id->0 as int, name: row.reg_admin_name->0@ },
            }
        } else {
            RegView::NotVerified { id: row.id as int }
        },
        hospitality: if row_has_hospitality(row) {
            Some(
                HospView {
                    admin: AdminView { id: row.hosp_admin_id->0 as int, name: row.hosp_admin_name->0@ },
                    hostel: row.hostel->0@,
                    room: row.room->0@,
                },
            )
        } else {
            None
        },
    }
}

/// Reads a participant record from its stored row.
pub fn participant_from_row(row: ParticipantRow) -> (r: Participant)
    requires
        row_readable(row),
    ensures
        r@ == row_view(row),
{
    let ghost g = row;
    let ParticipantRow {
        id,
        name,
        gender,
        email,
        phone,
        category,
        college_id,
        college_name,
        reg_admin_id,
        reg_admin_name,
        hosp_admin_id,
        hosp_admin_name,
        hostel,
        room,
    } = row;
    let info = ParticipantInfo {
        name,
        gender: gender_from_i32(gender),
        email,
        phone,
        category: category_from_i32(category),
    };
    let college = College::from_parts(college_id, college_name);
    let reg_status = match (reg_admin_id, reg_admin_name) {
        (Some(admin_id), Some(admin_name)) => Ok(
            ParticipantRegVerified { admin: Admin { id: admin_id, name: admin_name } },
        ),
        _ => Err(ParticipantRegNotVerified::for_id(id)),
    };
    let hospitality = match (hosp_admin_id, hosp_admin_name, hostel, room) {
        (Some(admin_id), Some(admin_name), Some(hostel), Some(room)) => Some(
            HospitalityVerified { admin: Admin { id: admin_id, name: admin_name }, hostel, room },
        ),
        _ => None,
    };
    let r = Participant::from_parts(id, info, college, reg_status, hospitality);
    assert(reg_view(reg_status) == row_view(g).reg);
    r
}

} // verus!
