use reg_desk::codec::{
    category_from_i32, category_to_i32, college_from_row, gender_from_i32, gender_to_i32,
    participant_from_row, ParticipantRow,
};
use reg_desk::model::{Gender, ParticipantCategory};

fn row() -> ParticipantRow {
    ParticipantRow {
        id: 7,
        name: "Test".to_string(),
        gender: 1,
        email: "t@x.org".to_string(),
        phone: "99".to_string(),
        category: 1,
        college_id: 3,
        college_name: "GEC Kannur".to_string(),
        reg_admin_id: None,
        reg_admin_name: None,
        hosp_admin_id: None,
        hosp_admin_name: None,
        hostel: None,
        room: None,
    }
}

#[test]
fn gender_codes() {
    assert_eq!(gender_to_i32(Gender::Male), 0);
    assert_eq!(gender_to_i32(Gender::Female), 1);
    assert_eq!(gender_to_i32(Gender::Other), 2);
    assert_eq!(gender_from_i32(0), Gender::Male);
    assert_eq!(gender_from_i32(1), Gender::Female);
    assert_eq!(gender_from_i32(2), Gender::Other);
    assert_eq!(gender_from_i32(17), Gender::Other);
    for g in [Gender::Male, Gender::Female, Gender::Other] {
        assert_eq!(gender_from_i32(gender_to_i32(g)), g);
    }
}

#[test]
fn category_codes() {
    assert_eq!(category_to_i32(ParticipantCategory::Ragam), 0);
    assert_eq!(category_to_i32(ParticipantCategory::Kalotsavam), 1);
    assert_eq!(category_from_i32(0), ParticipantCategory::Ragam);
    assert_eq!(category_from_i32(1), ParticipantCategory::Kalotsavam);
    assert_eq!(category_from_i32(-3), ParticipantCategory::Kalotsavam);
}

#[test]
fn unverified_row() {
    let p = participant_from_row(row());
    assert_eq!(p.id(), 7);
    assert_eq!(p.info.name, "Test");
    assert_eq!(p.info.gender, Gender::Female);
    assert_eq!(p.info.category, ParticipantCategory::Kalotsavam);
    assert_eq!(p.college.id(), 3);
    assert_eq!(p.college.name, "GEC Kannur");
    assert_eq!(p.not_verified().map(|t| t.id()), Some(7));
    assert!(p.hospitality.is_none());
}

#[test]
fn verified_row_with_hospitality() {
    let mut r = row();
    r.reg_admin_id = Some(1000);
    r.reg_admin_name = Some("Admin".to_string());
    r.hosp_admin_id = Some(1001);
    r.hosp_admin_name = Some("Warden".to_string());
    r.hostel = Some("H2".to_string());
    r.room = Some("202".to_string());
    let p = participant_from_row(r);
    let v = p.reg_status.as_ref().ok().expect("verified");
    assert_eq!((v.admin.id, v.admin.name.as_str()), (1000, "Admin"));
    let h = p.hospitality.expect("assigned");
    assert_eq!((h.admin.id, h.admin.name.as_str()), (1001, "Warden"));
    assert_eq!((h.hostel.as_str(), h.room.as_str()), ("H2", "202"));
}

#[test]
fn half_filled_admin_columns_read_as_absent() {
    let mut r = row();
    r.reg_admin_id = Some(1000);
    r.hosp_admin_name = Some("Warden".to_string());
    let p = participant_from_row(r);
    assert!(p.not_verified().is_some());
    assert!(p.hospitality.is_none());
}

#[test]
fn college_row() {
    let c = college_from_row(12, "CET Trivandrum".to_string());
    assert_eq!(c.id(), 12);
    assert_eq!(c.name(), "CET Trivandrum");
}
