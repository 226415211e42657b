use reg_desk::desk::{ILogin, IRegDesk};
use reg_desk::in_mem::{Login, RegDesk};
use reg_desk::model::{College, Gender, ParticipantCategory, ParticipantInfo};

fn logged_in() -> RegDesk {
    let mut login = Login::new();
    login.generate_dummy_values();
    match login.login_reg_desk("admin", "admin") {
        Ok(desk) => desk,
        Err(()) => panic!("the demonstration account must log in"),
    }
}

fn info(name: &str, gender: Gender, email: &str, phone: &str) -> ParticipantInfo {
    ParticipantInfo {
        name: name.to_string(),
        gender,
        email: email.to_string(),
        phone: phone.to_string(),
        category: ParticipantCategory::Ragam,
    }
}

fn college_named(desk: &RegDesk, name: &str) -> College {
    desk.college_get_filtered(name)
        .into_iter()
        .find(|c| c.name == name)
        .expect("seeded college")
}

#[test]
fn login_then_create_and_verify() {
    let mut desk = logged_in();
    let nit = college_named(&desk, "NIT Calicut");
    let p = desk.participant_new(
        info("Test", Gender::Male, "test@gmail.com", "9876567891"),
        nit.clone(),
    );
    assert_eq!(p.id(), 1001);
    let token = p.not_verified().expect("a new participant is not verified");
    assert_eq!(token.id(), 1001);
    assert_eq!(p.college.id(), nit.id());
    assert_eq!(p.college.name, "NIT Calicut");

    let verified = desk.participant_verify_reg(token);
    assert_eq!(verified.id(), 1001);
    match &verified.reg_status {
        Ok(v) => {
            assert_eq!(v.admin.name, "Admin");
            assert_eq!(v.admin.id, 1000);
        }
        Err(_) => panic!("verification must stick"),
    }
    assert!(verified.not_verified().is_none());
    assert_eq!(verified.info.name, "Test");
}

#[test]
fn add_college_then_list_by_prefix() {
    let mut desk = logged_in();
    let added = desk.college_add("GEC Kannur".to_string());
    assert_eq!(added.name, "GEC Kannur");
    let listed = desk.college_get_filtered("GEC");
    let names: Vec<&str> = listed.iter().map(|c| c.name.as_str()).collect();
    assert_eq!(names, vec!["GEC Kannur", "GEC Thrissur", "GEC Kannur"]);
    assert_eq!(listed[2].id(), added.id());
    assert!(listed.iter().all(|c| c.name.starts_with("GEC")));
}

#[test]
fn empty_filter_lists_every_college() {
    let desk = logged_in();
    let all = desk.college_get_filtered("");
    assert_eq!(all.len(), 6);
    let ids: Vec<i32> = all.iter().map(|c| c.id()).collect();
    assert_eq!(ids, vec![1001, 1002, 1003, 1004, 1005, 1006]);
    let names: Vec<&str> = all.iter().map(|c| c.name()).collect();
    assert_eq!(
        names,
        vec!["NIT Calicut", "GEC Kannur", "GEC Thrissur", "CET Trivandrum", "TKM Kollam", "Amrita Coimbatore"]
    );
    assert!(desk.college_get_filtered("Nowhere").is_empty());
    assert!(desk.college_get_filtered("gec").is_empty());
}

#[test]
fn new_participant_ids_are_distinct_and_retrievable() {
    let mut desk = logged_in();
    let college = college_named(&desk, "TKM Kollam");
    let mut made = Vec::new();
    for k in 0..5 {
        let name = format!("P{}", k);
        made.push(desk.participant_new(info(&name, Gender::Other, "p@x.org", "1"), college.clone()));
    }
    for (i, a) in made.iter().enumerate() {
        for b in made.iter().skip(i + 1) {
            assert_ne!(a.id(), b.id());
        }
        let back = desk.participant_get(a.id()).expect("stored");
        assert_eq!(back.id(), a.id());
        assert_eq!(back.info.name, a.info.name);
    }
    let ids: Vec<i32> = made.iter().map(|p| p.id()).collect();
    assert_eq!(ids, vec![1001, 1002, 1003, 1004, 1005]);
}

#[test]
fn new_then_get_round_trips() {
    let mut desk = logged_in();
    let college = college_named(&desk, "CET Trivandrum");
    let p = desk.participant_new(info("Asha", Gender::Female, "asha@x.org", "12345"), college.clone());
    let got = desk.participant_get(p.id()).expect("stored");
    assert_eq!(got.info.name, "Asha");
    assert_eq!(got.info.gender, Gender::Female);
    assert_eq!(got.info.email, "asha@x.org");
    assert_eq!(got.info.phone, "12345");
    assert_eq!(got.info.category, ParticipantCategory::Ragam);
    assert_eq!(got.college.id(), college.id());
    assert_eq!(got.college.name, "CET Trivandrum");
    assert_eq!(got.not_verified().map(|t| t.id()), Some(p.id()));
    assert!(got.hospitality.is_none());
}

#[test]
fn unknown_id_is_not_found() {
    let desk = logged_in();
    assert!(desk.participant_get(1001).is_none());
    assert!(desk.participant_get(1000).is_none());
    assert!(desk.participant_get(-1).is_none());
}

#[test]
fn hospitality_last_assignment_wins() {
    let mut desk = logged_in();
    let college = college_named(&desk, "GEC Thrissur");
    let p = desk.participant_new(info("Guest", Gender::Male, "g@x.org", "5"), college);
    let first = desk.participant_update_hospi(p.clone(), "H1", "101");
    let h = first.hospitality.as_ref().expect("assigned");
    assert_eq!((h.hostel.as_str(), h.room.as_str()), ("H1", "101"));
    let second = desk.participant_update_hospi(p.clone(), "H2", "202");
    let h = second.hospitality.as_ref().expect("assigned");
    assert_eq!(h.hostel, "H2");
    assert_eq!(h.room, "202");
    assert_eq!(h.admin.name, "Admin");
    let stored = desk.participant_get(p.id()).expect("stored");
    let h = stored.hospitality.clone().expect("assigned");
    assert_eq!((h.hostel.as_str(), h.room.as_str()), ("H2", "202"));
    assert!(stored.not_verified().is_some());
}

#[test]
fn update_replaces_details_and_keeps_registration() {
    let mut desk = logged_in();
    let c1 = college_named(&desk, "NIT Calicut");
    let c2 = college_named(&desk, "Amrita Coimbatore");
    let p = desk.participant_new(info("Old", Gender::Male, "old@x.org", "1"), c1);
    let verified = desk.participant_verify_reg(p.not_verified().unwrap());
    let mut changed = verified.clone();
    changed.info = info("New", Gender::Female, "new@x.org", "2");
    changed.college = c2.clone();
    desk.participant_update(&changed);
    let got = desk.participant_get(p.id()).unwrap();
    assert_eq!(got.info.name, "New");
    assert_eq!(got.info.email, "new@x.org");
    assert_eq!(got.college.id(), c2.id());
    assert!(got.reg_status.is_ok());
}

#[test]
fn update_of_unknown_id_changes_nothing() {
    let mut other = logged_in();
    let college = college_named(&other, "NIT Calicut");
    let a = other.participant_new(info("A", Gender::Male, "a", "1"), college.clone());
    let b = other.participant_new(info("B", Gender::Male, "b", "2"), college);
    let mut desk = logged_in();
    let c = college_named(&desk, "TKM Kollam");
    desk.participant_new(info("Only", Gender::Other, "o", "3"), c);
    assert_eq!(a.id(), 1001);
    desk.participant_update(&b);
    assert!(desk.participant_get(b.id()).is_none());
    assert_eq!(desk.participant_get(1001).unwrap().info.name, "Only");
}

#[test]
fn new_verified_participant_is_verified_by_session_admin() {
    let mut desk = logged_in();
    let college = college_named(&desk, "GEC Kannur");
    let p = desk.participant_new_verified(info("Self", Gender::Male, "s@x.org", "9"), college);
    assert_eq!(p.id(), 1001);
    assert!(p.not_verified().is_none());
    let got = desk.participant_get(p.id()).unwrap();
    assert_eq!(got.reg_status.ok().map(|v| v.admin.name), Some("Admin".to_string()));
}

#[test]
fn login_rejects_wrong_credentials() {
    let mut login = Login::new();
    assert!(login.login_reg_desk("admin", "admin").is_err());
    login.generate_dummy_values();
    assert!(login.login_reg_desk("admin", "wrong").is_err());
    assert!(login.login_reg_desk("nobody", "admin").is_err());
    assert!(login.login_reg_desk("", "").is_err());
    assert!(login.login_reg_desk("admin", "admin").is_ok());
}

#[test]
fn each_login_starts_a_fresh_session() {
    let mut first = logged_in();
    let college = college_named(&first, "NIT Calicut");
    first.participant_new(info("X", Gender::Male, "x", "1"), college);
    first.college_add("Extra".to_string());
    let second = logged_in();
    assert!(second.participant_get(1001).is_none());
    assert_eq!(second.college_get_filtered("").len(), 6);
}
