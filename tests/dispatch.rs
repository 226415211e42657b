use reg_desk::desk::{ILogin, IRegDesk};
use reg_desk::dispatch::{run_op, DeskOp, DeskOutcome, SessionSlot};
use reg_desk::in_mem::{Login, RegDesk};
use reg_desk::model::{Gender, ParticipantCategory, ParticipantInfo};

fn logged_in() -> RegDesk {
    let mut login = Login::new();
    login.generate_dummy_values();
    login.login_reg_desk("admin", "admin").ok().expect("demonstration account")
}

#[test]
fn slot_is_empty_exactly_while_one_operation_is_out() {
    let mut slot = SessionSlot::new(logged_in());
    assert!(slot.is_parked());
    let desk = slot.dispatch().expect("parked session");
    assert!(!slot.is_parked());
    assert!(slot.dispatch().is_none());
    assert!(slot.session().is_none());

    let (out, desk) = run_op(desk, DeskOp::ListColleges("GEC".to_string()));
    assert!(slot.dispatch().is_none());
    slot.complete(desk);
    assert!(slot.is_parked());
    match out {
        DeskOutcome::Colleges(cs) => assert_eq!(cs.len(), 2),
        _ => panic!("listing answers with colleges"),
    }
    assert!(slot.session().is_some());
    assert!(slot.dispatch().is_some());
}

#[test]
fn operations_run_in_turn_through_the_slot() {
    let mut slot = SessionSlot::new(logged_in());
    let college = slot
        .session()
        .expect("parked")
        .college_get_filtered("NIT")
        .pop()
        .expect("seeded");
    let info = ParticipantInfo {
        name: "Test".to_string(),
        gender: Gender::Male,
        email: "test@gmail.com".to_string(),
        phone: "9876567891".to_string(),
        category: ParticipantCategory::Ragam,
    };

    let desk = slot.dispatch().unwrap();
    let (out, desk) = run_op(desk, DeskOp::NewParticipant(info, college));
    slot.complete(desk);
    let created = match out {
        DeskOutcome::Saved(p) => p,
        _ => panic!("creation answers with the record"),
    };
    assert_eq!(created.id(), 1001);
    let token = created.not_verified().unwrap();

    let desk = slot.dispatch().unwrap();
    let (out, desk) = run_op(desk, DeskOp::VerifyRegistration(token));
    slot.complete(desk);
    match out {
        DeskOutcome::Saved(p) => {
            assert_eq!(p.id(), 1001);
            assert_eq!(p.reg_status.ok().unwrap().admin.name, "Admin");
        }
        _ => panic!("verification answers with the record"),
    }

    let desk = slot.dispatch().unwrap();
    let (out, desk) = run_op(desk, DeskOp::GetParticipant(1001));
    slot.complete(desk);
    match out {
        DeskOutcome::Found(Some(p)) => assert!(p.not_verified().is_none()),
        _ => panic!("the record is there"),
    }

    let desk = slot.dispatch().unwrap();
    let (out, desk) = run_op(desk, DeskOp::GetParticipant(4242));
    slot.complete(desk);
    assert!(matches!(out, DeskOutcome::Found(None)));
}

#[test]
fn hospitality_and_college_operations_through_run_op() {
    let desk = logged_in();
    let (out, desk) = run_op(desk, DeskOp::AddCollege("GEC Kannur".to_string()));
    let added = match out {
        DeskOutcome::CollegeAdded(c) => c,
        _ => panic!("adding answers with the college"),
    };
    assert_eq!(added.id(), 1007);
    let (out, desk) = run_op(desk, DeskOp::ListColleges("GEC".to_string()));
    match out {
        DeskOutcome::Colleges(cs) => {
            let ids: Vec<i32> = cs.iter().map(|c| c.id()).collect();
            assert_eq!(ids, vec![1002, 1003, 1007]);
        }
        _ => panic!("listing answers with colleges"),
    }
    let info = ParticipantInfo {
        name: "Guest".to_string(),
        gender: Gender::Other,
        email: "g@x.org".to_string(),
        phone: "7".to_string(),
        category: ParticipantCategory::Kalotsavam,
    };
    let (out, desk) = run_op(desk, DeskOp::NewParticipantVerified(info, added));
    let p = match out {
        DeskOutcome::Saved(p) => p,
        _ => panic!("creation answers with the record"),
    };
    let (out, desk) = run_op(
        desk,
        DeskOp::UpdateHospitality(p.clone(), "H1".to_string(), "101".to_string()),
    );
    assert!(matches!(out, DeskOutcome::Saved(_)));
    let (out, desk) = run_op(
        desk,
        DeskOp::UpdateHospitality(p.clone(), "H2".to_string(), "202".to_string()),
    );
    match out {
        DeskOutcome::Saved(r) => {
            let h = r.hospitality.unwrap();
            assert_eq!((h.hostel.as_str(), h.room.as_str()), ("H2", "202"));
        }
        _ => panic!("hospitality answers with the record"),
    }
    let mut changed = p.clone();
    changed.info.name = "Renamed".to_string();
    let (out, desk) = run_op(desk, DeskOp::UpdateParticipant(changed));
    assert!(matches!(out, DeskOutcome::Updated(ref r) if r.info.name == "Renamed"));
    let stored = desk.participant_get(p.id()).unwrap();
    assert_eq!(stored.info.name, "Renamed");
    assert!(stored.reg_status.is_ok());
    assert_eq!(stored.hospitality.unwrap().hostel, "H2");
}
