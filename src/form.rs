//! What the registration form sends to the desk when the operator saves it.
use vstd::prelude::*;

use crate::dispatch::DeskOp;
use crate::model::{College, Gender, InfoView, Participant, ParticipantCategory, ParticipantInfo, ParticipantView};

verus! {

/// What the form is being used for.
#[derive(Clone, Copy, PartialEq, Eq, Structural)]
pub enum Mode {
    CreateRagam,
    CreateKalotsavam,
    Update,
}

/// The gender picked on the form's radio buttons; `Other` when neither of the first two is on.
pub open spec fn chosen_gender(male: bool, female: bool) -> Gender {
    if male {
        Gender::Male
    } else if female {
        Gender::Female
    } else {
        Gender::Other
    }
}

/// The category a form in `mode` registers for: Ragam only from the Ragam form.
pub open spec fn mode_category(mode: Mode) -> ParticipantCategory {
    match mode {
        Mode::CreateRagam => ParticipantCategory::Ragam,
        _ => ParticipantCategory::Kalotsavam,
    }
}

/// The details the form's fields describe.
pub fn participant_info_from_fields(
    name: String,
    email: String,
    phone: String,
    male: bool,
    female: bool,
    mode: Mode,
) -> (r: ParticipantInfo)
    ensures
        r@ == (InfoView {
            name: name@,
            gender: chosen_gender(male, female),
            email: email@,
            phone: phone@,
            category: mode_category(mode),
        }),
{
    let gender = if male {
        Gender::Male
    } else if female {
        Gender::Female
    } else {
        Gender::Other
    };
    let category = match mode {
        Mode::CreateRagam => ParticipantCategory::Ragam,
        _ => ParticipantCategory::Kalotsavam,
    };
    ParticipantInfo { name, gender, email, phone, category }
}

/// The desk operation that saves the form: a new self-registered participant
/// when creating, the shown participant with the form's details when updating.
pub fn save_op(mode: Mode, info: ParticipantInfo, college: College, shown: Option<Participant>) -> (r: DeskOp)
    requires
        mode == Mode::Update ==> shown is Some,
    ensures
        mode != Mode::Update ==> r == DeskOp::NewParticipantVerified(info, college),
        mode == Mode::Update ==> (r matches DeskOp::UpdateParticipant(p) && p@ == (ParticipantView {
            info: info@,
            college: college@,
            ..shown->0@
        })),
{
    match mode {
        Mode::Update => {
            let mut p = shown.unwrap();
            p.set_details(info, college);
            DeskOp::UpdateParticipant(p)
        },
        _ => DeskOp::NewParticipantVerified(info, college),
    }
}

} // verus!
