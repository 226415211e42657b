//! Properties that hold across several desk operations.
use vstd::prelude::*;

use crate::desk::{can_verify, records_consistent, hospitality_step, lookup, new_participant_step, verify_step, DeskState};
use crate::dispatch::{after_complete, after_dispatch, op_allowed_in, op_step, DeskOp, DeskOutcome};
use crate::model::{CollegeView, HospView, InfoView, ParticipantView, RegView};

verus! {

/// Over any run of participant creations on one session, the returned ids are
/// pairwise distinct, and the store at the end still holds every returned
/// record exactly as it was returned.
pub proof fn lemma_new_participant_ids_distinct(
    states: Seq<DeskState>,
    infos: Seq<InfoView>,
    colleges: Seq<CollegeView>,
    results: Seq<ParticipantView>,
)
    requires
        states.len() == results.len() + 1,
        infos.len() == results.len(),
        colleges.len() == results.len(),
        forall|i: int|
            0 <= i < results.len() ==> new_participant_step(
                #[trigger] states[i],
                infos[i],
                colleges[i],
                states[i + 1],
                results[i],
            ),
    ensures
        forall|i: int, j: int| 0 <= i < j < results.len() ==> #[trigger] results[i].id != #[trigger] results[j].id,
        forall|i: int| 0 <= i < results.len() ==> lookup(states.last(), #[trigger] results[i].id) == Some(results[i]),
    decreases results.len(),
{
    let n = results.len() as int;
    if n > 0 {
        let k = n - 1;
        let states0 = states.take(n);
        let results0 = results.take(k);
        assert forall|i: int| 0 <= i < results0.len() implies new_participant_step(
            #[trigger] states0[i],
            infos.take(k)[i],
            colleges.take(k)[i],
            states0[i + 1],
            results0[i],
        ) by {
            assert(new_participant_step(states[i], infos[i], colleges[i], states[i + 1], results[i]));
        }
        lemma_new_participant_ids_distinct(states0, infos.take(k), colleges.take(k), results0);
        assert(states0.last() == states[k]);
        assert(new_participant_step(states[k], infos[k], colleges[k], states[k + 1], results[k]));
        assert forall|i: int| 0 <= i < k implies lookup(states[k], #[trigger] results[i].id) == Some(results[i]) by {
            assert(results0[i] == results[i]);
        }
        assert forall|i: int, j: int| 0 <= i < j < n implies #[trigger] results[i].id != #[trigger] results[j].id by {
            if j < k {
                assert(results0[i] == results[i]);
                assert(results0[j] == results[j]);
            } else {
                assert(lookup(states[k], results[i].id) == Some(results[i]));
            }
        }
        assert forall|i: int| 0 <= i < n implies lookup(states.last(), #[trigger] results[i].id) == Some(results[i]) by {
            if i < k {
                assert(lookup(states[k], results[i].id) == Some(results[i]));
            }
        }
    }
}

/// A record just created and then looked up holds the details and the college
/// it was created with, and is not verified.
pub proof fn lemma_new_then_get(
    pre: DeskState,
    info: InfoView,
    college: CollegeView,
    post: DeskState,
    r: ParticipantView,
)
    requires
        new_participant_step(pre, info, college, post, r),
    ensures
        lookup(post, r.id) == Some(r),
        r.info == info,
        r.college == college,
        r.reg == (RegView::NotVerified { id: r.id }),
{
}

/// Setting the hospitality of a record twice leaves exactly what setting the
/// second assignment once would have left: the last assignment wins whole.
pub proof fn lemma_hospitality_last_writer_wins(
    s0: DeskState,
    id: int,
    hostel1: Seq<char>,
    room1: Seq<char>,
    s1: DeskState,
    r1: ParticipantView,
    hostel2: Seq<char>,
    room2: Seq<char>,
    s2: DeskState,
    r2: ParticipantView,
)
    requires
        s0.participants.contains_key(id),
        hospitality_step(s0, id, hostel1, room1, s1, r1),
        hospitality_step(s1, id, hostel2, room2, s2, r2),
    ensures
        hospitality_step(s0, id, hostel2, room2, s2, r2),
        r2.hospitality == Some(HospView { admin: s0.admin, hostel: hostel2, room: room2 }),
{
    assert(s2.participants =~= s0.participants.insert(
        id,
        ParticipantView {
            hospitality: Some(HospView { admin: s0.admin, hostel: hostel2, room: room2 }),
            ..s0.participants[id]
        },
    ));
}

/// After a verification the record can not be verified again: it holds no
/// unverified state any more, so no fresh token can come from it.
pub proof fn lemma_verification_happens_once(pre: DeskState, id: int, post: DeskState, r: ParticipantView)
    requires
        can_verify(pre, id),
        verify_step(pre, id, post, r),
    ensures
        !can_verify(post, id),
        r.reg == (RegView::Verified { admin: pre.admin }),
{
}

/// No operation that the store allows turns a verified record back, or changes
/// who verified it.
pub proof fn lemma_verified_stays_verified(pre: DeskState, op: DeskOp, post: DeskState, out: DeskOutcome, id: int)
    requires
        op_allowed_in(pre, op),
        op_step(pre, op, post, out),
        pre.participants.contains_key(id),
        pre.participants[id].reg is Verified,
    ensures
        post.participants.contains_key(id),
        post.participants[id].reg == pre.participants[id].reg,
{
}

/// Every operation the store allows keeps each record under its own id, with
/// any token of an unverified record naming that same id.
pub proof fn lemma_records_stay_consistent(pre: DeskState, op: DeskOp, post: DeskState, out: DeskOutcome)
    requires
        records_consistent(pre),
        op_allowed_in(pre, op),
        op_step(pre, op, post, out),
    ensures
        records_consistent(post),
{
}

/// While one operation is out the slot is empty, so a second dispatch gets
/// nothing; handing the session back parks it again.
pub proof fn lemma_single_flight<D>(slot: Option<D>, returned: D)
    requires
        slot is Some,
    ensures
        after_dispatch(slot).1 == slot,
        after_dispatch(slot).0 is None,
        after_dispatch(after_dispatch(slot).0).1 is None,
        after_dispatch(after_dispatch(slot).0).0 is None,
        after_complete(returned) == Some(returned),
{
}

} // verus!
