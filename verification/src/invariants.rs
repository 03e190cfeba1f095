//! Proofs that every repository operation takes a well-formed state to a
//! well-formed state, and the lookups by identity that they rest on.

use crate::model::{CardView, CreateCardView, CreatePersonView, CreatePunchView, PunchView};
use crate::seq_facts::{
    lemma_filter_distinct, lemma_filter_keeps, lemma_filter_nothing, lemma_filter_origin,
    lemma_filter_twice,
};
use crate::tables::{card_is_not, punch_is_off, punch_is_on, Tables};
use vstd::prelude::*;

verus! {

/// The card at position `k` is the card that its identity names.
pub proof fn lemma_card_at(t: Tables, k: int)
    requires
        t.keyed(),
        0 <= k < t.cards.len(),
    ensures
        t.has_card(t.cards[k].id),
        t.card_index(t.cards[k].id) == k,
        t.card(t.cards[k].id) == t.cards[k],
{
    let i = t.card_index(t.cards[k].id);
    assert(0 <= i < t.cards.len() && t.cards[i].id == t.cards[k].id);
}

/// The person at position `k` is the person that their identity names.
pub proof fn lemma_person_at(t: Tables, k: int)
    requires
        t.keyed(),
        0 <= k < t.people.len(),
    ensures
        t.has_person(t.people[k].id),
        t.person_index(t.people[k].id) == k,
        t.person(t.people[k].id) == t.people[k],
{
    let i = t.person_index(t.people[k].id);
    assert(0 <= i < t.people.len() && t.people[i].id == t.people[k].id);
}

/// No punch refers to a card that does not exist.
pub proof fn lemma_absent_card_has_no_punch(t: Tables, id: int)
    requires
        t.linked(),
        !t.has_card(id),
    ensures
        t.punches.filter(punch_is_on(id)) == Seq::<PunchView>::empty(),
        t.punch_count(id) == 0,
        t.card_punches(id) == Seq::<crate::model::CardPunchView>::empty(),
{
    assert forall|k: int| 0 <= k < t.punches.len() implies !punch_is_on(id)(
        #[trigger] t.punches[k],
    ) by {
        assert(t.has_card(t.punches[k].card_id));
    }
    lemma_filter_nothing(t.punches, punch_is_on(id));
    assert forall|k: int| 0 <= k < t.punches.len() implies !t.punch_is_shown(id)(
        #[trigger] t.punches[k],
    ) by {
        assert(!punch_is_on(id)(t.punches[k]));
    }
    lemma_filter_nothing(t.punches, t.punch_is_shown(id));
}

/// Creating a card keeps the store well formed.
pub proof fn lemma_create_card_keeps_well_formed(t: Tables, req: CreateCardView)
    requires
        t.well_formed(),
    ensures
        t.after_create_card(req).well_formed(),
{
    if t.cards_issued < i32::MAX {
        let t2 = t.with_card(req);
        let new = t.card_to_issue(req);
        assert forall|i: int| 0 <= i < t2.cards.len() implies 1 <= (#[trigger] t2.cards[i]).id
            <= t2.cards_issued by {
            if i < t.cards.len() {
                assert(t2.cards[i] == t.cards[i]);
            }
        }
        assert forall|i: int, j: int| 0 <= i < j < t2.cards.len() implies (#[trigger] t2.cards[i]).id
            != (#[trigger] t2.cards[j]).id by {
            assert(t2.cards[i] == t.cards[i]);
            if j < t.cards.len() {
                assert(t2.cards[j] == t.cards[j]);
            }
        }
        assert forall|k: int| 0 <= k < t2.punches.len() implies t2.has_person(
            (#[trigger] t2.punches[k]).puncher_id,
        ) by {
            assert(t.has_person(t.punches[k].puncher_id));
        }
        assert(t2.keyed());
        assert forall|k: int| 0 <= k < t2.punches.len() implies t2.has_card(
            (#[trigger] t2.punches[k]).card_id,
        ) by {
            assert(t.has_card(t.punches[k].card_id));
            let i = t.card_index(t.punches[k].card_id);
            assert(t2.cards[i] == t.cards[i]);
        }
        assert(!t.has_card(new.id)) by {
            if t.has_card(new.id) {
                let i = t.card_index(new.id);
                assert(t.cards[i].id <= t.cards_issued);
            }
        }
        lemma_absent_card_has_no_punch(t, new.id);
        assert forall|i: int| 0 <= i < t2.cards.len() implies ({
            let c = #[trigger] t2.cards[i];
            t2.punch_count(c.id) == 0 || t2.punch_count(c.id) <= c.capacity
        }) by {
            if i < t.cards.len() {
                assert(t2.cards[i] == t.cards[i]);
            }
        }
    }
}

/// Creating a person keeps the store well formed.
pub proof fn lemma_create_person_keeps_well_formed(t: Tables, req: CreatePersonView)
    requires
        t.well_formed(),
    ensures
        t.after_create_person(req).well_formed(),
{
    if t.people_issued < i32::MAX {
        let t2 = t.with_person(req);
        assert forall|i: int| 0 <= i < t2.people.len() implies 1 <= (#[trigger] t2.people[i]).id
            <= t2.people_issued by {
            if i < t.people.len() {
                assert(t2.people[i] == t.people[i]);
            }
        }
        assert forall|i: int, j: int| 0 <= i < j < t2.people.len() implies (
        #[trigger] t2.people[i]).id != (#[trigger] t2.people[j]).id by {
            assert(t2.people[i] == t.people[i]);
            if j < t.people.len() {
                assert(t2.people[j] == t.people[j]);
            }
        }
        assert forall|k: int| 0 <= k < t2.punches.len() implies t2.has_person(
            (#[trigger] t2.punches[k]).puncher_id,
        ) by {
            assert(t.has_person(t.punches[k].puncher_id));
            let i = t.person_index(t.punches[k].puncher_id);
            assert(t2.people[i] == t.people[i]);
        }
        assert(t2.keyed());
        assert forall|k: int| 0 <= k < t2.punches.len() implies t2.has_card(
            (#[trigger] t2.punches[k]).card_id,
        ) by {
            assert(t.has_card(t.punches[k].card_id));
        }
        assert forall|i: int| 0 <= i < t2.cards.len() implies ({
            let c = #[trigger] t2.cards[i];
            t2.punch_count(c.id) == 0 || t2.punch_count(c.id) <= c.capacity
        }) by {
            assert(t2.cards[i] == t.cards[i]);
        }
    }
}

/// How a new punch changes the count of each card: one more on its own
/// card, nothing elsewhere.
pub proof fn lemma_with_punch_counts(t: Tables, req: CreatePunchView, card_id: int)
    ensures
        t.with_punch(req).punch_count(card_id) == t.punch_count(card_id) + if card_id
            == req.card_id {
            1int
        } else {
            0int
        },
{
    t.punches.lemma_filter_push(t.punch_to_issue(req), punch_is_on(card_id));
}

/// A punch row that the store takes leaves the rows keyed.
pub proof fn lemma_with_punch_keeps_keyed(t: Tables, req: CreatePunchView)
    requires
        t.keyed(),
        t.takes_punch(req),
    ensures
        t.with_punch(req).keyed(),
{
    let t2 = t.with_punch(req);
    assert forall|i: int| 0 <= i < t2.punches.len() implies 1 <= (#[trigger] t2.punches[i]).id
        <= t2.punches_issued by {
        if i < t.punches.len() {
            assert(t2.punches[i] == t.punches[i]);
        }
    }
    assert forall|i: int, j: int| 0 <= i < j < t2.punches.len() implies (
    #[trigger] t2.punches[i]).id != (#[trigger] t2.punches[j]).id by {
        assert(t2.punches[i] == t.punches[i]);
        if j < t.punches.len() {
            assert(t2.punches[j] == t.punches[j]);
        }
    }
    assert forall|k: int| 0 <= k < t2.punches.len() implies t2.has_person(
        (#[trigger] t2.punches[k]).puncher_id,
    ) by {
        if k < t.punches.len() {
            assert(t2.punches[k] == t.punches[k]);
            assert(t.has_person(t.punches[k].puncher_id));
        } else {
            assert(t.has_person(req.puncher_id));
        }
    }
}

/// A request to punch, granted or refused, keeps the store well formed.
pub proof fn lemma_create_punch_keeps_well_formed(t: Tables, req: CreatePunchView)
    requires
        t.well_formed(),
    ensures
        t.after_create_punch(req).well_formed(),
{
    if t.create_punch_result(req) is Ok {
        let t2 = t.with_punch(req);
        lemma_with_punch_keeps_keyed(t, req);
        assert forall|k: int| 0 <= k < t2.punches.len() implies t2.has_card(
            (#[trigger] t2.punches[k]).card_id,
        ) by {
            if k < t.punches.len() {
                assert(t2.punches[k] == t.punches[k]);
                assert(t.has_card(t.punches[k].card_id));
            } else {
                assert(t.has_card(req.card_id));
            }
        }
        assert forall|i: int| 0 <= i < t2.cards.len() implies ({
            let c = #[trigger] t2.cards[i];
            t2.punch_count(c.id) == 0 || t2.punch_count(c.id) <= c.capacity
        }) by {
            let c = t.cards[i];
            lemma_with_punch_counts(t, req, c.id);
            lemma_card_at(t, i);
        }
    }
}

/// What deleting a card leaves of the other cards: each is still there,
/// unchanged, with the punches it had.
pub proof fn lemma_without_card_keeps_others(t: Tables, id: int, other: int)
    requires
        t.keyed(),
        other != id,
    ensures
        t.without_card(id).has_card(other) == t.has_card(other),
        t.has_card(other) ==> t.without_card(id).card(other) == t.card(other),
        t.without_card(id).punch_count(other) == t.punch_count(other),
        t.without_card(id).people == t.people,
{
    let t2 = t.without_card(id);
    lemma_filter_twice(t.punches, punch_is_off(id), punch_is_on(other));
    lemma_filter_distinct(t.cards, card_is_not(id), |c: CardView| c.id);
    if t.has_card(other) {
        let i = t.card_index(other);
        let j = lemma_filter_keeps(t.cards, card_is_not(id), i);
        assert(t2.cards[j].id == other);
        let j2 = t2.card_index(other);
        assert(0 <= j2 < t2.cards.len() && t2.cards[j2].id == other);
        if j2 < j {
        } else if j < j2 {
        }
    }
    if t2.has_card(other) {
        let j = t2.card_index(other);
        let i = lemma_filter_origin(t.cards, card_is_not(id), j);
        assert(t.cards[i].id == other);
    }
}

/// What deleting a card removes: the card and every punch on it.
pub proof fn lemma_without_card_removes(t: Tables, id: int)
    ensures
        !t.without_card(id).has_card(id),
        t.without_card(id).punch_count(id) == 0,
        forall|k: int|
            0 <= k < t.without_card(id).punches.len() ==> (#[trigger] t.without_card(
                id,
            ).punches[k]).card_id != id,
{
    let t2 = t.without_card(id);
    if t2.has_card(id) {
        let j = t2.card_index(id);
        let i = lemma_filter_origin(t.cards, card_is_not(id), j);
    }
    assert forall|k: int| 0 <= k < t2.punches.len() implies (#[trigger] t2.punches[k]).card_id
        != id by {
        let i = lemma_filter_origin(t.punches, punch_is_off(id), k);
    }
    lemma_filter_nothing(t2.punches, punch_is_on(id));
}

/// Deleting card rows leaves the rows keyed.
pub proof fn lemma_without_card_row_keeps_keyed(t: Tables, id: int)
    requires
        t.keyed(),
    ensures
        t.without_card_row(id).keyed(),
{
    let t2 = t.without_card_row(id);
    t.cards.lemma_filter_len(card_is_not(id));
    assert forall|j: int| 0 <= j < t2.cards.len() implies 1 <= (#[trigger] t2.cards[j]).id
        <= t2.cards_issued by {
        let i = lemma_filter_origin(t.cards, card_is_not(id), j);
    }
    lemma_filter_distinct(t.cards, card_is_not(id), |c: CardView| c.id);
    assert forall|k: int| 0 <= k < t2.punches.len() implies t2.has_person(
        (#[trigger] t2.punches[k]).puncher_id,
    ) by {
        assert(t.has_person(t.punches[k].puncher_id));
    }
}

/// Deleting punch rows leaves the rows keyed.
pub proof fn lemma_without_punches_keeps_keyed(t: Tables, card_id: int)
    requires
        t.keyed(),
    ensures
        t.without_punches_on(card_id).keyed(),
{
    let t2 = t.without_punches_on(card_id);
    t.punches.lemma_filter_len(punch_is_off(card_id));
    assert forall|j: int| 0 <= j < t2.punches.len() implies 1 <= (#[trigger] t2.punches[j]).id
        <= t2.punches_issued by {
        let i = lemma_filter_origin(t.punches, punch_is_off(card_id), j);
    }
    lemma_filter_distinct(t.punches, punch_is_off(card_id), |p: PunchView| p.id);
    assert forall|k: int| 0 <= k < t2.punches.len() implies t2.has_person(
        (#[trigger] t2.punches[k]).puncher_id,
    ) by {
        let i = lemma_filter_origin(t.punches, punch_is_off(card_id), k);
        assert(t.has_person(t.punches[i].puncher_id));
    }
}

/// Deleting a card, present or not, keeps the store well formed.
pub proof fn lemma_delete_card_keeps_well_formed(t: Tables, id: int)
    requires
        t.well_formed(),
    ensures
        t.after_delete_card(id).well_formed(),
{
    if t.has_card(id) {
        let t2 = t.without_card(id);
        lemma_without_card_row_keeps_keyed(t, id);
        lemma_without_punches_keeps_keyed(t.without_card_row(id), id);
        assert forall|k: int| 0 <= k < t2.punches.len() implies t2.has_card(
            (#[trigger] t2.punches[k]).card_id,
        ) by {
            let i = lemma_filter_origin(t.punches, punch_is_off(id), k);
            assert(t.has_card(t.punches[i].card_id));
            lemma_without_card_keeps_others(t, id, t.punches[i].card_id);
        }
        assert forall|j: int| 0 <= j < t2.cards.len() implies ({
            let c = #[trigger] t2.cards[j];
            t2.punch_count(c.id) == 0 || t2.punch_count(c.id) <= c.capacity
        }) by {
            let i = lemma_filter_origin(t.cards, card_is_not(id), j);
            lemma_without_card_keeps_others(t, id, t.cards[i].id);
        }
    }
}

} // verus!
