//! What holds of the repository as a whole, proved once for every state and
//! every request.

use crate::invariants::{
    lemma_absent_card_has_no_punch, lemma_card_at, lemma_create_punch_keeps_well_formed,
    lemma_without_card_keeps_others, lemma_without_card_removes,
};
use crate::model::{
    CardPunchView, CreateCardView, CreatePersonView, CreatePunchView, FullCardView, PersonView,
    RepoError,
};
use crate::seq_facts::lemma_filter_nothing;
use crate::tables::Tables;
use vstd::prelude::*;

verus! {

/// A new store is well formed, and lists no card and no person.
pub proof fn law_empty_store()
    ensures
        Tables::empty().well_formed(),
        Tables::empty().full_cards() == Seq::<FullCardView>::empty(),
        Tables::empty().people == Seq::<PersonView>::empty(),
{
    let t = Tables::empty();
    assert(t.full_cards() =~= Seq::<FullCardView>::empty());
}

/// After a request to punch, granted or refused, no card holds more punches
/// than its capacity. This is said of every card whose capacity is not below
/// zero; a card with a capacity below zero holds no punch at all.
pub proof fn law_punch_stays_within_capacity(t: Tables, req: CreatePunchView, card_id: int)
    requires
        t.well_formed(),
        t.after_create_punch(req).has_card(card_id),
    ensures
        t.after_create_punch(req).card(card_id).capacity >= 0 ==> t.after_create_punch(
            req,
        ).punch_count(card_id) <= t.after_create_punch(req).card(card_id).capacity,
        t.after_create_punch(req).card(card_id).capacity < 0 ==> t.after_create_punch(
            req,
        ).punch_count(card_id) == 0,
{
    let t2 = t.after_create_punch(req);
    lemma_create_punch_keeps_well_formed(t, req);
    let i = t2.card_index(card_id);
    assert(t2.cards[i].id == card_id);
}

/// A granted punch is on its card: the card holds one punch more than
/// before, every other card as many as before, and the new punch is the
/// last row.
pub proof fn law_granted_punch_is_stored(t: Tables, req: CreatePunchView, card_id: int)
    requires
        t.create_punch_result(req) is Ok,
    ensures
        t.after_create_punch(req).punches == t.punches.push(t.punch_to_issue(req)),
        t.after_create_punch(req).punch_count(card_id) == t.punch_count(card_id) + if card_id
            == req.card_id {
            1int
        } else {
            0int
        },
{
    crate::invariants::lemma_with_punch_counts(t, req, card_id);
}

/// A card that was just created is the last card listed, with the title and
/// the capacity of the request and no punch; the cards listed before it are
/// listed as before.
pub proof fn law_created_card_is_listed_empty(t: Tables, req: CreateCardView)
    requires
        t.well_formed(),
        t.create_card_result(req) is Ok,
    ensures
        t.after_create_card(req).full_cards().len() == t.full_cards().len() + 1,
        t.after_create_card(req).full_cards().last() == (FullCardView {
            id: t.cards_issued + 1,
            title: req.title,
            capacity: req.capacity,
            punches: Seq::<CardPunchView>::empty(),
        }),
        t.after_create_card(req).full_cards().drop_last() == t.full_cards(),
{
    let t2 = t.after_create_card(req);
    let new = t.card_to_issue(req);
    assert(!t.has_card(new.id)) by {
        if t.has_card(new.id) {
            let i = t.card_index(new.id);
            assert(t.cards[i].id <= t.cards_issued);
        }
    }
    lemma_absent_card_has_no_punch(t, new.id);
    assert forall|id: int| t2.card_punches(id) == t.card_punches(id) by {
        assert(t2.punch_is_shown(id) =~= t.punch_is_shown(id));
        assert(t2.shown() =~= t.shown());
    }
    assert(t2.full_cards().last() == t2.full_card()(new));
    assert(t2.full_cards().drop_last() =~= t.full_cards());
}

/// A request to punch a card that holds as many punches as its capacity
/// allows, or more, is refused with `CapacityExceeded`, and the store stays
/// as it was: no row is inserted and no count changes.
pub proof fn law_full_card_refuses_punch(t: Tables, req: CreatePunchView)
    requires
        t.has_card(req.card_id),
        t.punch_count(req.card_id) >= t.card(req.card_id).capacity,
    ensures
        t.create_punch_result(req) == Err::<crate::model::PunchView, RepoError>(
            RepoError::CapacityExceeded,
        ),
        t.after_create_punch(req) == t,
{
}

/// A request to punch a card that does not exist is refused with
/// `NotFound`, and the store stays as it was.
pub proof fn law_unknown_card_refuses_punch(t: Tables, req: CreatePunchView)
    requires
        !t.has_card(req.card_id),
    ensures
        t.create_punch_result(req) == Err::<crate::model::PunchView, RepoError>(
            RepoError::NotFound,
        ),
        t.after_create_punch(req) == t,
{
}

/// A request to punch is granted exactly when the card exists, holds fewer
/// punches than its capacity, the puncher exists and the punch sequence has
/// an identity left.
pub proof fn law_punch_granted_iff(t: Tables, req: CreatePunchView)
    ensures
        t.create_punch_result(req) is Ok <==> t.has_card(req.card_id) && t.punch_count(
            req.card_id,
        ) < t.card(req.card_id).capacity && t.has_person(req.puncher_id) && t.punches_issued
            < i32::MAX,
{
}

/// Deleting a card that exists succeeds and removes the card and every
/// punch on it.
pub proof fn law_deleted_card_is_gone(t: Tables, id: int)
    requires
        t.has_card(id),
    ensures
        t.delete_card_result(id) == Ok::<(), RepoError>(()),
        !t.after_delete_card(id).has_card(id),
        t.after_delete_card(id).punch_count(id) == 0,
        t.after_delete_card(id).card_punches(id) == Seq::<CardPunchView>::empty(),
        forall|k: int|
            0 <= k < t.after_delete_card(id).punches.len() ==> (#[trigger] t.after_delete_card(
                id,
            ).punches[k]).card_id != id,
{
    let t2 = t.after_delete_card(id);
    lemma_without_card_removes(t, id);
    assert forall|k: int| 0 <= k < t2.punches.len() implies !t2.punch_is_shown(id)(
        #[trigger] t2.punches[k],
    ) by {}
    lemma_filter_nothing(t2.punches, t2.punch_is_shown(id));
}

/// Deleting a card leaves every other card as it was, with the punches it
/// had, and leaves the people as they were.
pub proof fn law_delete_spares_other_cards(t: Tables, id: int, other: int)
    requires
        t.well_formed(),
        other != id,
    ensures
        t.after_delete_card(id).has_card(other) == t.has_card(other),
        t.has_card(other) ==> t.after_delete_card(id).card(other) == t.card(other),
        t.after_delete_card(id).punch_count(other) == t.punch_count(other),
        t.after_delete_card(id).people == t.people,
{
    if t.has_card(id) {
        lemma_without_card_keeps_others(t, id, other);
    }
}

/// Deleting a card that does not exist is refused with `NotFound`, and the
/// store stays as it was.
pub proof fn law_delete_unknown_card(t: Tables, id: int)
    requires
        !t.has_card(id),
    ensures
        t.delete_card_result(id) == Err::<(), RepoError>(RepoError::NotFound),
        t.after_delete_card(id) == t,
{
}

/// A person who was just created is the last person listed, exactly as
/// requested: an e-mail address or phone number that was not given is
/// absent, one that was given is present, be it empty. The people listed
/// before are listed as before.
pub proof fn law_created_person_is_listed(t: Tables, req: CreatePersonView)
    requires
        t.create_person_result(req) is Ok,
    ensures
        t.after_create_person(req).people.len() == t.people.len() + 1,
        t.after_create_person(req).people.last() == (PersonView {
            id: t.people_issued + 1,
            name: req.name,
            email: req.email,
            phone_number: req.phone_number,
        }),
        t.after_create_person(req).people.drop_last() == t.people,
        req.email is None ==> t.after_create_person(req).people.last().email is None,
        req.phone_number is None ==> t.after_create_person(req).people.last().phone_number
            is None,
{
    assert(t.after_create_person(req).people.drop_last() =~= t.people);
}

/// The card that a lookup by identity yields is the one row with that
/// identity.
pub proof fn law_identity_names_one_card(t: Tables, i: int, j: int)
    requires
        t.well_formed(),
        0 <= i < t.cards.len(),
        0 <= j < t.cards.len(),
        t.cards[i].id == t.cards[j].id,
    ensures
        i == j,
        t.card(t.cards[i].id) == t.cards[i],
{
    lemma_card_at(t, i);
    lemma_card_at(t, j);
}

} // verus!
