//! The repository: the operations on cards, people and punches, each one a
//! unit of work against the store.
//!
//! Every operation takes a well-formed store to a well-formed store and its
//! contract names the outcome and the next state exactly, in terms of
//! [`Tables`](crate::tables::Tables).

use crate::flow::{DeleteFlow, DeleteStep, PunchFlow, PunchStep, Statement};
use crate::invariants::{
    lemma_create_card_keeps_well_formed, lemma_create_person_keeps_well_formed,
    lemma_create_punch_keeps_well_formed, lemma_delete_card_keeps_well_formed,
};
use crate::model::{
    card_punch_views, Card, CardPunch, CreateCard, CreatePerson, CreatePunch, CreatePunchView,
    FullCard, Person, Punch, RepoError,
};
use crate::rules::{found_or_missing, full_card_views, has_free_slot, stored_or_failed};
use crate::seq_facts::lemma_filter_everything;
use crate::store::{card_views, person_views, Store};
use crate::tables::{card_is_not, Tables};
use vstd::prelude::*;

verus! {

/// The view of an outcome: the view of the value, or the error as it is.
pub open spec fn outcome_view<T: View>(outcome: Result<T, RepoError>) -> Result<T::V, RepoError> {
    match outcome {
        Ok(value) => Ok(value@),
        Err(e) => Err(e),
    }
}

/// What is known while a request to punch is under way: up to the last
/// statement the store is as it was at the start, each step has found what
/// the steps before it looked for, and a step that is done holds the outcome
/// of the whole operation.
pub open spec fn punch_progress(
    step: PunchStep,
    start: Tables,
    now: Tables,
    req: CreatePunchView,
) -> bool {
    match step {
        PunchStep::Ask {
            flow: PunchFlow::FindingCard { create },
            statement: Statement::FindCard { card_id },
        } => now == start && create@ == req && card_id == req.card_id,
        PunchStep::Ask {
            flow: PunchFlow::Counting { create, capacity },
            statement: Statement::CountPunches { card_id },
        } => now == start && create@ == req && card_id == req.card_id && start.has_card(req.card_id)
            && capacity == start.card(req.card_id).capacity,
        PunchStep::Ask { flow: PunchFlow::Inserting, statement: Statement::InsertPunch { row } } => now
            == start && row@ == req && start.has_card(req.card_id) && has_free_slot(
            start.card(req.card_id).capacity,
            start.punch_count(req.card_id) as int,
        ),
        PunchStep::Ask { .. } => false,
        PunchStep::Done(outcome) => outcome_view(outcome) == start.create_punch_result(req) && now
            == start.after_create_punch(req),
    }
}

/// What is known while the deletion of a card is under way.
pub open spec fn delete_progress(step: DeleteStep, start: Tables, now: Tables, id: int) -> bool {
    match step {
        DeleteStep::Ask {
            flow: DeleteFlow::DeletingCard { card_id },
            statement: Statement::DeleteCard { card_id: asked },
        } => now == start && card_id == id && asked == id,
        DeleteStep::Ask {
            flow: DeleteFlow::DeletingPunches,
            statement: Statement::DeletePunches { card_id },
        } => now == start.without_card_row(id) && card_id == id && start.has_card(id),
        DeleteStep::Ask { .. } => false,
        DeleteStep::Done(outcome) => outcome == start.delete_card_result(id) && now
            == start.after_delete_card(id),
    }
}

impl Card {
    /// Every card, oldest first.
    pub fn all_cards(store: &Store) -> (outcome: Result<Vec<Card>, RepoError>)
        ensures
            outcome matches Ok(cards) && card_views(cards@) == store@.cards,
    {
        Ok(store.select_cards())
    }

    /// The card with identity `id`; `NotFound` exactly when there is none.
    pub fn find_by_id(id: i32, store: &Store) -> (outcome: Result<Card, RepoError>)
        requires
            store.wf(),
        ensures
            match outcome {
                Ok(card) => store@.has_card(id as int) && card@ == store@.card(id as int),
                Err(e) => e == RepoError::NotFound && !store@.has_card(id as int),
            },
    {
        found_or_missing(store.find_card(id))
    }

    /// Creates a card under the next identity and returns it, title and
    /// capacity as they were given. The capacity is not judged: a card with
    /// a capacity of zero or less is created and can never be punched.
    pub fn create(create: CreateCard, store: &mut Store) -> (outcome: Result<Card, RepoError>)
        requires
            old(store).wf(),
        ensures
            final(store).wf(),
            outcome_view(outcome) == old(store)@.create_card_result(create@),
            final(store)@ == old(store)@.after_create_card(create@),
    {
        proof {
            lemma_create_card_keeps_well_formed(store@, create@);
        }
        stored_or_failed(store.insert_card(create))
    }

    /// Deletes the card with identity `id` and then every punch on it.
    /// `NotFound`, and no change, exactly when there is no such card.
    #[verifier::loop_isolation(false)]
    pub fn delete(id: i32, store: &mut Store) -> (outcome: Result<(), RepoError>)
        requires
            old(store).wf(),
        ensures
            final(store).wf(),
            outcome == old(store)@.delete_card_result(id as int),
            final(store)@ == old(store)@.after_delete_card(id as int),
    {
        let ghost start = store@;
        proof {
            lemma_delete_card_keeps_well_formed(start, id as int);
        }
        let mut step = DeleteFlow::begin(id);
        loop
            invariant
                start.after_delete_card(id as int).well_formed(),
                store@.keyed(),
                delete_progress(step, start, store@, id as int),
            decreases step.statements_left(),
        {
            match step {
                DeleteStep::Done(outcome) => {
                    return outcome;
                },
                DeleteStep::Ask { flow, statement } => {
                    let answer = store.execute(statement);
                    proof {
                        if !start.has_card(id as int) {
                            lemma_filter_everything(start.cards, card_is_not(id as int));
                        }
                    }
                    step = flow.step(answer);
                },
            }
        }
    }
}

impl Person {
    /// Every person, oldest first.
    pub fn all_persons(store: &Store) -> (outcome: Result<Vec<Person>, RepoError>)
        ensures
            outcome matches Ok(people) && person_views(people@) == store@.people,
    {
        Ok(store.select_people())
    }

    /// Creates a person under the next identity and returns the record.
    /// An e-mail address or a phone number that was not given stays absent.
    pub fn create(create: CreatePerson, store: &mut Store) -> (outcome: Result<Person, RepoError>)
        requires
            old(store).wf(),
        ensures
            final(store).wf(),
            outcome_view(outcome) == old(store)@.create_person_result(create@),
            final(store)@ == old(store)@.after_create_person(create@),
    {
        proof {
            lemma_create_person_keeps_well_formed(store@, create@);
        }
        stored_or_failed(store.insert_person(create))
    }
}

impl Punch {
    /// The number of punches on the card `card_id`.
    pub fn current_punch_count(card_id: i32, store: &Store) -> (outcome: Result<i64, RepoError>)
        requires
            store.wf(),
        ensures
            outcome matches Ok(count) && count == store@.punch_count(card_id as int),
    {
        Ok(store.count_punches(card_id))
    }

    /// Punches a card: looks the card up, counts its punches, and inserts
    /// the punch if a slot is free.
    ///
    /// `NotFound` when the card does not exist; `CapacityExceeded` when it
    /// holds as many punches as its capacity allows, or more;
    /// `StorageError` when the store does not take the row. Whenever the
    /// request is refused the store is left as it was.
    #[verifier::loop_isolation(false)]
    pub fn create(create: CreatePunch, store: &mut Store) -> (outcome: Result<Punch, RepoError>)
        requires
            old(store).wf(),
        ensures
            final(store).wf(),
            outcome_view(outcome) == old(store)@.create_punch_result(create@),
            final(store)@ == old(store)@.after_create_punch(create@),
    {
        let ghost start = store@;
        let ghost req = create@;
        proof {
            lemma_create_punch_keeps_well_formed(start, req);
        }
        let mut step = PunchFlow::begin(create);
        loop
            invariant
                start.after_create_punch(req).well_formed(),
                store@.keyed(),
                punch_progress(step, start, store@, req),
            decreases step.statements_left(),
        {
            match step {
                PunchStep::Done(outcome) => {
                    return outcome;
                },
                PunchStep::Ask { flow, statement } => {
                    let answer = store.execute(statement);
                    step = flow.step(answer);
                },
            }
        }
    }
}

impl CardPunch {
    /// The punches on the card `card_id`, oldest first, each with the
    /// record of its puncher.
    pub fn punches(card_id: i32, store: &Store) -> (outcome: Result<Vec<CardPunch>, RepoError>)
        requires
            store.wf(),
        ensures
            outcome matches Ok(punches) && card_punch_views(punches@) == store@.card_punches(
                card_id as int,
            ),
    {
        Ok(store.select_card_punches(card_id))
    }
}

impl FullCard {
    /// Every card, oldest first, each with its punches.
    pub fn all_cards(store: &Store) -> (outcome: Result<Vec<FullCard>, RepoError>)
        requires
            store.wf(),
        ensures
            outcome matches Ok(full) && full_card_views(full@) == store@.full_cards(),
    {
        let cards = match Card::all_cards(store) {
            Ok(cards) => cards,
            Err(e) => {
                return Err(e);
            },
        };
        let mut punches: Vec<Vec<CardPunch>> = Vec::new();
        let mut i: usize = 0;
        while i < cards.len()
            invariant
                i <= cards.len(),
                store.wf(),
                punches.len() == i,
                forall|j: int|
                    0 <= j < i ==> card_punch_views((#[trigger] punches@[j])@)
                        == store@.card_punches(cards@[j].id as int),
            decreases cards.len() - i,
        {
            match CardPunch::punches(cards[i].id, store) {
                Ok(of_card) => {
                    punches.push(of_card);
                },
                Err(e) => {
                    return Err(e);
                },
            }
            i += 1;
        }
        let full = FullCard::assemble(&cards, &punches);
        proof {
            assert forall|j: int| 0 <= j < cards.len() implies (#[trigger] store@.cards[j])
                == cards@[j]@ by {
                assert(card_views(cards@)[j] == cards@[j]@);
            }
            assert(full_card_views(full@) =~= store@.full_cards());
        }
        Ok(full)
    }
}

} // verus!
