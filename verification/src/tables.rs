//! The state of the store as mathematics: three tables of rows and the
//! sequences that hand out identities, with every repository operation as a
//! function from a state and a request to an outcome and the next state.

use crate::model::{
    CardPunchView, CardView, CreateCardView, CreatePersonView, CreatePunchView, FullCardView,
    PersonView, PunchView, RepoError,
};
use crate::rules::has_free_slot;
use vstd::prelude::*;

verus! {

/// The rows of the three tables in the order in which they were inserted,
/// and for each table the number of identities handed out so far. A
/// sequence starts at 1 and never hands out a number twice, so the next
/// identity of a table is its count plus one.
pub struct Tables {
    pub people: Seq<PersonView>,
    pub cards: Seq<CardView>,
    pub punches: Seq<PunchView>,
    pub people_issued: int,
    pub cards_issued: int,
    pub punches_issued: int,
}

/// The cards other than the one with identity `id`.
pub open spec fn card_is_not(id: int) -> spec_fn(CardView) -> bool {
    |c: CardView| c.id != id
}

/// The punches on the card with identity `card_id`.
pub open spec fn punch_is_on(card_id: int) -> spec_fn(PunchView) -> bool {
    |p: PunchView| p.card_id == card_id
}

/// The punches on cards other than the one with identity `card_id`.
pub open spec fn punch_is_off(card_id: int) -> spec_fn(PunchView) -> bool {
    |p: PunchView| p.card_id != card_id
}

impl Tables {
    /// The state of a new store: no rows, no identity handed out.
    pub open spec fn empty() -> Tables {
        Tables {
            people: Seq::empty(),
            cards: Seq::empty(),
            punches: Seq::empty(),
            people_issued: 0,
            cards_issued: 0,
            punches_issued: 0,
        }
    }

    pub open spec fn has_person(self, id: int) -> bool {
        exists|i: int| 0 <= i < self.people.len() && (#[trigger] self.people[i]).id == id
    }

    pub open spec fn person_index(self, id: int) -> int {
        choose|i: int| 0 <= i < self.people.len() && (#[trigger] self.people[i]).id == id
    }

    /// The person with identity `id`, where there is one.
    pub open spec fn person(self, id: int) -> PersonView {
        self.people[self.person_index(id)]
    }

    pub open spec fn has_card(self, id: int) -> bool {
        exists|i: int| 0 <= i < self.cards.len() && (#[trigger] self.cards[i]).id == id
    }

    pub open spec fn card_index(self, id: int) -> int {
        choose|i: int| 0 <= i < self.cards.len() && (#[trigger] self.cards[i]).id == id
    }

    /// The card with identity `id`, where there is one.
    pub open spec fn card(self, id: int) -> CardView {
        self.cards[self.card_index(id)]
    }

    /// The number of punches that refer to the card with identity `card_id`.
    pub open spec fn punch_count(self, card_id: int) -> nat {
        self.punches.filter(punch_is_on(card_id)).len()
    }

    /// Whether a punch appears when the punches of `card_id` are joined with
    /// their punchers: it is on that card and its puncher exists.
    pub open spec fn punch_is_shown(self, card_id: int) -> spec_fn(PunchView) -> bool {
        |p: PunchView| p.card_id == card_id && self.has_person(p.puncher_id)
    }

    /// A punch with the record of its puncher in place of the reference.
    pub open spec fn shown(self) -> spec_fn(PunchView) -> CardPunchView {
        |p: PunchView|
            CardPunchView {
                id: p.id,
                puncher: self.person(p.puncher_id),
                date: p.date,
                reason: p.reason,
            }
    }

    /// The punches of one card, oldest first, each with its puncher.
    pub open spec fn card_punches(self, card_id: int) -> Seq<CardPunchView> {
        self.punches.filter(self.punch_is_shown(card_id)).map_values(self.shown())
    }

    /// A card together with its punches.
    pub open spec fn full_card(self) -> spec_fn(CardView) -> FullCardView {
        |c: CardView|
            FullCardView {
                id: c.id,
                title: c.title,
                capacity: c.capacity,
                punches: self.card_punches(c.id),
            }
    }

    /// Every card, oldest first, together with its punches.
    pub open spec fn full_cards(self) -> Seq<FullCardView> {
        self.cards.map_values(self.full_card())
    }

    /// What holds of the rows at every moment, also between the statements
    /// of one operation: identities come from the sequences, no identity
    /// occurs twice in its table, and the puncher of every punch exists.
    pub open spec fn keyed(self) -> bool {
        &&& 0 <= self.people_issued <= i32::MAX
        &&& 0 <= self.cards_issued <= i32::MAX
        &&& 0 <= self.punches_issued <= i32::MAX
        &&& self.people.len() <= self.people_issued
        &&& self.cards.len() <= self.cards_issued
        &&& self.punches.len() <= self.punches_issued
        &&& forall|i: int|
            0 <= i < self.people.len() ==> 1 <= (#[trigger] self.people[i]).id
                <= self.people_issued
        &&& forall|i: int|
            0 <= i < self.cards.len() ==> 1 <= (#[trigger] self.cards[i]).id <= self.cards_issued
        &&& forall|i: int|
            0 <= i < self.punches.len() ==> 1 <= (#[trigger] self.punches[i]).id
                <= self.punches_issued
        &&& forall|i: int, j: int|
            0 <= i < j < self.people.len() ==> (#[trigger] self.people[i]).id
                != (#[trigger] self.people[j]).id
        &&& forall|i: int, j: int|
            0 <= i < j < self.cards.len() ==> (#[trigger] self.cards[i]).id
                != (#[trigger] self.cards[j]).id
        &&& forall|i: int, j: int|
            0 <= i < j < self.punches.len() ==> (#[trigger] self.punches[i]).id
                != (#[trigger] self.punches[j]).id
        &&& forall|k: int|
            0 <= k < self.punches.len() ==> self.has_person(
                (#[trigger] self.punches[k]).puncher_id,
            )
    }

    /// The card of every punch exists.
    pub open spec fn linked(self) -> bool {
        forall|k: int|
            0 <= k < self.punches.len() ==> self.has_card((#[trigger] self.punches[k]).card_id)
    }

    /// No card holds more punches than its capacity. A card whose capacity
    /// is below zero holds none.
    pub open spec fn within_capacity(self) -> bool {
        forall|i: int|
            0 <= i < self.cards.len() ==> {
                let c = #[trigger] self.cards[i];
                self.punch_count(c.id) == 0 || self.punch_count(c.id) <= c.capacity
            }
    }

    /// What holds of the store between operations.
    pub open spec fn well_formed(self) -> bool {
        &&& self.keyed()
        &&& self.linked()
        &&& self.within_capacity()
    }

    /// The row that a request for a card becomes.
    pub open spec fn card_to_issue(self, req: CreateCardView) -> CardView {
        CardView { id: self.cards_issued + 1, title: req.title, capacity: req.capacity }
    }

    pub open spec fn with_card(self, req: CreateCardView) -> Tables {
        Tables {
            cards: self.cards.push(self.card_to_issue(req)),
            cards_issued: self.cards_issued + 1,
            ..self
        }
    }

    /// The row that a request for a person becomes.
    pub open spec fn person_to_issue(self, req: CreatePersonView) -> PersonView {
        PersonView {
            id: self.people_issued + 1,
            name: req.name,
            email: req.email,
            phone_number: req.phone_number,
        }
    }

    pub open spec fn with_person(self, req: CreatePersonView) -> Tables {
        Tables {
            people: self.people.push(self.person_to_issue(req)),
            people_issued: self.people_issued + 1,
            ..self
        }
    }

    /// The row that a request for a punch becomes.
    pub open spec fn punch_to_issue(self, req: CreatePunchView) -> PunchView {
        PunchView {
            id: self.punches_issued + 1,
            card_id: req.card_id,
            puncher_id: req.puncher_id,
            date: req.date,
            reason: req.reason,
        }
    }

    pub open spec fn with_punch(self, req: CreatePunchView) -> Tables {
        Tables {
            punches: self.punches.push(self.punch_to_issue(req)),
            punches_issued: self.punches_issued + 1,
            ..self
        }
    }

    /// The state without the row of the card `id`; its punches stay.
    pub open spec fn without_card_row(self, id: int) -> Tables {
        Tables { cards: self.cards.filter(card_is_not(id)), ..self }
    }

    /// The state without the punches on the card `card_id`.
    pub open spec fn without_punches_on(self, card_id: int) -> Tables {
        Tables { punches: self.punches.filter(punch_is_off(card_id)), ..self }
    }

    /// The state without the card `id` and without its punches.
    pub open spec fn without_card(self, id: int) -> Tables {
        self.without_card_row(id).without_punches_on(id)
    }

    /// Creating a card succeeds unless the card sequence has run dry.
    pub open spec fn create_card_result(self, req: CreateCardView) -> Result<CardView, RepoError> {
        if self.cards_issued < i32::MAX {
            Ok(self.card_to_issue(req))
        } else {
            Err(RepoError::StorageError)
        }
    }

    pub open spec fn after_create_card(self, req: CreateCardView) -> Tables {
        if self.create_card_result(req) is Ok {
            self.with_card(req)
        } else {
            self
        }
    }

    /// Creating a person succeeds unless the person sequence has run dry.
    pub open spec fn create_person_result(self, req: CreatePersonView) -> Result<
        PersonView,
        RepoError,
    > {
        if self.people_issued < i32::MAX {
            Ok(self.person_to_issue(req))
        } else {
            Err(RepoError::StorageError)
        }
    }

    pub open spec fn after_create_person(self, req: CreatePersonView) -> Tables {
        if self.create_person_result(req) is Ok {
            self.with_person(req)
        } else {
            self
        }
    }

    /// Whether the store takes a punch row: its card and its puncher exist
    /// and the punch sequence has not run dry. How many punches the card
    /// holds is no concern of the store.
    pub open spec fn takes_punch(self, req: CreatePunchView) -> bool {
        &&& self.has_card(req.card_id)
        &&& self.has_person(req.puncher_id)
        &&& self.punches_issued < i32::MAX
    }

    /// The outcome of a request to punch: the card must exist, it must have
    /// a free slot, and the store must take the row.
    pub open spec fn create_punch_result(self, req: CreatePunchView) -> Result<
        PunchView,
        RepoError,
    > {
        if !self.has_card(req.card_id) {
            Err(RepoError::NotFound)
        } else if !has_free_slot(
            self.card(req.card_id).capacity,
            self.punch_count(req.card_id) as int,
        ) {
            Err(RepoError::CapacityExceeded)
        } else if !self.takes_punch(req) {
            Err(RepoError::StorageError)
        } else {
            Ok(self.punch_to_issue(req))
        }
    }

    pub open spec fn after_create_punch(self, req: CreatePunchView) -> Tables {
        if self.create_punch_result(req) is Ok {
            self.with_punch(req)
        } else {
            self
        }
    }

    /// Deleting a card succeeds exactly when the card exists.
    pub open spec fn delete_card_result(self, id: int) -> Result<(), RepoError> {
        if self.has_card(id) {
            Ok(())
        } else {
            Err(RepoError::NotFound)
        }
    }

    pub open spec fn after_delete_card(self, id: int) -> Tables {
        if self.has_card(id) {
            self.without_card(id)
        } else {
            self
        }
    }
}

} // verus!
