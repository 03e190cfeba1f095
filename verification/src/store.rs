//! The store: three tables held in memory, and the statements that the
//! repository runs against them.
//!
//! A statement reads or changes one table and says exactly what it did. The
//! repository operations are built from these statements, so a state between
//! two statements of one operation is visible only inside this crate.

use crate::model::{
    Card, CardPunch, CardPunchView, CardView, CreateCard, CreatePerson, CreatePunch, Person,
    PersonView, Punch, PunchView,
};
use crate::flow::{Answer, Statement};
use crate::invariants::{
    lemma_card_at, lemma_person_at, lemma_with_punch_keeps_keyed,
    lemma_without_card_row_keeps_keyed, lemma_without_punches_keeps_keyed,
};
use crate::seq_facts::{lemma_filter_from, lemma_filter_upto};
use crate::tables::{card_is_not, punch_is_off, punch_is_on, Tables};
use vstd::prelude::*;

verus! {

/// The views of person rows, in the same order.
pub open spec fn person_views(rows: Seq<Person>) -> Seq<PersonView> {
    rows.map_values(|p: Person| p@)
}

/// The views of card rows, in the same order.
pub open spec fn card_views(rows: Seq<Card>) -> Seq<CardView> {
    rows.map_values(|c: Card| c@)
}

/// The views of punch rows, in the same order.
pub open spec fn punch_views(rows: Seq<Punch>) -> Seq<PunchView> {
    rows.map_values(|p: Punch| p@)
}

/// The handle that every repository operation takes: the rows of the three
/// tables, oldest first, and how many identities each table has handed out.
#[derive(Debug)]
pub struct Store {
    people: Vec<Person>,
    cards: Vec<Card>,
    punches: Vec<Punch>,
    people_issued: i32,
    cards_issued: i32,
    punches_issued: i32,
}

impl View for Store {
    type V = Tables;

    closed spec fn view(&self) -> Tables {
        Tables {
            people: person_views(self.people@),
            cards: card_views(self.cards@),
            punches: punch_views(self.punches@),
            people_issued: self.people_issued as int,
            cards_issued: self.cards_issued as int,
            punches_issued: self.punches_issued as int,
        }
    }
}

impl Default for Store {
    fn default() -> (store: Store)
        ensures
            store@ == Tables::empty(),
            store.wf(),
    {
        Store::new()
    }
}

impl Store {
    /// What holds of a store between repository operations.
    pub open spec fn wf(&self) -> bool {
        self@.well_formed()
    }

    /// A store with empty tables.
    pub fn new() -> (store: Store)
        ensures
            store@ == Tables::empty(),
            store.wf(),
    {
        let store = Store {
            people: Vec::new(),
            cards: Vec::new(),
            punches: Vec::new(),
            people_issued: 0,
            cards_issued: 0,
            punches_issued: 0,
        };
        proof {
            assert(store@.people =~= Seq::<PersonView>::empty());
            assert(store@.cards =~= Seq::<CardView>::empty());
            assert(store@.punches =~= Seq::<PunchView>::empty());
        }
        store
    }

    /// Every card row, oldest first.
    pub(crate) fn select_cards(&self) -> (rows: Vec<Card>)
        ensures
            card_views(rows@) == self@.cards,
    {
        let mut rows: Vec<Card> = Vec::new();
        let mut i: usize = 0;
        while i < self.cards.len()
            invariant
                i <= self.cards.len(),
                rows@ == self.cards@.take(i as int),
            decreases self.cards.len() - i,
        {
            rows.push(self.cards[i].clone());
            assert(self.cards@.take(i as int + 1) == self.cards@.take(i as int).push(
                self.cards@[i as int],
            ));
            i += 1;
        }
        assert(self.cards@.take(self.cards.len() as int) == self.cards@);
        rows
    }

    /// Every person row, oldest first.
    pub(crate) fn select_people(&self) -> (rows: Vec<Person>)
        ensures
            person_views(rows@) == self@.people,
    {
        let mut rows: Vec<Person> = Vec::new();
        let mut i: usize = 0;
        while i < self.people.len()
            invariant
                i <= self.people.len(),
                rows@ == self.people@.take(i as int),
            decreases self.people.len() - i,
        {
            rows.push(self.people[i].clone());
            assert(self.people@.take(i as int + 1) == self.people@.take(i as int).push(
                self.people@[i as int],
            ));
            i += 1;
        }
        assert(self.people@.take(self.people.len() as int) == self.people@);
        rows
    }

    /// The card row with identity `id`, if there is one.
    pub(crate) fn find_card(&self, id: i32) -> (found: Option<Card>)
        requires
            self@.keyed(),
        ensures
            match found {
                Some(card) => self@.has_card(id as int) && card@ == self@.card(id as int),
                None => !self@.has_card(id as int),
            },
    {
        let mut i: usize = 0;
        while i < self.cards.len()
            invariant
                i <= self.cards.len(),
                self@.keyed(),
                forall|j: int| 0 <= j < i ==> (#[trigger] self@.cards[j]).id != id,
            decreases self.cards.len() - i,
        {
            if self.cards[i].id == id {
                proof {
                    assert(self@.cards[i as int] == self.cards@[i as int]@);
                    lemma_card_at(self@, i as int);
                }
                return Some(self.cards[i].clone());
            }
            assert(self@.cards[i as int] == self.cards@[i as int]@);
            i += 1;
        }
        None
    }

    /// The person row with identity `id`, if there is one.
    pub(crate) fn find_person(&self, id: i32) -> (found: Option<Person>)
        requires
            self@.keyed(),
        ensures
            match found {
                Some(person) => self@.has_person(id as int) && person@ == self@.person(id as int),
                None => !self@.has_person(id as int),
            },
    {
        let mut i: usize = 0;
        while i < self.people.len()
            invariant
                i <= self.people.len(),
                self@.keyed(),
                forall|j: int| 0 <= j < i ==> (#[trigger] self@.people[j]).id != id,
            decreases self.people.len() - i,
        {
            if self.people[i].id == id {
                proof {
                    assert(self@.people[i as int] == self.people@[i as int]@);
                    lemma_person_at(self@, i as int);
                }
                return Some(self.people[i].clone());
            }
            assert(self@.people[i as int] == self.people@[i as int]@);
            i += 1;
        }
        None
    }

    /// The number of punch rows that refer to the card `card_id`.
    pub(crate) fn count_punches(&self, card_id: i32) -> (count: i64)
        requires
            self@.keyed(),
        ensures
            count == self@.punch_count(card_id as int),
    {
        let ghost rows = self@.punches;
        let ghost on_card = punch_is_on(card_id as int);
        let mut count: i64 = 0;
        let mut i: usize = 0;
        while i < self.punches.len()
            invariant
                i <= self.punches.len(),
                self.punches.len() <= i32::MAX,
                rows == self@.punches,
                on_card == punch_is_on(card_id as int),
                0 <= count <= i,
                count == rows.take(i as int).filter(on_card).len(),
            decreases self.punches.len() - i,
        {
            proof {
                assert(rows[i as int] == self.punches@[i as int]@);
                lemma_filter_upto(rows, on_card, i as int);
            }
            if self.punches[i].card_id == card_id {
                count += 1;
            }
            i += 1;
        }
        assert(rows.take(self.punches.len() as int) == rows);
        count
    }

    /// The punches of the card `card_id`, oldest first, each joined with
    /// its puncher.
    pub(crate) fn select_card_punches(&self, card_id: i32) -> (rows: Vec<CardPunch>)
        requires
            self@.keyed(),
        ensures
            crate::model::card_punch_views(rows@) == self@.card_punches(card_id as int),
    {
        let ghost punches = self@.punches;
        let ghost is_shown = self@.punch_is_shown(card_id as int);
        let ghost shown = self@.shown();
        let mut rows: Vec<CardPunch> = Vec::new();
        let mut i: usize = 0;
        while i < self.punches.len()
            invariant
                i <= self.punches.len(),
                self@.keyed(),
                punches == self@.punches,
                is_shown == self@.punch_is_shown(card_id as int),
                shown == self@.shown(),
                crate::model::card_punch_views(rows@) == punches.take(i as int).filter(
                    is_shown,
                ).map_values(shown),
            decreases self.punches.len() - i,
        {
            let ghost before = rows@;
            proof {
                assert(punches[i as int] == self.punches@[i as int]@);
                lemma_filter_upto(punches, is_shown, i as int);
            }
            if self.punches[i].card_id == card_id {
                match self.find_person(self.punches[i].puncher_id) {
                    Some(puncher) => {
                        let row = CardPunch {
                            id: self.punches[i].id,
                            puncher,
                            date: self.punches[i].date,
                            reason: self.punches[i].reason.clone(),
                        };
                        proof {
                            assert(row@ == shown(punches[i as int]));
                            before.lemma_push_map_commute(|p: CardPunch| p@, row);
                            punches.take(i as int).filter(is_shown).lemma_push_map_commute(
                                shown,
                                punches[i as int],
                            );
                        }
                        rows.push(row);
                    },
                    None => {},
                }
            }
            i += 1;
        }
        assert(punches.take(self.punches.len() as int) == punches);
        rows
    }
}

impl Store {
    /// Inserts a card row under the next identity of the card sequence and
    /// returns it; `None`, and no change, where the sequence has run dry.
    pub(crate) fn insert_card(&mut self, create: CreateCard) -> (inserted: Option<Card>)
        ensures
            inserted is Some <==> old(self)@.cards_issued < i32::MAX,
            match inserted {
                Some(card) => card@ == old(self)@.card_to_issue(create@) && final(self)@ == old(
                    self,
                )@.with_card(create@),
                None => final(self)@ == old(self)@,
            },
    {
        if self.cards_issued == i32::MAX {
            return None;
        }
        let id: i32 = self.cards_issued + 1;
        let row = Card { id, title: create.title, capacity: create.capacity };
        let card = row.clone();
        proof {
            self.cards@.lemma_push_map_commute(|c: Card| c@, row);
        }
        self.cards.push(row);
        self.cards_issued = id;
        Some(card)
    }

    /// Inserts a person row under the next identity of the person sequence
    /// and returns it; `None`, and no change, where the sequence has run dry.
    pub(crate) fn insert_person(&mut self, create: CreatePerson) -> (inserted: Option<Person>)
        ensures
            inserted is Some <==> old(self)@.people_issued < i32::MAX,
            match inserted {
                Some(person) => person@ == old(self)@.person_to_issue(create@) && final(self)@
                    == old(self)@.with_person(create@),
                None => final(self)@ == old(self)@,
            },
    {
        if self.people_issued == i32::MAX {
            return None;
        }
        let id: i32 = self.people_issued + 1;
        let row = Person {
            id,
            name: create.name,
            email: create.email,
            phone_number: create.phone_number,
        };
        let person = row.clone();
        proof {
            self.people@.lemma_push_map_commute(|p: Person| p@, row);
        }
        self.people.push(row);
        self.people_issued = id;
        Some(person)
    }

    /// Inserts a punch row under the next identity of the punch sequence and
    /// returns it. The store takes the row only if its card and its puncher
    /// exist and the sequence has not run dry; otherwise `None`, and no
    /// change. How many punches the card already holds plays no part here.
    pub(crate) fn insert_punch(&mut self, create: CreatePunch) -> (inserted: Option<Punch>)
        requires
            old(self)@.keyed(),
        ensures
            inserted is Some <==> old(self)@.takes_punch(create@),
            match inserted {
                Some(punch) => punch@ == old(self)@.punch_to_issue(create@) && final(self)@ == old(
                    self,
                )@.with_punch(create@),
                None => final(self)@ == old(self)@,
            },
    {
        if self.find_card(create.card_id).is_none() {
            return None;
        }
        if self.find_person(create.puncher_id).is_none() {
            return None;
        }
        if self.punches_issued == i32::MAX {
            return None;
        }
        let id: i32 = self.punches_issued + 1;
        let row = Punch {
            id,
            card_id: create.card_id,
            puncher_id: create.puncher_id,
            date: create.date,
            reason: create.reason,
        };
        let punch = row.clone();
        proof {
            self.punches@.lemma_push_map_commute(|p: Punch| p@, row);
        }
        self.punches.push(row);
        self.punches_issued = id;
        Some(punch)
    }

    /// Deletes the card rows with identity `id` and returns how many rows
    /// that were. Punch rows are not touched.
    pub(crate) fn delete_card_row(&mut self, id: i32) -> (rows_affected: u64)
        ensures
            final(self)@ == old(self)@.without_card_row(id as int),
            rows_affected == old(self)@.cards.len() - final(self)@.cards.len(),
            rows_affected == 0 <==> !old(self)@.has_card(id as int),
    {
        let ghost before = self@.cards;
        let ghost keep = card_is_not(id as int);
        let mut rows_affected: u64 = 0;
        let mut i: usize = self.cards.len();
        while i > 0
            invariant
                i <= self.cards.len(),
                i <= before.len(),
                before.len() <= usize::MAX,
                before == old(self)@.cards,
                keep == card_is_not(id as int),
                self.people == old(self).people,
                self.punches == old(self).punches,
                self.people_issued == old(self).people_issued,
                self.cards_issued == old(self).cards_issued,
                self.punches_issued == old(self).punches_issued,
                card_views(self.cards@) == before.take(i as int) + before.skip(i as int).filter(
                    keep,
                ),
                rows_affected + self.cards.len() == before.len(),
                rows_affected == 0 <==> forall|j: int|
                    i <= j < before.len() ==> (#[trigger] before[j]).id != id,
            decreases i,
        {
            i -= 1;
            let ghost current = card_views(self.cards@);
            proof {
                lemma_filter_from(before, keep, i as int);
                assert(current[i as int] == before[i as int]);
                assert(current[i as int] == self.cards@[i as int]@);
            }
            if self.cards[i].id == id {
                self.cards.remove(i);
                rows_affected += 1;
                assert(card_views(self.cards@) =~= current.remove(i as int));
                assert(current.remove(i as int) =~= before.take(i as int) + before.skip(
                    i as int,
                ).filter(keep));
            } else {
                assert(current =~= before.take(i as int) + before.skip(i as int).filter(keep));
            }
        }
        proof {
            assert(before.skip(0) =~= before);
            assert(before.take(0) + before.filter(keep) =~= before.filter(keep));
        }
        rows_affected
    }

    /// Deletes the punch rows that refer to the card `card_id` and returns
    /// how many rows that were.
    pub(crate) fn delete_punches_on(&mut self, card_id: i32) -> (rows_affected: u64)
        ensures
            final(self)@ == old(self)@.without_punches_on(card_id as int),
            rows_affected == old(self)@.punches.len() - final(self)@.punches.len(),
    {
        let ghost before = self@.punches;
        let ghost keep = punch_is_off(card_id as int);
        let mut rows_affected: u64 = 0;
        let mut i: usize = self.punches.len();
        while i > 0
            invariant
                i <= self.punches.len(),
                i <= before.len(),
                before.len() <= usize::MAX,
                before == old(self)@.punches,
                keep == punch_is_off(card_id as int),
                self.people == old(self).people,
                self.cards == old(self).cards,
                self.people_issued == old(self).people_issued,
                self.cards_issued == old(self).cards_issued,
                self.punches_issued == old(self).punches_issued,
                punch_views(self.punches@) == before.take(i as int) + before.skip(
                    i as int,
                ).filter(keep),
                rows_affected + self.punches.len() == before.len(),
            decreases i,
        {
            i -= 1;
            let ghost current = punch_views(self.punches@);
            proof {
                lemma_filter_from(before, keep, i as int);
                assert(current[i as int] == before[i as int]);
                assert(current[i as int] == self.punches@[i as int]@);
            }
            if self.punches[i].card_id == card_id {
                self.punches.remove(i);
                rows_affected += 1;
                assert(punch_views(self.punches@) =~= current.remove(i as int));
                assert(current.remove(i as int) =~= before.take(i as int) + before.skip(
                    i as int,
                ).filter(keep));
            } else {
                assert(current =~= before.take(i as int) + before.skip(i as int).filter(keep));
            }
        }
        proof {
            assert(before.skip(0) =~= before);
            assert(before.take(0) + before.filter(keep) =~= before.filter(keep));
        }
        rows_affected
    }
}

impl Store {
    /// Carries out one statement and answers it. Of the statements that
    /// change rows, each changes the rows of one table and nothing else.
    pub(crate) fn execute(&mut self, statement: Statement) -> (answer: Answer)
        requires
            old(self)@.keyed(),
        ensures
            final(self)@.keyed(),
            match statement {
                Statement::FindCard { card_id } => final(self)@ == old(self)@ && match answer {
                    Answer::Card(Some(card)) => old(self)@.has_card(card_id as int) && card@ == old(
                        self,
                    )@.card(card_id as int),
                    Answer::Card(None) => !old(self)@.has_card(card_id as int),
                    _ => false,
                },
                Statement::CountPunches { card_id } => final(self)@ == old(self)@ && answer
                    == Answer::Count(old(self)@.punch_count(card_id as int) as i64) && old(
                    self,
                )@.punch_count(card_id as int) <= i64::MAX,
                Statement::InsertPunch { row } => match answer {
                    Answer::Inserted(punch) => old(self)@.takes_punch(row@) && punch@ == old(
                        self,
                    )@.punch_to_issue(row@) && final(self)@ == old(self)@.with_punch(row@),
                    Answer::Failed => !old(self)@.takes_punch(row@) && final(self)@ == old(self)@,
                    _ => false,
                },
                Statement::DeleteCard { card_id } => final(self)@ == old(self)@.without_card_row(
                    card_id as int,
                ) && match answer {
                    Answer::Deleted(rows_affected) => rows_affected == 0 <==> !old(self)@.has_card(
                        card_id as int,
                    ),
                    _ => false,
                },
                Statement::DeletePunches { card_id } => final(self)@ == old(
                    self,
                )@.without_punches_on(card_id as int) && answer is Deleted,
            },
    {
        match statement {
            Statement::FindCard { card_id } => Answer::Card(self.find_card(card_id)),
            Statement::CountPunches { card_id } => Answer::Count(self.count_punches(card_id)),
            Statement::InsertPunch { row } => {
                proof {
                    if self@.takes_punch(row@) {
                        lemma_with_punch_keeps_keyed(self@, row@);
                    }
                }
                match self.insert_punch(row) {
                    Some(punch) => Answer::Inserted(punch),
                    None => Answer::Failed,
                }
            },
            Statement::DeleteCard { card_id } => {
                proof {
                    lemma_without_card_row_keeps_keyed(self@, card_id as int);
                }
                Answer::Deleted(self.delete_card_row(card_id))
            },
            Statement::DeletePunches { card_id } => {
                proof {
                    lemma_without_punches_keeps_keyed(self@, card_id as int);
                }
                Answer::Deleted(self.delete_punches_on(card_id))
            },
        }
    }
}

} // verus!
