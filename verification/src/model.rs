//! The records of the punch-card domain and their mathematical views.
//!
//! Every record has a view in which integers are unbounded and text is a
//! sequence of characters. Contracts throughout the crate are stated over
//! these views.

use vstd::prelude::*;

verus! {

/// A point on the UTC time line: whole seconds since the Unix epoch and the
/// nanoseconds elapsed within that second. The value is carried, never
/// interpreted, so no zone other than UTC can enter a record.
#[derive(Clone, Copy, Debug, PartialEq, Eq, Structural)]
pub struct Timestamp {
    pub secs: i64,
    pub nanos: u32,
}

/// Why a repository operation did not succeed.
#[derive(Clone, Copy, Debug, PartialEq, Eq, Structural)]
pub enum RepoError {
    /// The store could not carry out a statement: a sequence ran dry, or a
    /// row referred to a person that does not exist.
    StorageError,
    /// The entity named by the request does not exist.
    NotFound,
    /// The card has no free slot left.
    CapacityExceeded,
}

/// The view of optional text: absent stays absent, present text becomes its
/// characters. An empty string is present.
pub open spec fn text_view(text: Option<String>) -> Option<Seq<char>> {
    match text {
        Some(s) => Some(s@),
        None => None,
    }
}

/// Someone who can punch cards.
#[derive(Debug, PartialEq, Eq)]
pub struct Person {
    pub id: i32,
    pub name: String,
    pub email: Option<String>,
    pub phone_number: Option<String>,
}

pub struct PersonView {
    pub id: int,
    pub name: Seq<char>,
    pub email: Option<Seq<char>>,
    pub phone_number: Option<Seq<char>>,
}

impl View for Person {
    type V = PersonView;

    open spec fn view(&self) -> PersonView {
        PersonView {
            id: self.id as int,
            name: self.name@,
            email: text_view(self.email),
            phone_number: text_view(self.phone_number),
        }
    }
}

/// A card with a fixed number of slots.
#[derive(Debug, PartialEq, Eq)]
pub struct Card {
    pub id: i32,
    pub title: String,
    pub capacity: i32,
}

pub struct CardView {
    pub id: int,
    pub title: Seq<char>,
    pub capacity: int,
}

impl View for Card {
    type V = CardView;

    open spec fn view(&self) -> CardView {
        CardView { id: self.id as int, title: self.title@, capacity: self.capacity as int }
    }
}

/// One filled slot: who punched which card, when and why.
#[derive(Debug, PartialEq, Eq)]
pub struct Punch {
    pub id: i32,
    pub card_id: i32,
    pub puncher_id: i32,
    pub date: Timestamp,
    pub reason: String,
}

pub struct PunchView {
    pub id: int,
    pub card_id: int,
    pub puncher_id: int,
    pub date: Timestamp,
    pub reason: Seq<char>,
}

impl View for Punch {
    type V = PunchView;

    open spec fn view(&self) -> PunchView {
        PunchView {
            id: self.id as int,
            card_id: self.card_id as int,
            puncher_id: self.puncher_id as int,
            date: self.date,
            reason: self.reason@,
        }
    }
}

/// A punch as shown on its card, with the full record of the puncher.
#[derive(Debug, PartialEq, Eq)]
pub struct CardPunch {
    pub id: i32,
    pub puncher: Person,
    pub date: Timestamp,
    pub reason: String,
}

pub struct CardPunchView {
    pub id: int,
    pub puncher: PersonView,
    pub date: Timestamp,
    pub reason: Seq<char>,
}

impl View for CardPunch {
    type V = CardPunchView;

    open spec fn view(&self) -> CardPunchView {
        CardPunchView {
            id: self.id as int,
            puncher: self.puncher@,
            date: self.date,
            reason: self.reason@,
        }
    }
}

/// The views of a list of shown punches, in the same order.
pub open spec fn card_punch_views(punches: Seq<CardPunch>) -> Seq<CardPunchView> {
    punches.map_values(|p: CardPunch| p@)
}

/// A card together with its punches, oldest first.
#[derive(Debug, PartialEq, Eq)]
pub struct FullCard {
    pub id: i32,
    pub title: String,
    pub capacity: i32,
    pub punches: Vec<CardPunch>,
}

pub struct FullCardView {
    pub id: int,
    pub title: Seq<char>,
    pub capacity: int,
    pub punches: Seq<CardPunchView>,
}

impl View for FullCard {
    type V = FullCardView;

    open spec fn view(&self) -> FullCardView {
        FullCardView {
            id: self.id as int,
            title: self.title@,
            capacity: self.capacity as int,
            punches: card_punch_views(self.punches@),
        }
    }
}

/// A request for a new card.
#[derive(Debug, PartialEq, Eq)]
pub struct CreateCard {
    pub title: String,
    pub capacity: i32,
}

pub struct CreateCardView {
    pub title: Seq<char>,
    pub capacity: int,
}

impl View for CreateCard {
    type V = CreateCardView;

    open spec fn view(&self) -> CreateCardView {
        CreateCardView { title: self.title@, capacity: self.capacity as int }
    }
}

/// A request for a new person.
#[derive(Debug, PartialEq, Eq)]
pub struct CreatePerson {
    pub name: String,
    pub email: Option<String>,
    pub phone_number: Option<String>,
}

pub struct CreatePersonView {
    pub name: Seq<char>,
    pub email: Option<Seq<char>>,
    pub phone_number: Option<Seq<char>>,
}

impl View for CreatePerson {
    type V = CreatePersonView;

    open spec fn view(&self) -> CreatePersonView {
        CreatePersonView {
            name: self.name@,
            email: text_view(self.email),
            phone_number: text_view(self.phone_number),
        }
    }
}

/// A request to punch a card.
#[derive(Debug, PartialEq, Eq)]
pub struct CreatePunch {
    pub card_id: i32,
    pub puncher_id: i32,
    pub date: Timestamp,
    pub reason: String,
}

pub struct CreatePunchView {
    pub card_id: int,
    pub puncher_id: int,
    pub date: Timestamp,
    pub reason: Seq<char>,
}

impl View for CreatePunch {
    type V = CreatePunchView;

    open spec fn view(&self) -> CreatePunchView {
        CreatePunchView {
            card_id: self.card_id as int,
            puncher_id: self.puncher_id as int,
            date: self.date,
            reason: self.reason@,
        }
    }
}

/// A copy of optional text.
pub fn clone_text(text: &Option<String>) -> (copy: Option<String>)
    ensures
        copy == *text,
{
    match text {
        Some(s) => Some(s.clone()),
        None => None,
    }
}

impl Clone for Person {
    fn clone(&self) -> (copy: Self)
        ensures
            copy == *self,
    {
        Person {
            id: self.id,
            name: self.name.clone(),
            email: clone_text(&self.email),
            phone_number: clone_text(&self.phone_number),
        }
    }
}

impl Clone for Card {
    fn clone(&self) -> (copy: Self)
        ensures
            copy == *self,
    {
        Card { id: self.id, title: self.title.clone(), capacity: self.capacity }
    }
}

impl Clone for Punch {
    fn clone(&self) -> (copy: Self)
        ensures
            copy == *self,
    {
        Punch {
            id: self.id,
            card_id: self.card_id,
            puncher_id: self.puncher_id,
            date: self.date,
            reason: self.reason.clone(),
        }
    }
}

impl Clone for CardPunch {
    fn clone(&self) -> (copy: Self)
        ensures
            copy == *self,
    {
        CardPunch {
            id: self.id,
            puncher: self.puncher.clone(),
            date: self.date,
            reason: self.reason.clone(),
        }
    }
}

/// A copy of a list of shown punches.
pub fn clone_card_punches(punches: &Vec<CardPunch>) -> (copy: Vec<CardPunch>)
    ensures
        copy@ == punches@,
{
    let mut copy: Vec<CardPunch> = Vec::new();
    let mut i: usize = 0;
    while i < punches.len()
        invariant
            i <= punches.len(),
            copy@ == punches@.take(i as int),
        decreases punches.len() - i,
    {
        copy.push(punches[i].clone());
        assert(punches@.take(i as int + 1) == punches@.take(i as int).push(punches@[i as int]));
        i += 1;
    }
    assert(punches@.take(punches.len() as int) == punches@);
    copy
}

impl Clone for FullCard {
    fn clone(&self) -> (copy: Self)
        ensures
            copy@ == self@,
            copy.punches@ == self.punches@,
    {
        FullCard {
            id: self.id,
            title: self.title.clone(),
            capacity: self.capacity,
            punches: clone_card_punches(&self.punches),
        }
    }
}

impl Clone for CreateCard {
    fn clone(&self) -> (copy: Self)
        ensures
            copy == *self,
    {
        CreateCard { title: self.title.clone(), capacity: self.capacity }
    }
}

impl Clone for CreatePerson {
    fn clone(&self) -> (copy: Self)
        ensures
            copy == *self,
    {
        CreatePerson {
            name: self.name.clone(),
            email: clone_text(&self.email),
            phone_number: clone_text(&self.phone_number),
        }
    }
}

impl Clone for CreatePunch {
    fn clone(&self) -> (copy: Self)
        ensures
            copy == *self,
    {
        CreatePunch {
            card_id: self.card_id,
            puncher_id: self.puncher_id,
            date: self.date,
            reason: self.reason.clone(),
        }
    }
}

} // verus!
