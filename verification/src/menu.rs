//! The decisions of a terminal client: what a selection in a menu means,
//! which fields of a new person are absent, and how many slots of a card
//! are left.

use crate::model::{FullCard, FullCardView};
use vstd::prelude::*;

verus! {

/// What the user asks for in the main menu.
#[derive(Clone, Copy, Debug, PartialEq, Eq, Structural)]
pub enum MenuChoice {
    PunchExisting,
    CreateNew,
    DeleteExisting,
    Quit,
}

/// The number of entries of the main menu: without cards only "create" and
/// "quit" are offered.
pub open spec fn menu_len(no_existing: bool) -> int {
    if no_existing {
        2
    } else {
        4
    }
}

/// The entry at position `selection` of the main menu.
pub open spec fn choice_at(no_existing: bool, selection: int) -> Option<MenuChoice> {
    if no_existing {
        if selection == 0 {
            Some(MenuChoice::CreateNew)
        } else if selection == 1 {
            Some(MenuChoice::Quit)
        } else {
            None
        }
    } else {
        if selection == 0 {
            Some(MenuChoice::PunchExisting)
        } else if selection == 1 {
            Some(MenuChoice::CreateNew)
        } else if selection == 2 {
            Some(MenuChoice::DeleteExisting)
        } else if selection == 3 {
            Some(MenuChoice::Quit)
        } else {
            None
        }
    }
}

/// What the selection of entry `selection` in the main menu means; `None`
/// for a position that the menu does not have.
pub fn menu_choice(no_existing: bool, selection: usize) -> (choice: Option<MenuChoice>)
    ensures
        choice == choice_at(no_existing, selection as int),
        choice is Some <==> selection < menu_len(no_existing),
{
    match (no_existing, selection) {
        (true, 0) => Some(MenuChoice::CreateNew),
        (true, 1) => Some(MenuChoice::Quit),
        (false, 0) => Some(MenuChoice::PunchExisting),
        (false, 1) => Some(MenuChoice::CreateNew),
        (false, 2) => Some(MenuChoice::DeleteExisting),
        (false, 3) => Some(MenuChoice::Quit),
        _ => None,
    }
}

/// Who punches: one of the people listed, by position, or someone new.
#[derive(Clone, Copy, Debug, PartialEq, Eq, Structural)]
pub enum Puncher {
    Existing(usize),
    NewPerson,
}

/// What a selection means in the list of people, which ends with one entry
/// more than there are people, for "someone new"; `None` for a position that
/// the list does not have.
pub fn puncher_choice(people: usize, selection: usize) -> (choice: Option<Puncher>)
    ensures
        choice == if selection < people {
            Some(Puncher::Existing(selection))
        } else if selection == people {
            Some(Puncher::NewPerson)
        } else {
            None
        },
{
    if selection < people {
        Some(Puncher::Existing(selection))
    } else if selection == people {
        Some(Puncher::NewPerson)
    } else {
        None
    }
}

/// What was typed into an optional field: nothing typed means absent.
pub fn optional_text(text: String) -> (field: Option<String>)
    ensures
        field == if text@.len() == 0 {
            None
        } else {
            Some(text)
        },
{
    if text.as_str().is_empty() {
        None
    } else {
        Some(text)
    }
}

impl FullCardView {
    /// The slots that are not punched yet: the capacity less the punches.
    pub open spec fn unpunched(self) -> int {
        self.capacity - self.punches.len()
    }
}

impl FullCard {
    /// The number of slots that are not punched yet. It is zero exactly
    /// when every slot is punched.
    pub fn slots_left(&self) -> (left: i128)
        ensures
            left == self@.unpunched(),
    {
        let capacity: i128 = self.capacity as i128;
        let punched: i128 = self.punches.len() as i128;
        capacity - punched
    }
}

} // verus!
