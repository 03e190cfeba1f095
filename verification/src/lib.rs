//! Punch cards: people, cards with a fixed number of slots, and the punches
//! that fill them.
//!
//! - [`model`] holds the records and their views.
//! - [`tables`] is the state of the store as mathematics, with every
//!   operation of the repository as a function on it.
//! - [`store`] is the store itself, held in memory.
//! - [`repo`] holds the operations: `Card::create`, `Card::delete`,
//!   `Person::create`, `Punch::create`, `FullCard::all_cards` and the rest.
//! - [`flow`] gives the operations that take several statements as state
//!   machines, for a driver that talks to a database of its own.
//! - [`rules`] holds the decisions on plain values.
//! - [`api`] is the table of routes and statuses.
//! - [`menu`] holds the decisions of a terminal client.
//! - [`laws`] states what holds of the repository as a whole;
//!   [`invariants`] and [`seq_facts`] hold the proofs beneath.

pub mod api;
pub mod flow;
pub mod invariants;
pub mod laws;
pub mod menu;
pub mod model;
pub mod repo;
pub mod rules;
pub mod seq_facts;
pub mod store;
pub mod tables;

pub use model::{
    Card, CardPunch, CreateCard, CreatePerson, CreatePunch, FullCard, Person, Punch, RepoError,
    Timestamp,
};
pub use store::Store;
