//! The decisions of the repository, each on plain values: what a driver
//! that talks to a database of its own asks between two statements.

use crate::model::{Card, CardPunch, FullCard, FullCardView, RepoError};
use crate::model::{card_punch_views, clone_card_punches};
use vstd::prelude::*;

verus! {

/// A card has a free slot while it holds fewer punches than its capacity.
/// A card whose capacity is zero or less never has one.
pub open spec fn has_free_slot(capacity: int, punched: int) -> bool {
    punched < capacity
}

/// The guard on punching: refuses with `CapacityExceeded` exactly when the
/// card has no free slot.
pub fn admit_punch(capacity: i32, current_punch_count: i64) -> (verdict: Result<(), RepoError>)
    ensures
        verdict is Ok <==> has_free_slot(capacity as int, current_punch_count as int),
        verdict is Err ==> verdict == Err::<(), RepoError>(RepoError::CapacityExceeded),
{
    let capacity: i64 = capacity as i64;
    if current_punch_count >= capacity {
        Err(RepoError::CapacityExceeded)
    } else {
        Ok(())
    }
}

/// What a delete statement that affected `rows_affected` rows means: with
/// no row affected, the entity was not there.
pub fn deletion_outcome(rows_affected: u64) -> (outcome: Result<(), RepoError>)
    ensures
        outcome == if rows_affected == 0 {
            Err::<(), RepoError>(RepoError::NotFound)
        } else {
            Ok::<(), RepoError>(())
        },
{
    if rows_affected == 0 {
        Err(RepoError::NotFound)
    } else {
        Ok(())
    }
}

/// What a lookup by identity means: no row, no such entity.
pub fn found_or_missing<T>(found: Option<T>) -> (outcome: Result<T, RepoError>)
    ensures
        outcome == match found {
            Some(row) => Ok::<T, RepoError>(row),
            None => Err::<T, RepoError>(RepoError::NotFound),
        },
{
    match found {
        Some(row) => Ok(row),
        None => Err(RepoError::NotFound),
    }
}

/// What an insert statement means: a row that the store did not take is a
/// failure of the store.
pub fn stored_or_failed<T>(inserted: Option<T>) -> (outcome: Result<T, RepoError>)
    ensures
        outcome == match inserted {
            Some(row) => Ok::<T, RepoError>(row),
            None => Err::<T, RepoError>(RepoError::StorageError),
        },
{
    match inserted {
        Some(row) => Ok(row),
        None => Err(RepoError::StorageError),
    }
}

/// The card at position `i` together with the punches at position `i`.
pub open spec fn paired(cards: Seq<Card>, punches: Seq<Vec<CardPunch>>, i: int) -> FullCardView {
    FullCardView {
        id: cards[i].id as int,
        title: cards[i].title@,
        capacity: cards[i].capacity as int,
        punches: card_punch_views(punches[i]@),
    }
}

/// Cards and lists of punches paired position by position, as far as both
/// reach.
pub open spec fn assembled(cards: Seq<Card>, punches: Seq<Vec<CardPunch>>) -> Seq<FullCardView> {
    Seq::new(
        if cards.len() <= punches.len() {
            cards.len()
        } else {
            punches.len()
        },
        |i: int| paired(cards, punches, i),
    )
}

/// The views of full cards, in the same order.
pub open spec fn full_card_views(rows: Seq<FullCard>) -> Seq<FullCardView> {
    rows.map_values(|c: FullCard| c@)
}

impl FullCard {
    /// Pairs each card with the list of punches at the same position. Where
    /// one list is longer than the other, what has no partner is left out.
    pub fn assemble(cards: &Vec<Card>, punches: &Vec<Vec<CardPunch>>) -> (full: Vec<FullCard>)
        ensures
            full_card_views(full@) == assembled(cards@, punches@),
    {
        let mut full: Vec<FullCard> = Vec::new();
        let mut i: usize = 0;
        while i < cards.len() && i < punches.len()
            invariant
                i <= cards.len(),
                i <= punches.len(),
                full.len() == i,
                forall|j: int| 0 <= j < i ==> (#[trigger] full@[j])@ == paired(cards@, punches@, j),
            decreases cards.len() - i,
        {
            full.push(
                FullCard {
                    id: cards[i].id,
                    title: cards[i].title.clone(),
                    capacity: cards[i].capacity,
                    punches: clone_card_punches(&punches[i]),
                },
            );
            i += 1;
        }
        assert(full_card_views(full@) =~= assembled(cards@, punches@));
        full
    }
}

} // verus!
