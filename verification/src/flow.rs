//! The operations that take more than one statement, each as a state
//! machine: from where the operation stands and what the store answered to
//! the statement to send next, or to the outcome.
//!
//! A driver owns the connection to its store. It sends the statement that a
//! step asks for, hands the answer to the next step, and stops when a step is
//! done. It decides nothing.

use crate::model::{Card, CreatePunch, Punch, RepoError};
use crate::rules::{admit_punch, deletion_outcome, found_or_missing, has_free_slot};
use vstd::prelude::*;

verus! {

/// A statement for the store.
#[derive(Debug)]
pub enum Statement {
    /// Select the card row with this identity.
    FindCard { card_id: i32 },
    /// Count the punch rows that refer to this card.
    CountPunches { card_id: i32 },
    /// Insert this punch row, under the next identity of the punch sequence.
    InsertPunch { row: CreatePunch },
    /// Delete the card row with this identity.
    DeleteCard { card_id: i32 },
    /// Delete the punch rows that refer to this card.
    DeletePunches { card_id: i32 },
}

/// What the store answered to a statement.
#[derive(Debug)]
pub enum Answer {
    /// To `FindCard`: the row, if there is one.
    Card(Option<Card>),
    /// To `CountPunches`: the number of rows.
    Count(i64),
    /// To `InsertPunch`: the row as it was stored.
    Inserted(Punch),
    /// To `DeleteCard` and `DeletePunches`: the number of rows deleted.
    Deleted(u64),
    /// To any statement: the store could not carry it out.
    Failed,
}

/// Where a request to punch stands.
#[derive(Debug)]
pub enum PunchFlow {
    /// The card has been asked for.
    FindingCard { create: CreatePunch },
    /// The card exists and has this capacity; its punches are being counted.
    Counting { create: CreatePunch, capacity: i32 },
    /// The card has a free slot; the row is being inserted.
    Inserting,
}

/// The next step of a request to punch.
#[derive(Debug)]
pub enum PunchStep {
    Ask { flow: PunchFlow, statement: Statement },
    Done(Result<Punch, RepoError>),
}

impl PunchFlow {
    /// The first step: ask for the card of the request.
    pub open spec fn begun(create: CreatePunch) -> PunchStep {
        PunchStep::Ask {
            flow: PunchFlow::FindingCard { create },
            statement: Statement::FindCard { card_id: create.card_id },
        }
    }

    /// The step that follows an answer.
    ///
    /// A card that is not there ends the request with `NotFound`. A card
    /// without a free slot ends it with `CapacityExceeded`. A statement that
    /// failed, or an answer to another statement than the one asked, ends it
    /// with `StorageError`.
    pub open spec fn stepped(self, answer: Answer) -> PunchStep {
        match (self, answer) {
            (PunchFlow::FindingCard { create }, Answer::Card(Some(card))) => PunchStep::Ask {
                flow: PunchFlow::Counting { create, capacity: card.capacity },
                statement: Statement::CountPunches { card_id: create.card_id },
            },
            (PunchFlow::FindingCard { .. }, Answer::Card(None)) => PunchStep::Done(
                Err(RepoError::NotFound),
            ),
            (PunchFlow::Counting { create, capacity }, Answer::Count(count)) => {
                if has_free_slot(capacity as int, count as int) {
                    PunchStep::Ask {
                        flow: PunchFlow::Inserting,
                        statement: Statement::InsertPunch { row: create },
                    }
                } else {
                    PunchStep::Done(Err(RepoError::CapacityExceeded))
                }
            },
            (PunchFlow::Inserting, Answer::Inserted(punch)) => PunchStep::Done(Ok(punch)),
            _ => PunchStep::Done(Err(RepoError::StorageError)),
        }
    }

    pub fn begin(create: CreatePunch) -> (step: PunchStep)
        ensures
            step == Self::begun(create),
    {
        let card_id = create.card_id;
        PunchStep::Ask {
            flow: PunchFlow::FindingCard { create },
            statement: Statement::FindCard { card_id },
        }
    }

    pub fn step(self, answer: Answer) -> (step: PunchStep)
        ensures
            step == self.stepped(answer),
    {
        match (self, answer) {
            (PunchFlow::FindingCard { create }, Answer::Card(found)) => {
                match found_or_missing(found) {
                    Ok(card) => {
                        let card_id = create.card_id;
                        PunchStep::Ask {
                            flow: PunchFlow::Counting { create, capacity: card.capacity },
                            statement: Statement::CountPunches { card_id },
                        }
                    },
                    Err(e) => PunchStep::Done(Err(e)),
                }
            },
            (PunchFlow::Counting { create, capacity }, Answer::Count(count)) => {
                match admit_punch(capacity, count) {
                    Ok(()) => PunchStep::Ask {
                        flow: PunchFlow::Inserting,
                        statement: Statement::InsertPunch { row: create },
                    },
                    Err(e) => PunchStep::Done(Err(e)),
                }
            },
            (PunchFlow::Inserting, Answer::Inserted(punch)) => PunchStep::Done(Ok(punch)),
            _ => PunchStep::Done(Err(RepoError::StorageError)),
        }
    }
}

impl PunchStep {
    /// The number of statements that are still to be sent at most.
    pub open spec fn statements_left(self) -> nat {
        match self {
            PunchStep::Ask { flow: PunchFlow::FindingCard { .. }, .. } => 3,
            PunchStep::Ask { flow: PunchFlow::Counting { .. }, .. } => 2,
            PunchStep::Ask { flow: PunchFlow::Inserting, .. } => 1,
            PunchStep::Done(_) => 0,
        }
    }
}

/// Where the deletion of a card stands.
#[derive(Clone, Copy, Debug, PartialEq, Eq, Structural)]
pub enum DeleteFlow {
    /// The card row is being deleted.
    DeletingCard { card_id: i32 },
    /// The card row is gone; the punches on the card are being deleted.
    DeletingPunches,
}

/// The next step of the deletion of a card.
#[derive(Debug)]
pub enum DeleteStep {
    Ask { flow: DeleteFlow, statement: Statement },
    Done(Result<(), RepoError>),
}

impl DeleteFlow {
    /// The first step: delete the card row.
    pub open spec fn begun(card_id: i32) -> DeleteStep {
        DeleteStep::Ask {
            flow: DeleteFlow::DeletingCard { card_id },
            statement: Statement::DeleteCard { card_id },
        }
    }

    /// The step that follows an answer.
    ///
    /// No card row deleted ends the deletion with `NotFound`, and the punches
    /// are not touched. A statement that failed, or an answer to another
    /// statement than the one asked, ends it with `StorageError`.
    pub open spec fn stepped(self, answer: Answer) -> DeleteStep {
        match (self, answer) {
            (DeleteFlow::DeletingCard { card_id }, Answer::Deleted(rows_affected)) => {
                if rows_affected == 0 {
                    DeleteStep::Done(Err(RepoError::NotFound))
                } else {
                    DeleteStep::Ask {
                        flow: DeleteFlow::DeletingPunches,
                        statement: Statement::DeletePunches { card_id },
                    }
                }
            },
            (DeleteFlow::DeletingPunches, Answer::Deleted(_)) => DeleteStep::Done(Ok(())),
            _ => DeleteStep::Done(Err(RepoError::StorageError)),
        }
    }

    pub fn begin(card_id: i32) -> (step: DeleteStep)
        ensures
            step == Self::begun(card_id),
    {
        DeleteStep::Ask {
            flow: DeleteFlow::DeletingCard { card_id },
            statement: Statement::DeleteCard { card_id },
        }
    }

    pub fn step(self, answer: Answer) -> (step: DeleteStep)
        ensures
            step == self.stepped(answer),
    {
        match (self, answer) {
            (DeleteFlow::DeletingCard { card_id }, Answer::Deleted(rows_affected)) => {
                match deletion_outcome(rows_affected) {
                    Ok(()) => DeleteStep::Ask {
                        flow: DeleteFlow::DeletingPunches,
                        statement: Statement::DeletePunches { card_id },
                    },
                    Err(e) => DeleteStep::Done(Err(e)),
                }
            },
            (DeleteFlow::DeletingPunches, Answer::Deleted(_)) => DeleteStep::Done(Ok(())),
            _ => DeleteStep::Done(Err(RepoError::StorageError)),
        }
    }
}

impl DeleteStep {
    /// The number of statements that are still to be sent at most.
    pub open spec fn statements_left(self) -> nat {
        match self {
            DeleteStep::Ask { flow: DeleteFlow::DeletingCard { .. }, .. } => 2,
            DeleteStep::Ask { flow: DeleteFlow::DeletingPunches, .. } => 1,
            DeleteStep::Done(_) => 0,
        }
    }
}

/// Every answer brings a request to punch nearer to its end: no driver
/// sends more than three statements for it.
pub proof fn law_punch_flow_ends(flow: PunchFlow, statement: Statement, answer: Answer)
    ensures
        flow.stepped(answer).statements_left() < (PunchStep::Ask {
            flow,
            statement,
        }).statements_left() <= 3,
{
}

/// Every answer brings the deletion of a card nearer to its end: no driver
/// sends more than two statements for it.
pub proof fn law_delete_flow_ends(flow: DeleteFlow, statement: Statement, answer: Answer)
    ensures
        flow.stepped(answer).statements_left() < (DeleteStep::Ask {
            flow,
            statement,
        }).statements_left() <= 2,
{
}

} // verus!
