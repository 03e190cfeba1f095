use punchcards::flow::{Answer, DeleteFlow, DeleteStep, PunchFlow, PunchStep, Statement};
use punchcards::{Card, CreatePunch, Punch, RepoError, Timestamp};

fn request() -> CreatePunch {
    CreatePunch {
        card_id: 7,
        puncher_id: 3,
        date: Timestamp { secs: 100, nanos: 5 },
        reason: "flat white".to_string(),
    }
}

fn card(capacity: i32) -> Card {
    Card { id: 7, title: "Coffee".to_string(), capacity }
}

fn stored() -> Punch {
    Punch {
        id: 12,
        card_id: 7,
        puncher_id: 3,
        date: Timestamp { secs: 100, nanos: 5 },
        reason: "flat white".to_string(),
    }
}

fn asked(step: PunchStep) -> (PunchFlow, Statement) {
    match step {
        PunchStep::Ask { flow, statement } => (flow, statement),
        PunchStep::Done(outcome) => panic!("done too early: {:?}", outcome),
    }
}

fn done(step: PunchStep) -> Result<Punch, RepoError> {
    match step {
        PunchStep::Done(outcome) => outcome,
        PunchStep::Ask { statement, .. } => panic!("asks for more: {:?}", statement),
    }
}

#[test]
fn punch_asks_for_card_then_count_then_insert() {
    let (flow, statement) = asked(PunchFlow::begin(request()));
    assert!(matches!(statement, Statement::FindCard { card_id: 7 }));
    let (flow, statement) = asked(flow.step(Answer::Card(Some(card(2)))));
    assert!(matches!(statement, Statement::CountPunches { card_id: 7 }));
    let (flow, statement) = asked(flow.step(Answer::Count(1)));
    match statement {
        Statement::InsertPunch { row } => assert_eq!(row, request()),
        other => panic!("asks for {:?}", other),
    }
    assert_eq!(done(flow.step(Answer::Inserted(stored()))), Ok(stored()));
}

#[test]
fn punch_ends_with_not_found_when_the_card_is_missing() {
    let (flow, _) = asked(PunchFlow::begin(request()));
    assert_eq!(done(flow.step(Answer::Card(None))), Err(RepoError::NotFound));
}

#[test]
fn punch_ends_with_capacity_exceeded_when_no_slot_is_free() {
    for (capacity, count) in [(2, 2), (2, 3), (0, 0), (-1, 0), (i32::MAX, i64::MAX)] {
        let (flow, _) = asked(PunchFlow::begin(request()));
        let (flow, _) = asked(flow.step(Answer::Card(Some(card(capacity)))));
        assert_eq!(done(flow.step(Answer::Count(count))), Err(RepoError::CapacityExceeded));
    }
}

#[test]
fn punch_ends_with_storage_error_when_a_statement_fails() {
    let (flow, _) = asked(PunchFlow::begin(request()));
    assert_eq!(done(flow.step(Answer::Failed)), Err(RepoError::StorageError));

    let (flow, _) = asked(PunchFlow::begin(request()));
    let (flow, _) = asked(flow.step(Answer::Card(Some(card(2)))));
    assert_eq!(done(flow.step(Answer::Failed)), Err(RepoError::StorageError));

    let (flow, _) = asked(PunchFlow::begin(request()));
    let (flow, _) = asked(flow.step(Answer::Card(Some(card(2)))));
    let (flow, _) = asked(flow.step(Answer::Count(0)));
    assert_eq!(done(flow.step(Answer::Failed)), Err(RepoError::StorageError));
}

#[test]
fn punch_ends_with_storage_error_on_an_answer_that_does_not_fit() {
    let (flow, _) = asked(PunchFlow::begin(request()));
    assert_eq!(done(flow.step(Answer::Count(0))), Err(RepoError::StorageError));

    let (flow, _) = asked(PunchFlow::begin(request()));
    let (flow, _) = asked(flow.step(Answer::Card(Some(card(2)))));
    assert_eq!(done(flow.step(Answer::Deleted(1))), Err(RepoError::StorageError));

    let (flow, _) = asked(PunchFlow::begin(request()));
    let (flow, _) = asked(flow.step(Answer::Card(Some(card(2)))));
    let (flow, _) = asked(flow.step(Answer::Count(0)));
    assert_eq!(done(flow.step(Answer::Card(None))), Err(RepoError::StorageError));
}

#[test]
fn delete_asks_for_the_card_row_then_for_its_punches() {
    let (flow, statement) = match DeleteFlow::begin(4) {
        DeleteStep::Ask { flow, statement } => (flow, statement),
        DeleteStep::Done(outcome) => panic!("done too early: {:?}", outcome),
    };
    assert_eq!(flow, DeleteFlow::DeletingCard { card_id: 4 });
    assert!(matches!(statement, Statement::DeleteCard { card_id: 4 }));
    let (flow, statement) = match flow.step(Answer::Deleted(1)) {
        DeleteStep::Ask { flow, statement } => (flow, statement),
        DeleteStep::Done(outcome) => panic!("done too early: {:?}", outcome),
    };
    assert_eq!(flow, DeleteFlow::DeletingPunches);
    assert!(matches!(statement, Statement::DeletePunches { card_id: 4 }));
    assert!(matches!(flow.step(Answer::Deleted(0)), DeleteStep::Done(Ok(()))));
    assert!(matches!(flow.step(Answer::Deleted(9)), DeleteStep::Done(Ok(()))));
}

#[test]
fn delete_ends_with_not_found_when_no_card_row_was_deleted() {
    let flow = DeleteFlow::DeletingCard { card_id: 4 };
    assert!(matches!(flow.step(Answer::Deleted(0)), DeleteStep::Done(Err(RepoError::NotFound))));
}

#[test]
fn delete_ends_with_storage_error_when_a_statement_fails() {
    let first = DeleteFlow::DeletingCard { card_id: 4 };
    let second = DeleteFlow::DeletingPunches;
    assert!(matches!(first.step(Answer::Failed), DeleteStep::Done(Err(RepoError::StorageError))));
    assert!(matches!(second.step(Answer::Failed), DeleteStep::Done(Err(RepoError::StorageError))));
    assert!(matches!(second.step(Answer::Count(1)), DeleteStep::Done(Err(RepoError::StorageError))));
    assert!(matches!(
        first.step(Answer::Card(None)),
        DeleteStep::Done(Err(RepoError::StorageError))
    ));
}
