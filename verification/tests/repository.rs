use punchcards::{
    Card, CardPunch, CreateCard, CreatePerson, CreatePunch, FullCard, Person, Punch, RepoError,
    Store, Timestamp,
};

fn at(secs: i64) -> Timestamp {
    Timestamp { secs, nanos: 0 }
}

fn card(store: &mut Store, title: &str, capacity: i32) -> Card {
    Card::create(CreateCard { title: title.to_string(), capacity }, store).unwrap()
}

fn person(store: &mut Store, name: &str) -> Person {
    Person::create(
        CreatePerson { name: name.to_string(), email: None, phone_number: None },
        store,
    )
    .unwrap()
}

fn punch(store: &mut Store, card_id: i32, puncher_id: i32, reason: &str) -> Result<Punch, RepoError> {
    Punch::create(
        CreatePunch { card_id, puncher_id, date: at(1_700_000_000), reason: reason.to_string() },
        store,
    )
}

#[test]
fn new_store_lists_nothing() {
    let store = Store::new();
    assert_eq!(FullCard::all_cards(&store), Ok(vec![]));
    assert_eq!(Card::all_cards(&store), Ok(vec![]));
    assert_eq!(Person::all_persons(&store), Ok(vec![]));
}

#[test]
fn created_card_is_listed_with_no_punches_and_its_capacity() {
    let mut store = Store::new();
    let created =
        Card::create(CreateCard { title: "Tea".to_string(), capacity: 7 }, &mut store).unwrap();
    assert_eq!(created, Card { id: 1, title: "Tea".to_string(), capacity: 7 });
    let listed = FullCard::all_cards(&store).unwrap();
    assert_eq!(
        listed,
        vec![FullCard { id: 1, title: "Tea".to_string(), capacity: 7, punches: vec![] }]
    );
}

#[test]
fn created_card_follows_the_cards_listed_before() {
    let mut store = Store::new();
    let alice = person(&mut store, "Alice");
    let first = card(&mut store, "First", 3);
    punch(&mut store, first.id, alice.id, "one").unwrap();
    let before = FullCard::all_cards(&store).unwrap();
    let second = card(&mut store, "Second", i32::MAX);
    let after = FullCard::all_cards(&store).unwrap();
    assert_eq!(after.len(), 2);
    assert_eq!(after[0], before[0]);
    assert_eq!(
        after[1],
        FullCard { id: second.id, title: "Second".to_string(), capacity: i32::MAX, punches: vec![] }
    );
}

#[test]
fn identities_count_up_from_one_in_each_table() {
    let mut store = Store::new();
    assert_eq!(card(&mut store, "a", 1).id, 1);
    assert_eq!(card(&mut store, "b", 1).id, 2);
    assert_eq!(person(&mut store, "p").id, 1);
    assert_eq!(person(&mut store, "q").id, 2);
    assert_eq!(punch(&mut store, 1, 1, "x").unwrap().id, 1);
    assert_eq!(punch(&mut store, 2, 2, "y").unwrap().id, 2);
}

#[test]
fn identity_of_a_deleted_card_is_not_handed_out_again() {
    let mut store = Store::new();
    card(&mut store, "a", 1);
    card(&mut store, "b", 1);
    assert_eq!(Card::delete(2, &mut store), Ok(()));
    assert_eq!(card(&mut store, "c", 1).id, 3);
    assert_eq!(
        Card::all_cards(&store).unwrap(),
        vec![
            Card { id: 1, title: "a".to_string(), capacity: 1 },
            Card { id: 3, title: "c".to_string(), capacity: 1 },
        ]
    );
}

#[test]
fn punch_returns_the_row_it_stored() {
    let mut store = Store::new();
    let c = card(&mut store, "Coffee", 2);
    let p = person(&mut store, "Alice");
    let stored = Punch::create(
        CreatePunch {
            card_id: c.id,
            puncher_id: p.id,
            date: Timestamp { secs: 1_234_567_890, nanos: 987_654_321 },
            reason: "latte".to_string(),
        },
        &mut store,
    );
    assert_eq!(
        stored,
        Ok(Punch {
            id: 1,
            card_id: 1,
            puncher_id: 1,
            date: Timestamp { secs: 1_234_567_890, nanos: 987_654_321 },
            reason: "latte".to_string(),
        })
    );
    assert_eq!(Punch::current_punch_count(c.id, &store), Ok(1));
}

#[test]
fn punch_on_a_full_card_is_refused_and_stores_nothing() {
    let mut store = Store::new();
    let c = card(&mut store, "Single", 1);
    let p = person(&mut store, "Bob");
    assert!(punch(&mut store, c.id, p.id, "first").is_ok());
    let before = FullCard::all_cards(&store).unwrap();
    assert_eq!(punch(&mut store, c.id, p.id, "second"), Err(RepoError::CapacityExceeded));
    assert_eq!(Punch::current_punch_count(c.id, &store), Ok(1));
    assert_eq!(FullCard::all_cards(&store).unwrap(), before);
    // the refused request took no identity either
    let other = card(&mut store, "Other", 1);
    assert_eq!(punch(&mut store, other.id, p.id, "third").unwrap().id, 2);
}

#[test]
fn punch_on_an_unknown_card_is_not_found_and_stores_nothing() {
    let mut store = Store::new();
    let c = card(&mut store, "Known", 5);
    let p = person(&mut store, "Bob");
    assert_eq!(punch(&mut store, 99, p.id, "nope"), Err(RepoError::NotFound));
    assert_eq!(punch(&mut store, 0, p.id, "nope"), Err(RepoError::NotFound));
    assert_eq!(punch(&mut store, -1, p.id, "nope"), Err(RepoError::NotFound));
    assert_eq!(Punch::current_punch_count(c.id, &store), Ok(0));
    assert_eq!(Punch::current_punch_count(99, &store), Ok(0));
    assert_eq!(
        FullCard::all_cards(&store).unwrap(),
        vec![FullCard { id: 1, title: "Known".to_string(), capacity: 5, punches: vec![] }]
    );
}

#[test]
fn punch_by_an_unknown_person_is_a_storage_error_and_stores_nothing() {
    let mut store = Store::new();
    let c = card(&mut store, "Known", 5);
    assert_eq!(punch(&mut store, c.id, 1, "ghost"), Err(RepoError::StorageError));
    let p = person(&mut store, "Bob");
    assert_eq!(punch(&mut store, c.id, p.id + 1, "ghost"), Err(RepoError::StorageError));
    assert_eq!(Punch::current_punch_count(c.id, &store), Ok(0));
    assert_eq!(punch(&mut store, c.id, p.id, "real").unwrap().id, 1);
}

#[test]
fn unknown_card_is_reported_before_unknown_person() {
    let mut store = Store::new();
    assert_eq!(punch(&mut store, 1, 1, "nobody, nowhere"), Err(RepoError::NotFound));
}

#[test]
fn full_card_is_reported_before_unknown_person() {
    let mut store = Store::new();
    let c = card(&mut store, "None", 0);
    assert_eq!(punch(&mut store, c.id, 42, "ghost"), Err(RepoError::CapacityExceeded));
}

#[test]
fn card_without_capacity_can_never_be_punched() {
    let mut store = Store::new();
    let p = person(&mut store, "Bob");
    let zero = card(&mut store, "Zero", 0);
    let negative = card(&mut store, "Negative", -3);
    assert_eq!(negative.capacity, -3);
    assert_eq!(punch(&mut store, zero.id, p.id, "x"), Err(RepoError::CapacityExceeded));
    assert_eq!(punch(&mut store, negative.id, p.id, "x"), Err(RepoError::CapacityExceeded));
    assert_eq!(Punch::current_punch_count(zero.id, &store), Ok(0));
    assert_eq!(Punch::current_punch_count(negative.id, &store), Ok(0));
}

#[test]
fn count_never_exceeds_capacity_after_any_punch() {
    let mut store = Store::new();
    let p = person(&mut store, "Bob");
    let small = card(&mut store, "Small", 2);
    let large = card(&mut store, "Large", 4);
    let mut granted = 0;
    for round in 0..10 {
        let target = if round % 3 == 0 { small.id } else { large.id };
        if punch(&mut store, target, p.id, "again").is_ok() {
            granted += 1;
        }
        let on_small = Punch::current_punch_count(small.id, &store).unwrap();
        let on_large = Punch::current_punch_count(large.id, &store).unwrap();
        assert!(on_small <= 2);
        assert!(on_large <= 4);
    }
    assert_eq!(granted, 6);
    assert_eq!(Punch::current_punch_count(small.id, &store), Ok(2));
    assert_eq!(Punch::current_punch_count(large.id, &store), Ok(4));
}

#[test]
fn delete_removes_the_card_and_all_its_punches() {
    let mut store = Store::new();
    let p = person(&mut store, "Bob");
    let keep = card(&mut store, "Keep", 3);
    let gone = card(&mut store, "Gone", 3);
    punch(&mut store, gone.id, p.id, "g1").unwrap();
    punch(&mut store, keep.id, p.id, "k1").unwrap();
    punch(&mut store, gone.id, p.id, "g2").unwrap();
    punch(&mut store, keep.id, p.id, "k2").unwrap();

    assert_eq!(Card::delete(gone.id, &mut store), Ok(()));

    assert_eq!(Card::find_by_id(gone.id, &store), Err(RepoError::NotFound));
    assert_eq!(Punch::current_punch_count(gone.id, &store), Ok(0));
    assert_eq!(CardPunch::punches(gone.id, &store), Ok(vec![]));
    assert_eq!(Card::all_cards(&store).unwrap(), vec![keep.clone()]);
    let listed = FullCard::all_cards(&store).unwrap();
    assert_eq!(listed.len(), 1);
    assert_eq!(listed[0].id, keep.id);
    let reasons: Vec<&str> = listed[0].punches.iter().map(|p| p.reason.as_str()).collect();
    assert_eq!(reasons, vec!["k1", "k2"]);
    let ids: Vec<i32> = listed[0].punches.iter().map(|p| p.id).collect();
    assert_eq!(ids, vec![2, 4]);
    assert_eq!(Person::all_persons(&store).unwrap(), vec![p]);
}

#[test]
fn delete_of_an_unknown_card_is_not_found_and_changes_nothing() {
    let mut store = Store::new();
    let p = person(&mut store, "Bob");
    let c = card(&mut store, "Only", 3);
    punch(&mut store, c.id, p.id, "one").unwrap();
    let before = FullCard::all_cards(&store).unwrap();
    assert_eq!(Card::delete(2, &mut store), Err(RepoError::NotFound));
    assert_eq!(Card::delete(0, &mut store), Err(RepoError::NotFound));
    assert_eq!(FullCard::all_cards(&store).unwrap(), before);
}

#[test]
fn delete_twice_is_not_found_the_second_time() {
    let mut store = Store::new();
    let c = card(&mut store, "Once", 1);
    assert_eq!(Card::delete(c.id, &mut store), Ok(()));
    assert_eq!(Card::delete(c.id, &mut store), Err(RepoError::NotFound));
    assert_eq!(FullCard::all_cards(&store), Ok(vec![]));
}

#[test]
fn deleted_card_frees_nothing_for_other_cards() {
    let mut store = Store::new();
    let p = person(&mut store, "Bob");
    let full = card(&mut store, "Full", 1);
    let gone = card(&mut store, "Gone", 1);
    punch(&mut store, full.id, p.id, "f").unwrap();
    punch(&mut store, gone.id, p.id, "g").unwrap();
    Card::delete(gone.id, &mut store).unwrap();
    assert_eq!(punch(&mut store, full.id, p.id, "again"), Err(RepoError::CapacityExceeded));
    assert_eq!(punch(&mut store, gone.id, p.id, "again"), Err(RepoError::NotFound));
}

#[test]
fn person_without_email_and_phone_is_listed_without_them() {
    let mut store = Store::new();
    let created = Person::create(
        CreatePerson { name: "A".to_string(), email: None, phone_number: None },
        &mut store,
    )
    .unwrap();
    assert_eq!(created, Person { id: 1, name: "A".to_string(), email: None, phone_number: None });
    let people = Person::all_persons(&store).unwrap();
    assert_eq!(people.len(), 1);
    assert_eq!(people[0].name, "A");
    assert_eq!(people[0].email, None);
    assert_eq!(people[0].phone_number, None);
    assert_ne!(people[0].email, Some(String::new()));
    assert_ne!(people[0].phone_number, Some(String::new()));
}

#[test]
fn person_keeps_the_fields_that_were_given() {
    let mut store = Store::new();
    person(&mut store, "First");
    let created = Person::create(
        CreatePerson {
            name: "Carol".to_string(),
            email: Some("carol@example.org".to_string()),
            phone_number: Some(String::new()),
        },
        &mut store,
    )
    .unwrap();
    assert_eq!(created.id, 2);
    let people = Person::all_persons(&store).unwrap();
    assert_eq!(
        people,
        vec![
            Person { id: 1, name: "First".to_string(), email: None, phone_number: None },
            Person {
                id: 2,
                name: "Carol".to_string(),
                email: Some("carol@example.org".to_string()),
                phone_number: Some(String::new()),
            },
        ]
    );
}

#[test]
fn coffee_card_takes_two_punches_and_refuses_the_third() {
    let mut store = Store::new();
    let coffee = card(&mut store, "Coffee", 2);
    let alice = person(&mut store, "Alice");
    assert!(punch(&mut store, coffee.id, alice.id, "latte").is_ok());
    assert!(punch(&mut store, coffee.id, alice.id, "latte").is_ok());
    assert_eq!(punch(&mut store, coffee.id, alice.id, "latte"), Err(RepoError::CapacityExceeded));
    let listed = FullCard::all_cards(&store).unwrap();
    assert_eq!(listed.len(), 1);
    assert_eq!(listed[0].title, "Coffee");
    assert_eq!(listed[0].capacity, 2);
    assert_eq!(listed[0].punches.len(), 2);
    let shown = CardPunch {
        id: 1,
        puncher: Person { id: 1, name: "Alice".to_string(), email: None, phone_number: None },
        date: at(1_700_000_000),
        reason: "latte".to_string(),
    };
    assert_eq!(listed[0].punches[0], shown);
    assert_eq!(listed[0].punches[1], CardPunch { id: 2, ..shown.clone() });
}

#[test]
fn punches_of_a_card_come_oldest_first_with_their_punchers() {
    let mut store = Store::new();
    let c = card(&mut store, "Shared", 5);
    let other = card(&mut store, "Other", 5);
    let alice = person(&mut store, "Alice");
    let bob = Person::create(
        CreatePerson {
            name: "Bob".to_string(),
            email: Some("bob@example.org".to_string()),
            phone_number: Some("555-0100".to_string()),
        },
        &mut store,
    )
    .unwrap();
    Punch::create(
        CreatePunch { card_id: c.id, puncher_id: bob.id, date: at(30), reason: "late".to_string() },
        &mut store,
    )
    .unwrap();
    punch(&mut store, other.id, alice.id, "elsewhere").unwrap();
    Punch::create(
        CreatePunch { card_id: c.id, puncher_id: alice.id, date: at(10), reason: "early".to_string() },
        &mut store,
    )
    .unwrap();
    assert_eq!(
        CardPunch::punches(c.id, &store).unwrap(),
        vec![
            CardPunch { id: 1, puncher: bob.clone(), date: at(30), reason: "late".to_string() },
            CardPunch { id: 3, puncher: alice.clone(), date: at(10), reason: "early".to_string() },
        ]
    );
    assert_eq!(CardPunch::punches(77, &store), Ok(vec![]));
}

#[test]
fn find_by_id_yields_the_card_with_that_identity() {
    let mut store = Store::new();
    card(&mut store, "a", 1);
    let b = card(&mut store, "b", 2);
    card(&mut store, "c", 3);
    assert_eq!(Card::find_by_id(2, &store), Ok(b));
    assert_eq!(Card::find_by_id(4, &store), Err(RepoError::NotFound));
    assert_eq!(Card::find_by_id(i32::MIN, &store), Err(RepoError::NotFound));
}

#[test]
fn copies_equal_what_they_were_copied_from() {
    let p = Person {
        id: 3,
        name: "N".to_string(),
        email: Some("e".to_string()),
        phone_number: None,
    };
    assert_eq!(p.clone(), p);
    let shown = CardPunch { id: 9, puncher: p.clone(), date: at(5), reason: "r".to_string() };
    assert_eq!(shown.clone(), shown);
    let full = FullCard { id: 1, title: "t".to_string(), capacity: 2, punches: vec![shown] };
    assert_eq!(full.clone(), full);
    let c = Card { id: 1, title: "t".to_string(), capacity: 2 };
    assert_eq!(c.clone(), c);
    let punch = Punch { id: 1, card_id: 2, puncher_id: 3, date: at(4), reason: "five".to_string() };
    assert_eq!(punch.clone(), punch);
    let create = CreatePunch { card_id: 2, puncher_id: 3, date: at(4), reason: "five".to_string() };
    assert_eq!(create.clone(), create);
    let create = CreateCard { title: "t".to_string(), capacity: 2 };
    assert_eq!(create.clone(), create);
    let create = CreatePerson { name: "n".to_string(), email: None, phone_number: Some("1".to_string()) };
    assert_eq!(create.clone(), create);
}

#[test]
fn default_store_is_a_new_store() {
    let mut store = Store::default();
    assert_eq!(FullCard::all_cards(&store), Ok(vec![]));
    assert_eq!(card(&mut store, "first", 1).id, 1);
}
