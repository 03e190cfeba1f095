use punchcards::menu::{menu_choice, optional_text, puncher_choice, MenuChoice, Puncher};
use punchcards::{CardPunch, FullCard, Person, Timestamp};

#[test]
fn menu_without_cards_offers_create_and_quit() {
    assert_eq!(menu_choice(true, 0), Some(MenuChoice::CreateNew));
    assert_eq!(menu_choice(true, 1), Some(MenuChoice::Quit));
    assert_eq!(menu_choice(true, 2), None);
    assert_eq!(menu_choice(true, usize::MAX), None);
}

#[test]
fn menu_with_cards_offers_punch_create_delete_and_quit() {
    assert_eq!(menu_choice(false, 0), Some(MenuChoice::PunchExisting));
    assert_eq!(menu_choice(false, 1), Some(MenuChoice::CreateNew));
    assert_eq!(menu_choice(false, 2), Some(MenuChoice::DeleteExisting));
    assert_eq!(menu_choice(false, 3), Some(MenuChoice::Quit));
    assert_eq!(menu_choice(false, 4), None);
}

#[test]
fn last_entry_of_the_people_list_is_someone_new() {
    assert_eq!(puncher_choice(0, 0), Some(Puncher::NewPerson));
    assert_eq!(puncher_choice(3, 0), Some(Puncher::Existing(0)));
    assert_eq!(puncher_choice(3, 2), Some(Puncher::Existing(2)));
    assert_eq!(puncher_choice(3, 3), Some(Puncher::NewPerson));
    assert_eq!(puncher_choice(3, 4), None);
}

#[test]
fn nothing_typed_means_absent() {
    assert_eq!(optional_text(String::new()), None);
    assert_eq!(optional_text(" ".to_string()), Some(" ".to_string()));
    assert_eq!(optional_text("a@b.c".to_string()), Some("a@b.c".to_string()));
}

#[test]
fn slots_left_is_capacity_less_punches() {
    let shown = CardPunch {
        id: 1,
        puncher: Person { id: 1, name: "P".to_string(), email: None, phone_number: None },
        date: Timestamp { secs: 0, nanos: 0 },
        reason: String::new(),
    };
    let mut card = FullCard { id: 1, title: "T".to_string(), capacity: 2, punches: vec![] };
    assert_eq!(card.slots_left(), 2);
    card.punches.push(shown.clone());
    assert_eq!(card.slots_left(), 1);
    card.punches.push(shown.clone());
    assert_eq!(card.slots_left(), 0);
    card.punches.push(shown);
    assert_eq!(card.slots_left(), -1);
    card.capacity = i32::MIN;
    assert_eq!(card.slots_left(), i32::MIN as i128 - 3);
}
