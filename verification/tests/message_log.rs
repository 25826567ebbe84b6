use message_board::MessageBoard;

#[test]
fn writes_and_reads_messages() {
    let mut board = MessageBoard::new();

    board.write_message(String::from("Hello"));
    board.write_message(String::from("Soroban"));

    let messages = board.get_messages();
    assert_eq!(messages.len(), 2);
    assert_eq!(messages[0], String::from("Hello"));
    assert_eq!(messages[1], String::from("Soroban"));
    assert_eq!(board.get_message_count(), 2);

    board.clear_messages();
    assert_eq!(board.get_message_count(), 0);
}

#[test]
fn fresh_store_reads_empty() {
    let board = MessageBoard::new();
    assert_eq!(board.get_messages(), Vec::<String>::new());
    assert_eq!(board.get_message_count(), 0);
}

#[test]
fn appends_read_back_exactly() {
    let entries = vec![
        String::from("one"),
        String::from("two"),
        String::from("three"),
        String::from("four"),
        String::from("five"),
    ];
    let mut board = MessageBoard::new();
    for entry in &entries {
        board.write_message(entry.clone());
    }
    assert_eq!(board.get_messages(), entries);
    assert_eq!(board.get_message_count(), 5);
}

#[test]
fn duplicate_appends_are_kept() {
    let mut board = MessageBoard::new();
    board.write_message(String::from("Hello"));
    board.write_message(String::from("Hello"));
    assert_eq!(
        board.get_messages(),
        vec![String::from("Hello"), String::from("Hello")]
    );
    assert_eq!(board.get_message_count(), 2);
}

#[test]
fn repeated_reads_observe_same_value() {
    let mut board = MessageBoard::new();
    board.write_message(String::from("Hello"));
    let first = board.get_messages();
    let second = board.get_messages();
    assert_eq!(first, second);
    assert_eq!(board.get_message_count(), board.get_message_count());
}

#[test]
fn clear_resets_regardless_of_prior_contents() {
    let mut board = MessageBoard::new();
    board.write_message(String::from("Hello"));
    board.write_message(String::from("Soroban"));
    board.clear_messages();
    assert_eq!(board.get_messages(), Vec::<String>::new());
    assert_eq!(board.get_message_count(), 0);

    let mut empty_board = MessageBoard::new();
    empty_board.clear_messages();
    assert_eq!(empty_board.get_messages(), Vec::<String>::new());
    assert_eq!(empty_board.get_message_count(), 0);
}

#[test]
fn absent_slot_reads_as_empty() {
    let board = MessageBoard::from_slot(None);
    assert_eq!(board.get_messages(), Vec::<String>::new());
    assert_eq!(board.get_message_count(), 0);
}

#[test]
fn slot_round_trip_keeps_entries() {
    let board = MessageBoard::from_slot(Some(vec![String::from("Hello")]));
    assert_eq!(board.get_messages(), vec![String::from("Hello")]);
    assert_eq!(board.into_slot(), Some(vec![String::from("Hello")]));
}

#[test]
fn clear_unsets_the_key_while_append_sets_it() {
    let board = MessageBoard::new();
    assert_eq!(board.into_slot(), None);

    let mut board = MessageBoard::new();
    board.write_message(String::from("Hello"));
    board.clear_messages();
    assert_eq!(board.into_slot(), None);

    let mut board = MessageBoard::from_slot(None);
    board.write_message(String::from("Hello"));
    assert_eq!(board.into_slot(), Some(vec![String::from("Hello")]));
}
