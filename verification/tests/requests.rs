use personal_notes::address::note_address;
use personal_notes::{
    create_note, delete_note, update_note, Address, CreateNote, DeleteNote, ErrorCode, Ledger, UpdateNote,
};

fn key(byte: u8) -> Address {
    Address { bytes: [byte; 32] }
}

fn text(s: &str) -> String {
    s.to_string()
}

#[test]
fn scenario_create_update_delete() {
    let user = key(7);
    let note = note_address(&user, 1).unwrap();
    let mut ledger = Ledger::new(1_000);

    let created = create_note(&mut ledger, CreateNote { note, user }, 1, text("Hello"), text("World"));
    assert_eq!(created, Ok(()));
    {
        let stored = ledger.get(&note).unwrap();
        assert_eq!(stored.title, "Hello");
        assert_eq!(stored.content, "World");
        assert_eq!(stored.created_at, 1_000);
    }

    ledger.advance(1_060);
    let updated = update_note(&mut ledger, UpdateNote { note, user }, 1, text("Hi"), text("There"));
    assert_eq!(updated, Ok(()));
    {
        let stored = ledger.get(&note).unwrap();
        assert_eq!(stored.title, "Hi");
        assert_eq!(stored.content, "There");
        assert_eq!(stored.created_at, 1_000);
        assert_eq!(stored.updated_at, 1_060);
    }

    let deleted = delete_note(&mut ledger, DeleteNote { note, user }, 1);
    assert_eq!(deleted, Ok(()));
    assert!(ledger.get(&note).is_none());
    let again = update_note(&mut ledger, UpdateNote { note, user }, 1, text("Hi"), text("There"));
    assert_eq!(again, Err(ErrorCode::NotFound));
}

#[test]
fn created_note_reads_back_every_field() {
    let user = key(1);
    let id = 0xDEAD_BEEF_0000_0042u64;
    let note = note_address(&user, id).unwrap();
    let mut ledger = Ledger::new(-5);
    assert_eq!(create_note(&mut ledger, CreateNote { note, user }, id, text("t"), text("c")), Ok(()));
    let stored = ledger.get(&note).unwrap();
    assert_eq!(stored.author, user);
    assert_eq!(stored.id, id);
    assert_eq!(stored.title, "t");
    assert_eq!(stored.content, "c");
    assert_eq!(stored.created_at, -5);
    assert_eq!(stored.updated_at, -5);
}

#[test]
fn empty_texts_are_accepted() {
    let user = key(1);
    let note = note_address(&user, 0).unwrap();
    let mut ledger = Ledger::new(0);
    assert_eq!(create_note(&mut ledger, CreateNote { note, user }, 0, String::new(), String::new()), Ok(()));
    let stored = ledger.get(&note).unwrap();
    assert_eq!(stored.title, "");
    assert_eq!(stored.content, "");
}

#[test]
fn title_of_51_bytes_is_refused_and_the_address_stays_free() {
    let user = key(2);
    let note = note_address(&user, 9).unwrap();
    let mut ledger = Ledger::new(10);
    let refused = create_note(&mut ledger, CreateNote { note, user }, 9, "a".repeat(51), text("ok"));
    assert_eq!(refused, Err(ErrorCode::TitleTooLong));
    assert!(ledger.get(&note).is_none());
    let served = create_note(&mut ledger, CreateNote { note, user }, 9, "a".repeat(50), text("ok"));
    assert_eq!(served, Ok(()));
    assert_eq!(ledger.get(&note).unwrap().title.len(), 50);
}

#[test]
fn content_of_201_bytes_is_refused_and_the_address_stays_free() {
    let user = key(2);
    let note = note_address(&user, 9).unwrap();
    let mut ledger = Ledger::new(10);
    let refused = create_note(&mut ledger, CreateNote { note, user }, 9, text("ok"), "b".repeat(201));
    assert_eq!(refused, Err(ErrorCode::ContentTooLong));
    assert!(ledger.get(&note).is_none());
    let served = create_note(&mut ledger, CreateNote { note, user }, 9, text("ok"), "b".repeat(200));
    assert_eq!(served, Ok(()));
    assert_eq!(ledger.get(&note).unwrap().content.len(), 200);
}

#[test]
fn title_is_judged_before_content() {
    let user = key(2);
    let note = note_address(&user, 9).unwrap();
    let mut ledger = Ledger::new(10);
    let refused = create_note(&mut ledger, CreateNote { note, user }, 9, "a".repeat(51), "b".repeat(201));
    assert_eq!(refused, Err(ErrorCode::TitleTooLong));
    assert_eq!(create_note(&mut ledger, CreateNote { note, user }, 9, text("t"), text("c")), Ok(()));
    let refused = update_note(&mut ledger, UpdateNote { note, user }, 9, "a".repeat(51), "b".repeat(201));
    assert_eq!(refused, Err(ErrorCode::TitleTooLong));
}

#[test]
fn lengths_are_counted_in_bytes() {
    let user = key(3);
    let note = note_address(&user, 1).unwrap();
    let mut ledger = Ledger::new(10);
    // 17 characters of three bytes each: 51 bytes.
    let refused = create_note(&mut ledger, CreateNote { note, user }, 1, "\u{20AC}".repeat(17), text("c"));
    assert_eq!(refused, Err(ErrorCode::TitleTooLong));
    // 25 characters of two bytes each: 50 bytes; 50 of four bytes each: 200 bytes.
    let served =
        create_note(&mut ledger, CreateNote { note, user }, 1, "\u{E9}".repeat(25), "\u{1F600}".repeat(50));
    assert_eq!(served, Ok(()));
    // 67 characters of three bytes each: 201 bytes.
    let refused = update_note(&mut ledger, UpdateNote { note, user }, 1, text("t"), "\u{20AC}".repeat(67));
    assert_eq!(refused, Err(ErrorCode::ContentTooLong));
}

#[test]
fn second_create_is_refused_and_the_first_note_stays() {
    let user = key(4);
    let note = note_address(&user, 5).unwrap();
    let mut ledger = Ledger::new(100);
    assert_eq!(create_note(&mut ledger, CreateNote { note, user }, 5, text("first"), text("one")), Ok(()));
    ledger.advance(200);
    let second = create_note(&mut ledger, CreateNote { note, user }, 5, text("second"), text("two"));
    assert_eq!(second, Err(ErrorCode::AddressOccupied));
    let same = create_note(&mut ledger, CreateNote { note, user }, 5, text("first"), text("one"));
    assert_eq!(same, Err(ErrorCode::AddressOccupied));
    let stored = ledger.get(&note).unwrap();
    assert_eq!(stored.title, "first");
    assert_eq!(stored.content, "one");
    assert_eq!(stored.created_at, 100);
    assert_eq!(stored.updated_at, 100);
}

#[test]
fn occupied_address_is_refused_before_the_texts_are_judged() {
    let user = key(4);
    let note = note_address(&user, 5).unwrap();
    let mut ledger = Ledger::new(100);
    assert_eq!(create_note(&mut ledger, CreateNote { note, user }, 5, text("first"), text("one")), Ok(()));
    let second = create_note(&mut ledger, CreateNote { note, user }, 5, "a".repeat(51), text("two"));
    assert_eq!(second, Err(ErrorCode::AddressOccupied));
}

#[test]
fn update_of_nothing_is_refused_and_creates_nothing() {
    let user = key(5);
    let note = note_address(&user, 3).unwrap();
    let mut ledger = Ledger::new(100);
    let refused = update_note(&mut ledger, UpdateNote { note, user }, 3, text("t"), text("c"));
    assert_eq!(refused, Err(ErrorCode::NotFound));
    assert!(ledger.get(&note).is_none());
    let refused = update_note(&mut ledger, UpdateNote { note, user }, 3, "a".repeat(51), text("c"));
    assert_eq!(refused, Err(ErrorCode::NotFound));
}

#[test]
fn update_by_another_signer_is_refused_and_changes_nothing() {
    let first = key(6);
    let second = key(8);
    let note = note_address(&first, 1).unwrap();
    let mut ledger = Ledger::new(100);
    assert_eq!(create_note(&mut ledger, CreateNote { note, user: first }, 1, text("mine"), text("own")), Ok(()));
    ledger.advance(150);

    let refused = update_note(&mut ledger, UpdateNote { note, user: second }, 1, text("yours"), text("now"));
    assert_eq!(refused, Err(ErrorCode::Unauthorized));
    let stored = ledger.get(&note).unwrap();
    assert_eq!(stored.author, first);
    assert_eq!(stored.title, "mine");
    assert_eq!(stored.content, "own");
    assert_eq!(stored.updated_at, 100);

    // At the second signer's own address for the identifier there is nothing.
    let own = note_address(&second, 1).unwrap();
    assert_ne!(own, note);
    let refused = update_note(&mut ledger, UpdateNote { note: own, user: second }, 1, text("yours"), text("now"));
    assert_eq!(refused, Err(ErrorCode::NotFound));
}

#[test]
fn delete_by_another_signer_is_refused_and_changes_nothing() {
    let first = key(6);
    let second = key(8);
    let note = note_address(&first, 1).unwrap();
    let mut ledger = Ledger::new(100);
    assert_eq!(create_note(&mut ledger, CreateNote { note, user: first }, 1, text("mine"), text("own")), Ok(()));
    let refused = delete_note(&mut ledger, DeleteNote { note, user: second }, 1);
    assert_eq!(refused, Err(ErrorCode::Unauthorized));
    assert_eq!(ledger.get(&note).unwrap().title, "mine");
}

#[test]
fn stranger_gets_the_same_answer_whether_or_not_a_note_is_there() {
    let owner = key(6);
    let stranger = key(8);
    let note = note_address(&owner, 1).unwrap();
    let mut ledger = Ledger::new(100);
    let before = update_note(&mut ledger, UpdateNote { note, user: stranger }, 1, text("t"), text("c"));
    assert_eq!(create_note(&mut ledger, CreateNote { note, user: owner }, 1, text("t"), text("c")), Ok(()));
    let after = update_note(&mut ledger, UpdateNote { note, user: stranger }, 1, text("t"), text("c"));
    assert_eq!(before, Err(ErrorCode::Unauthorized));
    assert_eq!(after, Err(ErrorCode::Unauthorized));
    assert_eq!(delete_note(&mut ledger, DeleteNote { note, user: stranger }, 1), Err(ErrorCode::Unauthorized));
}

#[test]
fn create_in_a_slot_of_another_identifier_is_refused() {
    let user = key(9);
    let note = note_address(&user, 1).unwrap();
    let mut ledger = Ledger::new(100);
    let refused = create_note(&mut ledger, CreateNote { note, user }, 2, text("t"), text("c"));
    assert_eq!(refused, Err(ErrorCode::Unauthorized));
    assert!(ledger.get(&note).is_none());
    let refused = create_note(&mut ledger, CreateNote { note: user, user }, 1, text("t"), text("c"));
    assert_eq!(refused, Err(ErrorCode::Unauthorized));
    assert!(ledger.get(&user).is_none());
}

#[test]
fn update_keeps_the_time_of_creation() {
    let user = key(10);
    let note = note_address(&user, 77).unwrap();
    let mut ledger = Ledger::new(1_700_000_000);
    assert_eq!(create_note(&mut ledger, CreateNote { note, user }, 77, text("T1"), text("C1")), Ok(()));
    ledger.advance(1_700_000_500);
    assert_eq!(update_note(&mut ledger, UpdateNote { note, user }, 77, text("T2"), text("C2")), Ok(()));
    let stored = ledger.get(&note).unwrap();
    assert_eq!(stored.author, user);
    assert_eq!(stored.id, 77);
    assert_eq!(stored.title, "T2");
    assert_eq!(stored.content, "C2");
    assert_eq!(stored.created_at, 1_700_000_000);
    assert_eq!(stored.updated_at, 1_700_000_500);
    assert!(stored.updated_at >= stored.created_at);
}

#[test]
fn refused_update_changes_nothing() {
    let user = key(10);
    let note = note_address(&user, 77).unwrap();
    let mut ledger = Ledger::new(10);
    assert_eq!(create_note(&mut ledger, CreateNote { note, user }, 77, text("T1"), text("C1")), Ok(()));
    ledger.advance(20);
    let refused = update_note(&mut ledger, UpdateNote { note, user }, 77, text("T2"), "c".repeat(201));
    assert_eq!(refused, Err(ErrorCode::ContentTooLong));
    let stored = ledger.get(&note).unwrap();
    assert_eq!(stored.title, "T1");
    assert_eq!(stored.content, "C1");
    assert_eq!(stored.updated_at, 10);
}

#[test]
fn deleted_address_is_free_again() {
    let user = key(11);
    let note = note_address(&user, 4).unwrap();
    let mut ledger = Ledger::new(100);
    assert_eq!(create_note(&mut ledger, CreateNote { note, user }, 4, text("old"), text("note")), Ok(()));
    ledger.advance(200);
    assert_eq!(update_note(&mut ledger, UpdateNote { note, user }, 4, text("older"), text("note")), Ok(()));
    assert_eq!(delete_note(&mut ledger, DeleteNote { note, user }, 4), Ok(()));
    assert!(ledger.get(&note).is_none());

    assert_eq!(
        update_note(&mut ledger, UpdateNote { note, user }, 4, text("t"), text("c")),
        Err(ErrorCode::NotFound)
    );
    assert_eq!(delete_note(&mut ledger, DeleteNote { note, user }, 4), Err(ErrorCode::NotFound));

    ledger.advance(300);
    assert_eq!(create_note(&mut ledger, CreateNote { note, user }, 4, text("new"), text("note")), Ok(()));
    let stored = ledger.get(&note).unwrap();
    assert_eq!(stored.title, "new");
    assert_eq!(stored.created_at, 300);
    assert_eq!(stored.updated_at, 300);
}

#[test]
fn notes_of_different_signers_and_identifiers_are_apart() {
    let alice = key(20);
    let bob = key(21);
    let a1 = note_address(&alice, 1).unwrap();
    let a2 = note_address(&alice, 2).unwrap();
    let b1 = note_address(&bob, 1).unwrap();
    let mut ledger = Ledger::new(100);
    assert_eq!(create_note(&mut ledger, CreateNote { note: a1, user: alice }, 1, text("a1"), text("x")), Ok(()));
    assert_eq!(create_note(&mut ledger, CreateNote { note: a2, user: alice }, 2, text("a2"), text("y")), Ok(()));
    assert_eq!(create_note(&mut ledger, CreateNote { note: b1, user: bob }, 1, text("b1"), text("z")), Ok(()));
    ledger.advance(110);
    assert_eq!(update_note(&mut ledger, UpdateNote { note: a2, user: alice }, 2, text("A2"), text("Y")), Ok(()));
    assert_eq!(delete_note(&mut ledger, DeleteNote { note: a1, user: alice }, 1), Ok(()));
    assert!(ledger.get(&a1).is_none());
    assert_eq!(ledger.get(&a2).unwrap().title, "A2");
    assert_eq!(ledger.get(&a2).unwrap().updated_at, 110);
    let kept = ledger.get(&b1).unwrap();
    assert_eq!(kept.author, bob);
    assert_eq!(kept.title, "b1");
    assert_eq!(kept.content, "z");
    assert_eq!(kept.updated_at, 100);
}
