use report_card::record::Record;
use report_card::shell::{delete_user, parse_choice, to_internal_index, update_user, MenuChoice};
use report_card::store::{IndexError, Store};

fn rec(name: &str, total_milli: u64, max_milli: u64, subjects: u32) -> Record {
    Record {
        name: name.to_string(),
        total_marks: total_milli,
        max_marks: max_milli,
        subject_count: subjects,
    }
}

#[test]
fn menu_choices() {
    assert_eq!(parse_choice("1"), MenuChoice::AddRecord);
    assert_eq!(parse_choice("2"), MenuChoice::ListRecords);
    assert_eq!(parse_choice("3"), MenuChoice::UpdateRecord);
    assert_eq!(parse_choice("4"), MenuChoice::DeleteRecord);
    assert_eq!(parse_choice("5"), MenuChoice::RenderReport);
    assert_eq!(parse_choice("6"), MenuChoice::Exit);
    assert_eq!(parse_choice("7"), MenuChoice::Invalid);
    assert_eq!(parse_choice(""), MenuChoice::Invalid);
    assert_eq!(parse_choice("12"), MenuChoice::Invalid);
    assert_eq!(parse_choice("exit"), MenuChoice::Invalid);
}

#[test]
fn one_based_translation() {
    assert_eq!(to_internal_index(1, 3), Some(0));
    assert_eq!(to_internal_index(3, 3), Some(2));
    assert_eq!(to_internal_index(0, 3), None);
    assert_eq!(to_internal_index(4, 3), None);
    assert_eq!(to_internal_index(1, 0), None);
}

#[test]
fn update_by_user_index() {
    let mut s = Store::new();
    s.add(rec("a", 1_000, 100_000, 1));
    s.add(rec("b", 2_000, 100_000, 1));
    let replacement = rec("z", 9_000, 10_000, 9);
    assert_eq!(update_user(&mut s, 2, replacement.clone()), Ok(()));
    assert_eq!(s.list()[1], replacement);
    assert_eq!(update_user(&mut s, 0, replacement.clone()), Err(IndexError));
    assert_eq!(update_user(&mut s, 3, replacement), Err(IndexError));
    assert_eq!(s.len(), 2);
    assert_eq!(s.list()[0], rec("a", 1_000, 100_000, 1));
}

#[test]
fn delete_by_user_index() {
    let mut s = Store::new();
    s.add(rec("a", 1_000, 100_000, 1));
    s.add(rec("b", 2_000, 100_000, 1));
    assert_eq!(delete_user(&mut s, 0), Err(IndexError));
    assert_eq!(delete_user(&mut s, 3), Err(IndexError));
    assert_eq!(s.len(), 2);
    assert_eq!(delete_user(&mut s, 1), Ok(()));
    assert_eq!(s.len(), 1);
    assert_eq!(s.list()[0], rec("b", 2_000, 100_000, 1));
}

#[test]
fn end_to_end_scenario() {
    // Alice: total 450 of 500 over 5 subjects.
    let mut s = Store::new();
    s.add(rec("Alice", 450_000, 500_000, 5));
    // Bob: total 300 of 500 over 5 subjects.
    s.add(rec("Bob", 300_000, 500_000, 5));

    let alice = &s.list()[0];
    assert_eq!(alice.average_text(), "90.00");
    assert_eq!(alice.percentage_text(), "90.00%");
    assert_eq!(alice.grade_text(), "A");

    let bob = &s.list()[1];
    assert_eq!(bob.average_text(), "60.00");
    assert_eq!(bob.percentage_text(), "60.00%");
    assert_eq!(bob.grade_text(), "C");

    assert_eq!(s.list()[0].name, "Alice");
    assert_eq!(s.list()[1].name, "Bob");

    // Delete user index 1: only Bob remains, now first.
    assert_eq!(delete_user(&mut s, 1), Ok(()));
    assert_eq!(s.len(), 1);
    assert_eq!(s.list()[0].name, "Bob");
}
