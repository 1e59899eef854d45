use report_card::record::{Grade, Ratio, Record};

fn rec(name: &str, total_milli: u64, max_milli: u64, subjects: u32) -> Record {
    Record {
        name: name.to_string(),
        total_marks: total_milli,
        max_marks: max_milli,
        subject_count: subjects,
    }
}

#[test]
fn average_is_exact_ratio() {
    // 450 marks over 5 subjects: exactly 450/5 = 90 marks.
    let r = rec("Alice", 450_000, 500_000, 5);
    assert_eq!(r.average(), Ratio { num: 450_000, den: 5_000 });
    // A total that does not divide evenly stays exact as a ratio.
    let r = rec("x", 100_000, 300_000, 3);
    assert_eq!(r.average(), Ratio { num: 100_000, den: 3_000 });
}

#[test]
fn percentage_is_exact_ratio() {
    // (450 / 500) * 100 = 45_000_000 / 500_000 = 90.
    let r = rec("Alice", 450_000, 500_000, 5);
    assert_eq!(r.percentage(), Ratio { num: 45_000_000, den: 500_000 });
    let r = rec("x", 100_000, 300_000, 3);
    assert_eq!(r.percentage(), Ratio { num: 10_000_000, den: 300_000 });
}

#[test]
fn grade_boundaries() {
    // average exactly 90.0 -> A
    assert_eq!(rec("s", 90_000, 100_000, 1).grade(), Grade::A);
    // average 89.999 -> B
    assert_eq!(rec("s", 89_999, 100_000, 1).grade(), Grade::B);
    // average exactly 75.0 -> B
    assert_eq!(rec("s", 75_000, 100_000, 1).grade(), Grade::B);
    // average 59.999 -> D
    assert_eq!(rec("s", 59_999, 100_000, 1).grade(), Grade::D);
    // average exactly 60.0 -> C
    assert_eq!(rec("s", 60_000, 100_000, 1).grade(), Grade::C);
    // the same boundaries with several subjects
    assert_eq!(rec("s", 450_000, 500_000, 5).grade(), Grade::A);
    assert_eq!(rec("s", 449_999, 500_000, 5).grade(), Grade::B);
}

#[test]
fn grade_text_matches_grade() {
    assert_eq!(rec("s", 90_000, 100_000, 1).grade_text(), "A");
    assert_eq!(rec("s", 80_000, 100_000, 1).grade_text(), "B");
    assert_eq!(rec("s", 60_000, 100_000, 1).grade_text(), "C");
    assert_eq!(rec("s", 0, 100_000, 1).grade_text(), "D");
}

#[test]
fn derived_texts_use_two_decimals() {
    let r = rec("Alice", 450_000, 500_000, 5);
    assert_eq!(r.average_hundredths(), 9_000);
    assert_eq!(r.percentage_hundredths(), 9_000);
    assert_eq!(r.average_text(), "90.00");
    assert_eq!(r.percentage_text(), "90.00%");
    let r = rec("x", 100_000, 300_000, 3);
    // 100/3 = 33.333... rounds to 33.33; 100/300 of 100 = 33.333... likewise.
    assert_eq!(r.average_text(), "33.33");
    assert_eq!(r.percentage_text(), "33.33%");
}

#[test]
fn rounding_is_half_up() {
    // 0.005 marks over one subject: 0.005 rounds up to 0.01.
    let r = rec("x", 5, 100_000, 1);
    assert_eq!(r.average_text(), "0.01");
    // 0.004 rounds down.
    let r = rec("x", 4, 100_000, 1);
    assert_eq!(r.average_text(), "0.00");
}
