use report_card::numfmt::{hundredths_to_text, milli_to_text, u64_to_dec};
use report_card::record::Record;
use report_card::render::{render, TextStyle};

fn rec(name: &str, total_milli: u64, max_milli: u64, subjects: u32) -> Record {
    Record {
        name: name.to_string(),
        total_marks: total_milli,
        max_marks: max_milli,
        subject_count: subjects,
    }
}

#[test]
fn plain_decimal_text() {
    assert_eq!(u64_to_dec(0), "0");
    assert_eq!(u64_to_dec(7), "7");
    assert_eq!(u64_to_dec(1234567890), "1234567890");
}

#[test]
fn fixed_point_text_trims_trailing_zeros() {
    assert_eq!(milli_to_text(450_000), "450");
    assert_eq!(milli_to_text(89_999), "89.999");
    assert_eq!(milli_to_text(72_500), "72.5");
    assert_eq!(milli_to_text(520), "0.52");
    assert_eq!(milli_to_text(0), "0");
    assert_eq!(milli_to_text(1_000_000_000_000), "1000000000");
}

#[test]
fn two_decimal_text() {
    assert_eq!(hundredths_to_text(9_000), "90.00");
    assert_eq!(hundredths_to_text(12), "0.12");
    assert_eq!(hundredths_to_text(0), "0.00");
    assert_eq!(hundredths_to_text(10_001), "100.01");
}

#[test]
fn render_empty_store_is_title_only() {
    let doc = render(&Vec::new());
    assert_eq!(doc.page_width_mm, 210);
    assert_eq!(doc.page_height_mm, 297);
    assert_eq!(doc.boxes.len(), 0);
    assert_eq!(doc.texts.len(), 1);
    assert_eq!(doc.texts[0].text, "STUDENT REPORT CARD");
    assert_eq!(doc.texts[0].style, TextStyle::Title);
    assert_eq!(doc.texts[0].size_pt, 26);
    assert_eq!(doc.texts[0].x_mm, 50);
    assert_eq!(doc.texts[0].y_mm, 270);
}

#[test]
fn render_one_record_block() {
    let doc = render(&vec![rec("Alice", 450_000, 500_000, 5)]);
    assert_eq!(doc.texts.len(), 15);
    assert_eq!(doc.boxes.len(), 1);

    let b = &doc.boxes[0];
    assert_eq!((b.left_mm, b.top_mm, b.right_mm, b.bottom_mm), (20, 250, 190, 200));

    let labels: Vec<&str> = (0..7).map(|k| doc.texts[1 + 2 * k].text.as_str()).collect();
    assert_eq!(
        labels,
        vec![
            "Name:",
            "Total Marks:",
            "Maximum Marks:",
            "Subjects:",
            "Average:",
            "Percentage:",
            "Grade:"
        ]
    );
    let values: Vec<&str> = (0..7).map(|k| doc.texts[2 + 2 * k].text.as_str()).collect();
    assert_eq!(values, vec!["Alice", "450", "500", "5", "90.00", "90.00%", "A"]);

    for k in 0..7 {
        let label = &doc.texts[1 + 2 * k];
        let value = &doc.texts[2 + 2 * k];
        assert_eq!(label.style, TextStyle::Label);
        assert_eq!(value.style, TextStyle::Value);
        assert_eq!(label.size_pt, 13);
        assert_eq!(value.size_pt, 13);
        assert_eq!(label.x_mm, 25);
        assert_eq!(value.x_mm, 80);
        let y = 250 - 6 - 7 * (k as i64);
        assert_eq!(label.y_mm, y);
        assert_eq!(value.y_mm, y);
    }
}

#[test]
fn render_stacks_blocks_with_fixed_stride() {
    let doc = render(&vec![
        rec("a", 100_000, 100_000, 1),
        rec("b", 80_000, 100_000, 1),
        rec("c", 60_000, 100_000, 1),
    ]);
    assert_eq!(doc.texts.len(), 1 + 14 * 3);
    assert_eq!(doc.boxes.len(), 3);
    for i in 0..3 {
        let top = 250 - 62 * (i as i64);
        let b = &doc.boxes[i];
        assert_eq!((b.left_mm, b.top_mm, b.right_mm, b.bottom_mm), (20, top, 190, top - 50));
        // the name line of block i sits just below its top edge
        assert_eq!(doc.texts[1 + 14 * i].y_mm, top - 6);
    }
    assert_eq!(doc.texts[2 + 14 * 0].text, "a");
    assert_eq!(doc.texts[2 + 14 * 1].text, "b");
    assert_eq!(doc.texts[2 + 14 * 2].text, "c");
    // the grade values of the three blocks
    assert_eq!(doc.texts[14 * 1].text, "A");
    assert_eq!(doc.texts[14 * 2].text, "B");
    assert_eq!(doc.texts[14 * 3].text, "C");
}
