//! Builds the fixed-layout report document from the current records.
//!
//! The document is a plain value: one fixed-size page with a title line and,
//! per record, a bordered block of seven label/value lines. Every coordinate
//! is a whole number of millimetres. Content below the page bottom is laid
//! out off-page unchanged; there is no pagination. Turning this value into a
//! concrete file format is the caller's concern.

use vstd::prelude::*;

use crate::numfmt::{dec_digits, hundredths_string, milli_string, round_div};
use crate::numfmt::{milli_to_text, u64_to_dec};
use crate::record::{grade_of, letter, Record};

verus! {

pub const PAGE_WIDTH_MM: i64 = 210;

pub const PAGE_HEIGHT_MM: i64 = 297;

pub const TITLE_X_MM: i64 = 50;

pub const TITLE_Y_MM: i64 = 270;

pub const TITLE_SIZE_PT: u32 = 26;

pub const BODY_SIZE_PT: u32 = 13;

/// Top edge of the first record block: the title line minus the gap below it.
pub const FIRST_BLOCK_TOP_MM: i64 = 250;

pub const BLOCK_HEIGHT_MM: i64 = 50;

/// Vertical distance from one block's top edge to the next one's: the block
/// height plus the gap between blocks.
pub const BLOCK_STRIDE_MM: i64 = 62;

pub const BLOCK_LEFT_MM: i64 = 20;

pub const BLOCK_RIGHT_MM: i64 = 190;

pub const LABEL_X_MM: i64 = 25;

pub const VALUE_X_MM: i64 = 80;

/// Distance from a block's top edge down to its first text baseline.
pub const FIRST_LINE_DROP_MM: i64 = 6;

pub const LINE_STEP_MM: i64 = 7;

/// Text style of one placed piece of text. `Title` is a bold face, `Label`
/// an oblique one, `Value` a plain one; the distinction is cosmetic only.
#[derive(Clone, Copy, Debug, PartialEq, Eq, Structural)]
pub enum TextStyle {
    Title,
    Label,
    Value,
}

/// One piece of text placed on the page.
#[derive(Debug, PartialEq)]
pub struct TextItem {
    pub text: String,
    pub style: TextStyle,
    pub size_pt: u32,
    pub x_mm: i64,
    pub y_mm: i64,
}

/// One bordered rectangle on the page.
#[derive(Clone, Copy, Debug, PartialEq, Eq, Structural)]
pub struct BoxItem {
    pub left_mm: i64,
    pub top_mm: i64,
    pub right_mm: i64,
    pub bottom_mm: i64,
}

/// The fixed-layout report document: one page worth of placed text and
/// bordered blocks.
#[derive(Debug, PartialEq)]
pub struct Document {
    pub page_width_mm: i64,
    pub page_height_mm: i64,
    pub texts: Vec<TextItem>,
    pub boxes: Vec<BoxItem>,
}

/// Top edge of record block `i`.
pub open spec fn block_top_mm(i: int) -> int {
    FIRST_BLOCK_TOP_MM - BLOCK_STRIDE_MM * i
}

/// Baseline of line `k` inside record block `i`.
pub open spec fn line_y_mm(i: int, k: int) -> int {
    block_top_mm(i) - FIRST_LINE_DROP_MM - LINE_STEP_MM * k
}

/// The label text of line `k` of a block.
pub open spec fn label_text(k: int) -> Seq<char> {
    if k == 0 {
        "Name:"@
    } else if k == 1 {
        "Total Marks:"@
    } else if k == 2 {
        "Maximum Marks:"@
    } else if k == 3 {
        "Subjects:"@
    } else if k == 4 {
        "Average:"@
    } else if k == 5 {
        "Percentage:"@
    } else {
        "Grade:"@
    }
}

/// The value text of line `k` of the block for record `r`: the stored fields
/// in their default text, then the three derived values, the average and the
/// percentage with two decimal places.
pub open spec fn value_text(r: Record, k: int) -> Seq<char> {
    if k == 0 {
        r.name@
    } else if k == 1 {
        milli_string(r.total_marks as nat)
    } else if k == 2 {
        milli_string(r.max_marks as nat)
    } else if k == 3 {
        dec_digits(r.subject_count as nat)
    } else if k == 4 {
        hundredths_string(round_div(r.total_marks as nat, (10 * r.subject_count) as nat))
    } else if k == 5 {
        hundredths_string(round_div((10_000 * r.total_marks) as nat, r.max_marks as nat))
            + seq!['%']
    } else {
        letter(grade_of(r.total_marks as int, r.subject_count as int))
    }
}

/// The title line at its fixed position.
pub open spec fn title_item(t: TextItem) -> bool {
    &&& t.text@ == "STUDENT REPORT CARD"@
    &&& t.style == TextStyle::Title
    &&& t.size_pt == TITLE_SIZE_PT
    &&& t.x_mm == TITLE_X_MM
    &&& t.y_mm == TITLE_Y_MM
}

/// Line `k` of block `i`, label part.
pub open spec fn label_item(t: TextItem, i: int, k: int) -> bool {
    &&& t.text@ == label_text(k)
    &&& t.style == TextStyle::Label
    &&& t.size_pt == BODY_SIZE_PT
    &&& t.x_mm == LABEL_X_MM
    &&& t.y_mm == line_y_mm(i, k)
}

/// Line `k` of block `i`, value part, for record `r`.
pub open spec fn value_item(t: TextItem, r: Record, i: int, k: int) -> bool {
    &&& t.text@ == value_text(r, k)
    &&& t.style == TextStyle::Value
    &&& t.size_pt == BODY_SIZE_PT
    &&& t.x_mm == VALUE_X_MM
    &&& t.y_mm == line_y_mm(i, k)
}

/// The border of block `i`.
pub open spec fn block_box(b: BoxItem, i: int) -> bool {
    &&& b.left_mm == BLOCK_LEFT_MM
    &&& b.right_mm == BLOCK_RIGHT_MM
    &&& b.top_mm == block_top_mm(i)
    &&& b.bottom_mm == block_top_mm(i) - BLOCK_HEIGHT_MM
}

/// The text item in the label slot of line `k` of block `i`.
pub open spec fn label_slot(ts: Seq<TextItem>, i: int, k: int) -> TextItem {
    ts[1 + 14 * i + 2 * k]
}

/// The text item in the value slot of line `k` of block `i`.
pub open spec fn value_slot(ts: Seq<TextItem>, i: int, k: int) -> TextItem {
    ts[2 + 14 * i + 2 * k]
}

/// What it means for a document to lay out the records `rs`: the fixed page,
/// the title first, then per record one border box and seven label/value
/// line pairs at their fixed positions, in record order, and nothing else.
pub open spec fn lays_out(doc: Document, rs: Seq<Record>) -> bool {
    &&& doc.page_width_mm == PAGE_WIDTH_MM
    &&& doc.page_height_mm == PAGE_HEIGHT_MM
    &&& doc.boxes@.len() == rs.len()
    &&& forall|i: int| 0 <= i < rs.len() ==> block_box(#[trigger] doc.boxes@[i], i)
    &&& doc.texts@.len() == 1 + 14 * rs.len()
    &&& title_item(doc.texts@[0])
    &&& forall|i: int, k: int|
        0 <= i < rs.len() && 0 <= k < 7 ==> label_item(
            #[trigger] label_slot(doc.texts@, i, k),
            i,
            k,
        )
    &&& forall|i: int, k: int|
        0 <= i < rs.len() && 0 <= k < 7 ==> value_item(
            #[trigger] value_slot(doc.texts@, i, k),
            rs[i],
            i,
            k,
        )
}

/// A document rendered from an empty store holds the title line alone: no
/// record blocks, no further text.
pub proof fn lemma_render_empty(doc: Document)
    requires
        lays_out(doc, Seq::<Record>::empty()),
    ensures
        doc.texts@.len() == 1,
        title_item(doc.texts@[0]),
        doc.boxes@.len() == 0,
{
}

fn label_str(k: usize) -> (r: &'static str)
    requires
        k < 7,
    ensures
        r@ == label_text(k as int),
{
    proof {
        reveal_strlit("Name:");
        reveal_strlit("Total Marks:");
        reveal_strlit("Maximum Marks:");
        reveal_strlit("Subjects:");
        reveal_strlit("Average:");
        reveal_strlit("Percentage:");
        reveal_strlit("Grade:");
    }
    match k {
        0 => "Name:",
        1 => "Total Marks:",
        2 => "Maximum Marks:",
        3 => "Subjects:",
        4 => "Average:",
        5 => "Percentage:",
        _ => "Grade:",
    }
}

fn value_string(r: &Record, k: usize) -> (s: String)
    requires
        r.wf(),
        k < 7,
    ensures
        s@ == value_text(*r, k as int),
{
    match k {
        0 => r.name.clone(),
        1 => milli_to_text(r.total_marks),
        2 => milli_to_text(r.max_marks),
        3 => u64_to_dec(r.subject_count as u64),
        4 => r.average_text(),
        5 => r.percentage_text(),
        _ => r.grade_text(),
    }
}

/// Renders the records, in order, into the fixed-layout report document.
/// On an empty store the document holds the title alone and no blocks.
pub fn render(records: &Vec<Record>) -> (doc: Document)
    requires
        forall|i: int| 0 <= i < records@.len() ==> (#[trigger] records@[i]).wf(),
        records@.len() <= 1_000_000_000,
    ensures
        lays_out(doc, records@),
{
    let mut texts: Vec<TextItem> = Vec::new();
    let mut boxes: Vec<BoxItem> = Vec::new();
    texts.push(
        TextItem {
            text: "STUDENT REPORT CARD".to_owned(),
            style: TextStyle::Title,
            size_pt: TITLE_SIZE_PT,
            x_mm: TITLE_X_MM,
            y_mm: TITLE_Y_MM,
        },
    );
    let n = records.len();
    let mut idx: usize = 0;
    while idx < n
        invariant
            n == records@.len(),
            n <= 1_000_000_000,
            forall|i: int| 0 <= i < records@.len() ==> (#[trigger] records@[i]).wf(),
            idx <= n,
            boxes@.len() == idx,
            forall|i: int| 0 <= i < idx ==> block_box(#[trigger] boxes@[i], i),
            texts@.len() == 1 + 14 * idx,
            title_item(texts@[0]),
            forall|i: int, k: int|
                0 <= i < idx && 0 <= k < 7 ==> label_item(
                    #[trigger] label_slot(texts@, i, k),
                    i,
                    k,
                ),
            forall|i: int, k: int|
                0 <= i < idx && 0 <= k < 7 ==> value_item(
                    #[trigger] value_slot(texts@, i, k),
                    records@[i],
                    i,
                    k,
                ),
        decreases n - idx,
    {
        let top: i64 = FIRST_BLOCK_TOP_MM - BLOCK_STRIDE_MM * (idx as i64);
        boxes.push(
            BoxItem {
                left_mm: BLOCK_LEFT_MM,
                top_mm: top,
                right_mm: BLOCK_RIGHT_MM,
                bottom_mm: top - BLOCK_HEIGHT_MM,
            },
        );
        let r = &records[idx];
        let mut k: usize = 0;
        while k < 7
            invariant
                n == records@.len(),
                n <= 1_000_000_000,
                forall|i: int| 0 <= i < records@.len() ==> (#[trigger] records@[i]).wf(),
                idx < n,
                r == &records@[idx as int],
                top == block_top_mm(idx as int),
                k <= 7,
                boxes@.len() == idx + 1,
                forall|i: int| 0 <= i < idx + 1 ==> block_box(#[trigger] boxes@[i], i),
                texts@.len() == 1 + 14 * idx + 2 * k,
                title_item(texts@[0]),
                forall|i: int, kk: int|
                    0 <= i < idx && 0 <= kk < 7 ==> label_item(
                        #[trigger] label_slot(texts@, i, kk),
                        i,
                        kk,
                    ),
                forall|i: int, kk: int|
                    0 <= i < idx && 0 <= kk < 7 ==> value_item(
                        #[trigger] value_slot(texts@, i, kk),
                        records@[i],
                        i,
                        kk,
                    ),
                forall|kk: int|
                    0 <= kk < k ==> label_item(
                        #[trigger] label_slot(texts@, idx as int, kk),
                        idx as int,
                        kk,
                    ),
                forall|kk: int|
                    0 <= kk < k ==> value_item(
                        #[trigger] value_slot(texts@, idx as int, kk),
                        records@[idx as int],
                        idx as int,
                        kk,
                    ),
            decreases 7 - k,
        {
            let y: i64 = top - FIRST_LINE_DROP_MM - LINE_STEP_MM * (k as i64);
            let ghost pre = texts@;
            texts.push(
                TextItem {
                    text: label_str(k).to_owned(),
                    style: TextStyle::Label,
                    size_pt: BODY_SIZE_PT,
                    x_mm: LABEL_X_MM,
                    y_mm: y,
                },
            );
            texts.push(
                TextItem {
                    text: value_string(r, k),
                    style: TextStyle::Value,
                    size_pt: BODY_SIZE_PT,
                    x_mm: VALUE_X_MM,
                    y_mm: y,
                },
            );
            proof {
                assert forall|i: int, kk: int| 0 <= i < idx && 0 <= kk < 7 implies label_item(
                    #[trigger] label_slot(texts@, i, kk),
                    i,
                    kk,
                ) by {
                    assert(1 + 14 * i + 2 * kk < pre.len());
                    assert(label_slot(texts@, i, kk) == pre[1 + 14 * i + 2 * kk]);
                    assert(label_item(label_slot(pre, i, kk), i, kk));
                }
                assert forall|i: int, kk: int| 0 <= i < idx && 0 <= kk < 7 implies value_item(
                    #[trigger] value_slot(texts@, i, kk),
                    records@[i],
                    i,
                    kk,
                ) by {
                    assert(2 + 14 * i + 2 * kk < pre.len());
                    assert(value_slot(texts@, i, kk) == pre[2 + 14 * i + 2 * kk]);
                    assert(value_item(value_slot(pre, i, kk), records@[i], i, kk));
                }
                assert forall|kk: int| 0 <= kk < k + 1 implies label_item(
                    #[trigger] label_slot(texts@, idx as int, kk),
                    idx as int,
                    kk,
                ) by {
                    if kk < k {
                        assert(1 + 14 * (idx as int) + 2 * kk < pre.len());
                        assert(label_slot(texts@, idx as int, kk) == pre[1 + 14 * (idx as int) + 2
                            * kk]);
                        assert(label_item(label_slot(pre, idx as int, kk), idx as int, kk));
                    } else {
                        assert(label_slot(texts@, idx as int, kk) == texts@[1 + 14 * (idx as int)
                            + 2 * kk]);
                    }
                }
                assert forall|kk: int| 0 <= kk < k + 1 implies value_item(
                    #[trigger] value_slot(texts@, idx as int, kk),
                    records@[idx as int],
                    idx as int,
                    kk,
                ) by {
                    if kk < k {
                        assert(2 + 14 * (idx as int) + 2 * kk < pre.len());
                        assert(value_slot(texts@, idx as int, kk) == pre[2 + 14 * (idx as int) + 2
                            * kk]);
                        assert(value_item(
                            value_slot(pre, idx as int, kk),
                            records@[idx as int],
                            idx as int,
                            kk,
                        ));
                    } else {
                        assert(value_slot(texts@, idx as int, kk) == texts@[2 + 14 * (idx as int)
                            + 2 * kk]);
                    }
                }
            }
            k += 1;
        }
        idx += 1;
    }
    Document { page_width_mm: PAGE_WIDTH_MM, page_height_mm: PAGE_HEIGHT_MM, texts, boxes }
}

} // verus!
