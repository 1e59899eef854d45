//! One student's stored academic entry and its derived statistics.
//!
//! Mark quantities are fixed-point values held in thousandths of a mark, so
//! the average and the percentage are exact rationals of machine integers.

use vstd::prelude::*;

use crate::numfmt::{hundredths_string, hundredths_to_text, round_div, round_div_u64};

verus! {

/// One mark, in the fixed-point unit (thousandths of a mark).
pub const MARK_SCALE: u64 = 1000;

/// Upper bound on a stored mark quantity, in thousandths of a mark (one
/// thousand million marks), so that every derived computation fits in 64 bits.
pub const MARKS_LIMIT_MILLI: u64 = 1_000_000_000_000;

/// Letter grade, a step function of the average.
#[derive(Clone, Copy, Debug, PartialEq, Eq, Structural)]
pub enum Grade {
    A,
    B,
    C,
    D,
}

/// The grade of the average `total_milli / (1000 * subjects)` marks: at least
/// 90 marks gives A, at least 75 gives B, at least 60 gives C, anything lower
/// gives D. Each boundary belongs to the higher tier.
pub open spec fn grade_of(total_milli: int, subjects: int) -> Grade {
    if total_milli >= 90_000 * subjects {
        Grade::A
    } else if total_milli >= 75_000 * subjects {
        Grade::B
    } else if total_milli >= 60_000 * subjects {
        Grade::C
    } else {
        Grade::D
    }
}

/// The one-letter text of a grade.
pub open spec fn letter(g: Grade) -> Seq<char> {
    match g {
        Grade::A => seq!['A'],
        Grade::B => seq!['B'],
        Grade::C => seq!['C'],
        Grade::D => seq!['D'],
    }
}

/// An exact ratio of two machine integers; derived statistics are returned in
/// this form so that no precision is lost.
#[derive(Clone, Copy, Debug, PartialEq, Eq, Structural)]
pub struct Ratio {
    pub num: u64,
    pub den: u64,
}

/// One student's stored academic entry. `total_marks` and `max_marks` are
/// fixed-point, in thousandths of a mark.
#[derive(Clone, Debug, PartialEq)]
pub struct Record {
    pub name: String,
    pub total_marks: u64,
    pub max_marks: u64,
    pub subject_count: u32,
}

impl Record {
    /// Well-formed: the divisor fields are positive and the mark quantities
    /// lie within the representable range.
    pub open spec fn wf(self) -> bool {
        &&& 1 <= self.subject_count
        &&& 1 <= self.max_marks <= MARKS_LIMIT_MILLI
        &&& self.total_marks <= MARKS_LIMIT_MILLI
    }

    /// The average mark: exactly `total_marks / subject_count`, returned as
    /// the ratio `total_milli / (1000 * subject_count)` of marks.
    pub fn average(&self) -> (r: Ratio)
        requires
            self.wf(),
        ensures
            r.num == self.total_marks,
            r.den == 1000 * self.subject_count,
            r.den > 0,
    {
        Ratio { num: self.total_marks, den: 1000 * (self.subject_count as u64) }
    }

    /// The percentage: exactly `(total_marks / max_marks) * 100`, returned as
    /// the ratio `(100 * total_milli) / max_milli`.
    pub fn percentage(&self) -> (r: Ratio)
        requires
            self.wf(),
        ensures
            r.num == 100 * self.total_marks,
            r.den == self.max_marks,
            r.den > 0,
    {
        Ratio { num: 100 * self.total_marks, den: self.max_marks }
    }

    /// The letter grade of the average.
    pub fn grade(&self) -> (g: Grade)
        requires
            self.wf(),
        ensures
            g == grade_of(self.total_marks as int, self.subject_count as int),
    {
        let t = self.total_marks;
        let s = self.subject_count as u64;
        if t >= 90_000 * s {
            Grade::A
        } else if t >= 75_000 * s {
            Grade::B
        } else if t >= 60_000 * s {
            Grade::C
        } else {
            Grade::D
        }
    }

    /// The grade as one-letter text.
    pub fn grade_text(&self) -> (s: String)
        requires
            self.wf(),
        ensures
            s@ == letter(grade_of(self.total_marks as int, self.subject_count as int)),
    {
        proof {
            reveal_strlit("A");
            reveal_strlit("B");
            reveal_strlit("C");
            reveal_strlit("D");
        }
        let r: &'static str = match self.grade() {
            Grade::A => "A",
            Grade::B => "B",
            Grade::C => "C",
            Grade::D => "D",
        };
        proof {
            assert(r@ =~= letter(grade_of(self.total_marks as int, self.subject_count as int)));
        }
        r.to_owned()
    }

    /// The average in hundredths of a mark, rounded to the nearest hundredth
    /// (halves up).
    pub fn average_hundredths(&self) -> (h: u64)
        requires
            self.wf(),
        ensures
            h == round_div(self.total_marks as nat, (10 * self.subject_count) as nat),
    {
        round_div_u64(self.total_marks, 10 * (self.subject_count as u64))
    }

    /// The percentage in hundredths of a percent, rounded to the nearest
    /// hundredth (halves up).
    pub fn percentage_hundredths(&self) -> (h: u64)
        requires
            self.wf(),
        ensures
            h == round_div((10_000 * self.total_marks) as nat, self.max_marks as nat),
    {
        round_div_u64(10_000 * self.total_marks, self.max_marks)
    }

    /// The average written with exactly two decimal places.
    pub fn average_text(&self) -> (s: String)
        requires
            self.wf(),
        ensures
            s@ == hundredths_string(
                round_div(self.total_marks as nat, (10 * self.subject_count) as nat),
            ),
    {
        hundredths_to_text(self.average_hundredths())
    }

    /// The percentage written with exactly two decimal places and a trailing
    /// percent sign.
    pub fn percentage_text(&self) -> (s: String)
        requires
            self.wf(),
        ensures
            s@ == hundredths_string(
                round_div((10_000 * self.total_marks) as nat, self.max_marks as nat),
            ) + seq!['%'],
    {
        let mut s = hundredths_to_text(self.percentage_hundredths());
        proof {
            reveal_strlit("%");
        }
        s.append("%");
        proof {
            assert(s@ =~= hundredths_string(
                round_div((10_000 * self.total_marks) as nat, self.max_marks as nat),
            ) + seq!['%']);
        }
        s
    }
}

} // verus!
