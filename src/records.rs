use vstd::prelude::*;
use crate::text::{digit_char, nat_text, push_nat};

verus! {

/// A decimal number held in thousandths
/// (`4.5` is `Decimal { thousandths: 4500 }`).
#[derive(Clone, Copy, Debug, PartialEq, Eq, Structural)]
pub struct Decimal {
    pub thousandths: i64,
}

/// A registered course.
#[derive(Clone, Debug)]
pub struct Course {
    pub id: i64,
    pub name: String,
    pub code: String,
    pub semester: i64,
    pub year: i64,
    pub credit: Decimal,
}

/// A graded assessment of a course; the three dates are kept as entered
/// (`YYYY-MM-DD` when well formed).
#[derive(Clone, Debug)]
pub struct Assessment {
    pub id: i64,
    pub name: String,
    pub weight: Decimal,
    pub take1: String,
    pub retake1: String,
    pub retake2: String,
    pub fk_course_id: i64,
}

/// The digits after the point of a fraction `f` thousandths (`0 < f < 1000`),
/// without trailing zeros.
pub open spec fn fraction_text(f: int) -> Seq<char> {
    if f % 100 == 0 {
        seq![digit_char(f / 100)]
    } else if f % 10 == 0 {
        seq![digit_char(f / 100), digit_char((f / 10) % 10)]
    } else {
        seq![digit_char(f / 100), digit_char((f / 10) % 10), digit_char(f % 10)]
    }
}

/// Shortest decimal text of `m` thousandths, `m >= 0`: `4000` is `4`, `4500` is `4.5`,
/// `50` is `0.05`.
pub open spec fn magnitude_text(m: nat) -> Seq<char> {
    if m % 1000 == 0 {
        nat_text(m / 1000)
    } else {
        nat_text(m / 1000) + seq!['.'] + fraction_text((m % 1000) as int)
    }
}

/// Shortest decimal text of `t` thousandths, with a leading `-` when negative.
pub open spec fn decimal_text(t: int) -> Seq<char> {
    if t < 0 {
        seq!['-'] + magnitude_text((-t) as nat)
    } else {
        magnitude_text(t as nat)
    }
}

impl Decimal {
    /// The shortest decimal text of this number (`4`, `3.5`, `0.125`, `-2.25`).
    pub fn to_text(&self) -> (r: String)
        ensures
            r@ == decimal_text(self.thousandths as int),
    {
        let mut out = String::new();
        let negative = self.thousandths < 0;
        let m: u64 = if negative {
            (-(self.thousandths as i128)) as u64
        } else {
            self.thousandths as u64
        };
        if negative {
            proof {
                reveal_strlit("-");
            }
            out.append("-");
        }
        let ghost start = out@;
        push_nat(&mut out, m / 1000);
        let f = m % 1000;
        if f != 0 {
            proof {
                reveal_strlit(".");
            }
            out.append(".");
            push_nat(&mut out, f / 100);
            if f % 100 != 0 {
                push_nat(&mut out, (f / 10) % 10);
                if f % 10 != 0 {
                    push_nat(&mut out, f % 10);
                }
            }
        }
        proof {
            assert(nat_text((f / 100) as nat) == seq![digit_char((f / 100) as int)]);
            assert(nat_text(((f / 10) % 10) as nat) == seq![digit_char(((f / 10) % 10) as int)]);
            assert(nat_text((f % 10) as nat) == seq![digit_char((f % 10) as int)]);
            assert(out@ =~= start + magnitude_text(m as nat));
            assert(out@ =~= decimal_text(self.thousandths as int));
        }
        out
    }
}

} // verus!
