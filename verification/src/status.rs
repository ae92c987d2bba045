//! A snapshot of the document's state for the status bar, and the
//! decimal formatting its fields are shown with.

use crate::segment::push_char;
use vstd::prelude::*;

verus! {

pub open spec fn digit_char(d: int) -> char {
    if d == 0 {
        '0'
    } else if d == 1 {
        '1'
    } else if d == 2 {
        '2'
    } else if d == 3 {
        '3'
    } else if d == 4 {
        '4'
    } else if d == 5 {
        '5'
    } else if d == 6 {
        '6'
    } else if d == 7 {
        '7'
    } else if d == 8 {
        '8'
    } else {
        '9'
    }
}

/// The decimal digits of a number, most significant first.
pub open spec fn dec_rec(n: int) -> Seq<char>
    decreases n,
{
    if n < 10 {
        seq![digit_char(n)]
    } else {
        dec_rec(n / 10).push(digit_char(n % 10))
    }
}

fn digit_of(d: usize) -> (c: char)
    requires
        d < 10,
    ensures
        c == digit_char(d as int),
{
    if d == 0 {
        '0'
    } else if d == 1 {
        '1'
    } else if d == 2 {
        '2'
    } else if d == 3 {
        '3'
    } else if d == 4 {
        '4'
    } else if d == 5 {
        '5'
    } else if d == 6 {
        '6'
    } else if d == 7 {
        '7'
    } else if d == 8 {
        '8'
    } else {
        '9'
    }
}

/// A number rendered in decimal.
pub(crate) fn decimal_string(n: usize) -> (s: String)
    ensures
        s@ == dec_rec(n as int),
{
    let mut digits: Vec<char> = Vec::new();
    let mut m: usize = n;
    digits.push(digit_of(m % 10));
    proof {
        assert(digits@.reverse() =~= seq![digit_char(n as int % 10)]);
    }
    m = m / 10;
    while m > 0
        invariant
            dec_rec(n as int) == if m > 0 {
                dec_rec(m as int) + digits@.reverse()
            } else {
                digits@.reverse()
            },
        decreases m,
    {
        let ghost d0 = digits@;
        let ghost m0 = m as int;
        digits.push(digit_of(m % 10));
        proof {
            assert(digits@.reverse() =~= seq![digit_char(m0 % 10)] + d0.reverse());
            if m0 < 10 {
                assert(m0 % 10 == m0);
                assert(dec_rec(m0) == seq![digit_char(m0)]);
                assert(dec_rec(m0) + d0.reverse() =~= digits@.reverse());
            } else {
                assert(dec_rec(m0) == dec_rec(m0 / 10).push(digit_char(m0 % 10)));
                assert(dec_rec(m0 / 10).push(digit_char(m0 % 10)) =~= dec_rec(m0 / 10) + seq![
                    digit_char(m0 % 10),
                ]);
                assert(dec_rec(m0) + d0.reverse() =~= dec_rec(m0 / 10) + digits@.reverse());
            }
        }
        m = m / 10;
    }
    let mut s = String::new();
    let ghost rev = digits@.reverse();
    let mut i: usize = 0;
    while i < digits.len()
        invariant
            i <= digits@.len(),
            rev == digits@.reverse(),
            s@ == rev.take(i as int),
        decreases digits@.len() - i,
    {
        push_char(&mut s, digits[digits.len() - 1 - i]);
        proof {
            assert(rev[i as int] == digits@[digits@.len() - 1 - i]);
            assert(rev.take(i as int).push(rev[i as int]) =~= rev.take(i + 1));
        }
        i += 1;
    }
    proof {
        assert(rev.take(digits@.len() as int) =~= rev);
    }
    s
}

/// What the status bar shows of the document.
#[derive(Debug)]
pub struct DocumentStatus {
    pub num_lines: usize,
    pub current_caret_line: usize,
    pub file_name: String,
    pub is_modified: bool,
}

impl PartialEq for DocumentStatus {
    fn eq(&self, other: &DocumentStatus) -> (r: bool) {
        self.num_lines == other.num_lines && self.current_caret_line == other.current_caret_line
            && self.is_modified == other.is_modified && self.file_name == other.file_name
    }
}

impl vstd::std_specs::cmp::PartialEqSpecImpl for DocumentStatus {
    open spec fn obeys_eq_spec() -> bool {
        true
    }

    open spec fn eq_spec(&self, other: &DocumentStatus) -> bool {
        &&& self.num_lines == other.num_lines
        &&& self.current_caret_line == other.current_caret_line
        &&& self.is_modified == other.is_modified
        &&& self.file_name@ == other.file_name@
    }
}

impl Default for DocumentStatus {
    fn default() -> (r: DocumentStatus)
        ensures
            r.num_lines == 0,
            r.current_caret_line == 0,
            r.file_name@ == Seq::<char>::empty(),
            !r.is_modified,
    {
        DocumentStatus {
            num_lines: 0,
            current_caret_line: 0,
            file_name: String::new(),
            is_modified: false,
        }
    }
}

impl DocumentStatus {
    pub fn num_lines_to_string(&self) -> (s: String)
        ensures
            s@ == dec_rec(self.num_lines as int),
    {
        decimal_string(self.num_lines)
    }

    pub fn is_modified_to_string(&self) -> (s: String)
        ensures
            self.is_modified ==> s@ == "(modified)"@,
            !self.is_modified ==> s@ == Seq::<char>::empty(),
    {
        if self.is_modified {
            String::from_str("(modified)")
        } else {
            String::new()
        }
    }

    /// The caret's line shown over the line count.
    pub fn caret_position_to_string(&self) -> (s: String)
        ensures
            s@ == dec_rec(self.current_caret_line as int) + seq!['/'] + dec_rec(
                self.num_lines as int,
            ),
    {
        let mut s = decimal_string(self.current_caret_line);
        push_char(&mut s, '/');
        let rest = decimal_string(self.num_lines);
        s.append(rest.as_str());
        proof {
            assert(s@ =~= dec_rec(self.current_caret_line as int) + seq!['/'] + dec_rec(
                self.num_lines as int,
            ));
        }
        s
    }
}

} // verus!
