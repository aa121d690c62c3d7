//! Atoms: the leaf values of an expression, and their textual form.

use vstd::prelude::*;

verus! {

/// The character that stands for the decimal digit `d`.
pub open spec fn digit_char(d: int) -> char {
    if d == 0 {
        '0'
    } else if d == 1 {
        '1'
    } else if d == 2 {
        '2'
    } else if d == 3 {
        '3'
    } else if d == 4 {
        '4'
    } else if d == 5 {
        '5'
    } else if d == 6 {
        '6'
    } else if d == 7 {
        '7'
    } else if d == 8 {
        '8'
    } else {
        '9'
    }
}

/// The base-10 digits of `n`, most significant first, without leading zeros.
pub open spec fn nat_text(n: nat) -> Seq<char>
    decreases n,
{
    if n < 10 {
        seq![digit_char(n as int)]
    } else {
        nat_text(n / 10).push(digit_char((n % 10) as int))
    }
}

/// The base-10 form of `i`: a `-` in front of the digits of a negative number.
pub open spec fn int_text(i: int) -> Seq<char> {
    if i < 0 {
        seq!['-'] + nat_text((-i) as nat)
    } else {
        nat_text(i as nat)
    }
}

/// The mathematical value of an atom.
pub enum AtomView {
    Int(int),
    Symbol(Seq<char>),
}

impl AtomView {
    /// The text an atom is written as: an integer in base 10, a symbol as its
    /// raw name.
    pub open spec fn text(self) -> Seq<char> {
        match self {
            AtomView::Int(i) => int_text(i),
            AtomView::Symbol(s) => s,
        }
    }
}

/// An indivisible leaf value: a 64-bit signed integer or a symbol name.
#[derive(Debug)]
pub enum RispAtom {
    Int(i64),
    Symbol(String),
}

impl View for RispAtom {
    type V = AtomView;

    open spec fn view(&self) -> AtomView {
        match self {
            RispAtom::Int(i) => AtomView::Int(*i as int),
            RispAtom::Symbol(s) => AtomView::Symbol(s@),
        }
    }
}

/// The one-character string of a decimal digit.
fn digit_str(d: u64) -> (s: &'static str)
    requires
        d < 10,
    ensures
        s@ == seq![digit_char(d as int)],
{
    proof {
        reveal_strlit("0");
        reveal_strlit("1");
        reveal_strlit("2");
        reveal_strlit("3");
        reveal_strlit("4");
        reveal_strlit("5");
        reveal_strlit("6");
        reveal_strlit("7");
        reveal_strlit("8");
        reveal_strlit("9");
    }
    let s = if d == 0 {
        "0"
    } else if d == 1 {
        "1"
    } else if d == 2 {
        "2"
    } else if d == 3 {
        "3"
    } else if d == 4 {
        "4"
    } else if d == 5 {
        "5"
    } else if d == 6 {
        "6"
    } else if d == 7 {
        "7"
    } else if d == 8 {
        "8"
    } else {
        "9"
    };
    assert(s@ =~= seq![digit_char(d as int)]);
    s
}

/// Writes a natural number in base 10.
pub fn nat_to_string(n: u64) -> (s: String)
    ensures
        s@ == nat_text(n as nat),
    decreases n,
{
    if n < 10 {
        String::from_str(digit_str(n))
    } else {
        let mut s = nat_to_string(n / 10);
        s.append(digit_str(n % 10));
        assert(s@ =~= nat_text((n / 10) as nat).push(digit_char((n % 10) as int)));
        s
    }
}

/// Writes a signed integer in base 10, with a leading `-` when it is negative.
pub fn int_to_string(i: i64) -> (s: String)
    ensures
        s@ == int_text(i as int),
{
    if i < 0 {
        // The magnitude of `i64::MIN` does not fit in an `i64`.
        let magnitude: u64 = if i == i64::MIN {
            9223372036854775808u64
        } else {
            (-i) as u64
        };
        let digits = nat_to_string(magnitude);
        let mut s = String::from_str("-");
        proof {
            reveal_strlit("-");
        }
        s.append(digits.as_str());
        assert(s@ =~= seq!['-'] + nat_text((-i) as nat));
        s
    } else {
        nat_to_string(i as u64)
    }
}

impl RispAtom {
    /// The text of the atom: an integer in base 10, a symbol as its raw name.
    pub fn to_string(&self) -> (s: String)
        ensures
            s@ == self@.text(),
    {
        match self {
            RispAtom::Int(i) => int_to_string(*i),
            RispAtom::Symbol(name) => name.clone(),
        }
    }
}

impl Clone for RispAtom {
    fn clone(&self) -> (a: RispAtom)
        ensures
            a@ == self@,
    {
        match self {
            RispAtom::Int(i) => RispAtom::Int(*i),
            RispAtom::Symbol(name) => RispAtom::Symbol(name.clone()),
        }
    }
}

} // verus!
