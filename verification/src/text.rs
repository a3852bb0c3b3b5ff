//! Small text utilities shared by the header and body engines: decimal
//! rendering of lengths and clock readings, and the rewrites and predicates
//! that rules can name.

use vstd::prelude::*;

verus! {

/// The character of one decimal digit.
pub open spec fn digit_char(d: nat) -> char
    recommends
        d < 10,
{
    if d == 0 {
        '0'
    } else if d == 1 {
        '1'
    } else if d == 2 {
        '2'
    } else if d == 3 {
        '3'
    } else if d == 4 {
        '4'
    } else if d == 5 {
        '5'
    } else if d == 6 {
        '6'
    } else if d == 7 {
        '7'
    } else if d == 8 {
        '8'
    } else {
        '9'
    }
}

/// The decimal numeral of `n`, most significant digit first, without
/// leading zeros (`0` is the single digit `0`).
pub open spec fn decimal_digits(n: nat) -> Seq<char>
    decreases n,
{
    if n < 10 {
        seq![digit_char(n)]
    } else {
        decimal_digits(n / 10).push(digit_char(n % 10))
    }
}

/// The digit that a character stands for; anything but a digit counts as
/// zero.
pub open spec fn digit_value(c: char) -> nat {
    if c == '1' {
        1
    } else if c == '2' {
        2
    } else if c == '3' {
        3
    } else if c == '4' {
        4
    } else if c == '5' {
        5
    } else if c == '6' {
        6
    } else if c == '7' {
        7
    } else if c == '8' {
        8
    } else if c == '9' {
        9
    } else {
        0
    }
}

/// The number that a decimal numeral denotes.
pub open spec fn decimal_value(digits: Seq<char>) -> nat
    decreases digits.len(),
{
    if digits.len() == 0 {
        0
    } else {
        decimal_value(digits.drop_last()) * 10 + digit_value(digits.last())
    }
}

/// The numeral of a number denotes that number, and has no leading zero
/// unless the number is zero.
pub proof fn law_decimal_round_trip(n: nat)
    ensures
        decimal_value(decimal_digits(n)) == n,
        decimal_digits(n).len() >= 1,
        n > 0 ==> decimal_digits(n)[0] != '0',
        n == 0 ==> decimal_digits(n) == seq!['0'],
    decreases n,
{
    if n < 10 {
        let one = seq![digit_char(n)];
        assert(one.drop_last() =~= Seq::<char>::empty());
        assert(decimal_value(one.drop_last()) == 0);
        assert(one.last() == digit_char(n));
    } else {
        law_decimal_round_trip(n / 10);
        let init = decimal_digits(n / 10);
        let all = init.push(digit_char(n % 10));
        assert(all.drop_last() =~= init);
        assert(all.last() == digit_char(n % 10));
        assert(all[0] == init[0]);
    }
}

fn digit_text(d: u8) -> (r: &'static str)
    requires
        d < 10,
    ensures
        r@ == seq![digit_char(d as nat)],
{
    proof {
        reveal_strlit("0");
        reveal_strlit("1");
        reveal_strlit("2");
        reveal_strlit("3");
        reveal_strlit("4");
        reveal_strlit("5");
        reveal_strlit("6");
        reveal_strlit("7");
        reveal_strlit("8");
        reveal_strlit("9");
    }
    let r = if d == 0 {
        "0"
    } else if d == 1 {
        "1"
    } else if d == 2 {
        "2"
    } else if d == 3 {
        "3"
    } else if d == 4 {
        "4"
    } else if d == 5 {
        "5"
    } else if d == 6 {
        "6"
    } else if d == 7 {
        "7"
    } else if d == 8 {
        "8"
    } else {
        "9"
    };
    assert(r@ =~= seq![digit_char(d as nat)]);
    r
}

/// Renders `n` as a decimal numeral.
pub fn decimal_text(n: u128) -> (r: String)
    ensures
        r@ == decimal_digits(n as nat),
    decreases n,
{
    if n < 10 {
        String::from_str(digit_text(n as u8))
    } else {
        let mut s = decimal_text(n / 10);
        s.append(digit_text((n % 10) as u8));
        assert(s@ =~= decimal_digits(n as nat));
        s
    }
}

/// A way to derive a new text from an existing one.
pub enum TextRewrite {
    /// Puts the given text in front.
    Prefix(String),
}

impl TextRewrite {
    /// What the rewrite makes of `text`.
    pub open spec fn apply_spec(self, text: Seq<char>) -> Seq<char> {
        match self {
            TextRewrite::Prefix(p) => p@ + text,
        }
    }

    pub fn apply(&self, text: &str) -> (r: String)
        ensures
            r@ == self.apply_spec(text@),
    {
        match self {
            TextRewrite::Prefix(p) => p.clone().concat(text),
        }
    }
}

/// A test on a text.
pub enum TextPredicate {
    /// Holds when the character occurs somewhere in the text.
    ContainsChar(char),
}

impl TextPredicate {
    /// Whether the predicate holds of `text`.
    pub open spec fn holds_spec(self, text: Seq<char>) -> bool {
        match self {
            TextPredicate::ContainsChar(c) => text.contains(c),
        }
    }

    pub fn holds(&self, text: &str) -> (r: bool)
        ensures
            r == self.holds_spec(text@),
    {
        match self {
            TextPredicate::ContainsChar(c) => {
                let n: usize = text.unicode_len();
                let mut i: usize = 0;
                while i < n
                    invariant
                        n == text@.len(),
                        *self == TextPredicate::ContainsChar(*c),
                        i <= n,
                        forall|j: int| 0 <= j < i ==> text@[j] != *c,
                    decreases n - i,
                {
                    if text.get_char(i) == *c {
                        assert(text@[i as int] == *c);
                        return true;
                    }
                    i += 1;
                }
                false
            },
        }
    }
}

} // verus!
