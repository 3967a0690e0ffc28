//! Small verified text utilities shared by the rest of the crate:
//! character classes, substring predicates, and decimal rendering of
//! status codes.

use vstd::prelude::*;

verus! {

/// An ASCII uppercase letter, the letter part of an issue key.
pub open spec fn is_upper(c: char) -> bool {
    'A' <= c && c <= 'Z'
}

/// An ASCII decimal digit, the number part of an issue key.
pub open spec fn is_digit(c: char) -> bool {
    '0' <= c && c <= '9'
}

/// Whether the character sequence contains `c` anywhere.
pub open spec fn has_char(s: Seq<char>, c: char) -> bool {
    exists|i: int| 0 <= i < s.len() && s[i] == c
}

pub fn exec_is_upper(c: char) -> (r: bool)
    ensures
        r == is_upper(c),
{
    'A' <= c && c <= 'Z'
}

pub fn exec_is_digit(c: char) -> (r: bool)
    ensures
        r == is_digit(c),
{
    '0' <= c && c <= '9'
}

/// Whether the string contains the character `c`.
pub fn contains_char(s: &str, c: char) -> (r: bool)
    ensures
        r == has_char(s@, c),
{
    let len: usize = s.unicode_len();
    let mut i: usize = 0;
    while i < len
        invariant
            len == s@.len(),
            0 <= i <= len,
            forall|j: int| 0 <= j < i ==> s@[j] != c,
        decreases len - i,
    {
        if s.get_char(i) == c {
            return true;
        }
        i = i + 1;
    }
    false
}

/// Equality of two string slices, stated over their character views.
pub fn str_eq(a: &str, b: &str) -> (r: bool)
    ensures
        r == (a@ == b@),
{
    let sa = a.to_owned();
    let sb = b.to_owned();
    sa == sb
}

/// The character for one decimal digit.
pub open spec fn digit_char(d: int) -> char {
    if d == 0 {
        '0'
    } else if d == 1 {
        '1'
    } else if d == 2 {
        '2'
    } else if d == 3 {
        '3'
    } else if d == 4 {
        '4'
    } else if d == 5 {
        '5'
    } else if d == 6 {
        '6'
    } else if d == 7 {
        '7'
    } else if d == 8 {
        '8'
    } else {
        '9'
    }
}

/// Decimal digits of `n`, most significant first; empty for zero.
pub open spec fn dec_rec(n: nat) -> Seq<char>
    decreases n,
{
    if n == 0 {
        Seq::<char>::empty()
    } else {
        dec_rec(n / 10).push(digit_char((n % 10) as int))
    }
}

/// The usual decimal rendering of `n`, with `"0"` for zero.
pub open spec fn dec_str(n: nat) -> Seq<char> {
    if n == 0 {
        seq!['0']
    } else {
        dec_rec(n)
    }
}

/// Numeric value of one digit character.
pub open spec fn digit_val(c: char) -> int {
    if c == '0' {
        0
    } else if c == '1' {
        1
    } else if c == '2' {
        2
    } else if c == '3' {
        3
    } else if c == '4' {
        4
    } else if c == '5' {
        5
    } else if c == '6' {
        6
    } else if c == '7' {
        7
    } else if c == '8' {
        8
    } else {
        9
    }
}

/// The number a digit sequence denotes, most significant digit first.
pub open spec fn seq_to_val(s: Seq<char>) -> int
    decreases s.len(),
{
    if s.len() == 0 {
        0
    } else {
        10 * seq_to_val(s.drop_last()) + digit_val(s.last())
    }
}

proof fn lemma_dec_rec_value(n: nat)
    requires
        n > 0,
    ensures
        seq_to_val(dec_rec(n)) == n,
    decreases n,
{
    let s = dec_rec(n);
    assert(s.drop_last() =~= dec_rec(n / 10));
    if n / 10 == 0 {
        assert(seq_to_val(Seq::<char>::empty()) == 0);
        assert(seq_to_val(dec_rec(0)) == 0);
    } else {
        lemma_dec_rec_value(n / 10);
    }
    vstd::arithmetic::div_mod::lemma_fundamental_div_mod(n as int, 10);
}

/// Law: decimal rendering is faithful — reading the rendered digits back
/// yields the number itself.
pub proof fn lemma_dec_str_value(n: nat)
    ensures
        seq_to_val(dec_str(n)) == n,
{
    if n == 0 {
        assert(seq!['0'].drop_last() =~= Seq::<char>::empty());
        assert(seq_to_val(Seq::<char>::empty()) == 0);
        assert(seq_to_val(seq!['0']) == 0);
    } else {
        lemma_dec_rec_value(n);
    }
}

fn digit_str(d: u16) -> (r: &'static str)
    requires
        d < 10,
    ensures
        r@ =~= seq![digit_char(d as int)],
{
    proof {
        reveal_strlit("0");
        reveal_strlit("1");
        reveal_strlit("2");
        reveal_strlit("3");
        reveal_strlit("4");
        reveal_strlit("5");
        reveal_strlit("6");
        reveal_strlit("7");
        reveal_strlit("8");
        reveal_strlit("9");
    }
    match d {
        0 => "0",
        1 => "1",
        2 => "2",
        3 => "3",
        4 => "4",
        5 => "5",
        6 => "6",
        7 => "7",
        8 => "8",
        _ => "9",
    }
}

fn dec_exec(n: u16) -> (r: String)
    ensures
        r@ == dec_rec(n as nat),
    decreases n,
{
    if n == 0 {
        String::new()
    } else {
        proof {
            assert((n / 10) as nat == n as nat / 10);
            assert((n % 10) as nat == n as nat % 10);
        }
        let mut s = dec_exec(n / 10);
        s.append(digit_str(n % 10));
        proof {
            assert(s@ =~= dec_rec(n as nat / 10).push(digit_char((n as nat % 10) as int)));
        }
        s
    }
}

/// Renders an HTTP status code (or any small number) in decimal.
pub fn u16_to_string(n: u16) -> (r: String)
    ensures
        r@ == dec_str(n as nat),
{
    if n == 0 {
        proof {
            reveal_strlit("0");
        }
        let s = String::from_str("0");
        proof {
            assert(s@ =~= dec_str(0));
        }
        s
    } else {
        dec_exec(n)
    }
}

} // verus!
