//! Fixed-width text building blocks for the report: space padding on either
//! side of a field and decimal rendering of ports and process identifiers.

use vstd::prelude::*;

verus! {

broadcast use vstd::string::group_string_axioms;

/// A run of `n` spaces.
pub open spec fn spaces(n: nat) -> Seq<char>
    decreases n,
{
    if n == 0 {
        Seq::empty()
    } else {
        spaces((n - 1) as nat).push(' ')
    }
}

/// `s` padded with spaces on the left to width `w`; a value already that wide
/// is kept as it is.
pub open spec fn pad_left(s: Seq<char>, w: nat) -> Seq<char> {
    if s.len() >= w {
        s
    } else {
        spaces((w - s.len()) as nat) + s
    }
}

/// `s` padded with spaces on the right to width `w`; a value already that
/// wide is kept as it is.
pub open spec fn pad_right(s: Seq<char>, w: nat) -> Seq<char> {
    if s.len() >= w {
        s
    } else {
        s + spaces((w - s.len()) as nat)
    }
}

/// The decimal digit character for one digit value.
pub open spec fn digit_char(d: nat) -> char {
    if d == 0 {
        '0'
    } else if d == 1 {
        '1'
    } else if d == 2 {
        '2'
    } else if d == 3 {
        '3'
    } else if d == 4 {
        '4'
    } else if d == 5 {
        '5'
    } else if d == 6 {
        '6'
    } else if d == 7 {
        '7'
    } else if d == 8 {
        '8'
    } else {
        '9'
    }
}

/// The usual decimal rendering of `n`, most significant digit first, with no
/// leading zeros (a lone zero for zero itself).
pub open spec fn dec_str(n: nat) -> Seq<char>
    decreases n,
{
    if n < 10 {
        seq![digit_char(n)]
    } else {
        dec_str(n / 10).push(digit_char(n % 10))
    }
}

/// One decimal digit as a one-character string.
fn digit_text(d: u64) -> (r: String)
    requires
        d < 10,
    ensures
        r@ == seq![digit_char(d as nat)],
{
    let r = if d == 0 {
        String::from_str("0")
    } else if d == 1 {
        String::from_str("1")
    } else if d == 2 {
        String::from_str("2")
    } else if d == 3 {
        String::from_str("3")
    } else if d == 4 {
        String::from_str("4")
    } else if d == 5 {
        String::from_str("5")
    } else if d == 6 {
        String::from_str("6")
    } else if d == 7 {
        String::from_str("7")
    } else if d == 8 {
        String::from_str("8")
    } else {
        String::from_str("9")
    };
    proof {
        reveal_strlit("0");
        reveal_strlit("1");
        reveal_strlit("2");
        reveal_strlit("3");
        reveal_strlit("4");
        reveal_strlit("5");
        reveal_strlit("6");
        reveal_strlit("7");
        reveal_strlit("8");
        reveal_strlit("9");
        assert(r@ =~= seq![digit_char(d as nat)]);
    }
    r
}

/// Decimal rendering of `n`.
pub fn dec_text(n: u64) -> (r: String)
    ensures
        r@ == dec_str(n as nat),
    decreases n,
{
    if n < 10 {
        digit_text(n)
    } else {
        let mut r = dec_text(n / 10);
        let d = digit_text(n % 10);
        r.append(d.as_str());
        proof {
            assert(r@ =~= dec_str((n / 10) as nat).push(digit_char((n % 10) as nat)));
        }
        r
    }
}

/// A run of `n` spaces as a string.
pub fn spaces_text(n: usize) -> (r: String)
    ensures
        r@ == spaces(n as nat),
{
    let mut r = String::new();
    let mut i: usize = 0;
    while i < n
        invariant
            i <= n,
            r@ == spaces(i as nat),
        decreases n - i,
    {
        r.append(" ");
        proof {
            reveal_strlit(" ");
            assert(r@ =~= spaces(i as nat).push(' '));
        }
        i = i + 1;
    }
    r
}

/// How many spaces left-or-right padding to width `w` adds in front of or
/// behind a field of `len` characters.
pub open spec fn pad_amount(len: nat, w: nat) -> nat {
    if len >= w {
        0
    } else {
        (w - len) as nat
    }
}

/// Counts down from `w` once per character of `s`, stopping at zero: the
/// number of padding spaces that width `w` calls for.
fn padding_for(s: &str, w: usize) -> (r: usize)
    ensures
        r == pad_amount(s@.len(), w as nat),
{
    let mut rem: usize = w;
    for _c in it: s.chars()
        invariant
            it.seq() == s@,
            rem == pad_amount(it.index() as nat, w as nat),
    {
        if rem > 0 {
            rem = rem - 1;
        }
    }
    rem
}

/// `s` padded with spaces on the left to width `w`.
pub fn pad_left_text(s: &str, w: usize) -> (r: String)
    ensures
        r@ == pad_left(s@, w as nat),
{
    let pad = padding_for(s, w);
    let mut r = spaces_text(pad);
    r.append(s);
    proof {
        if s@.len() >= w as nat {
            assert(r@ =~= s@);
        }
    }
    r
}

/// `s` padded with spaces on the right to width `w`.
pub fn pad_right_text(s: &str, w: usize) -> (r: String)
    ensures
        r@ == pad_right(s@, w as nat),
{
    let pad = padding_for(s, w);
    let pad_text = spaces_text(pad);
    let mut r = String::from_str(s);
    r.append(pad_text.as_str());
    proof {
        if s@.len() >= w as nat {
            assert(r@ =~= s@);
        }
    }
    r
}

} // verus!
