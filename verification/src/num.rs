//! Exact decimal rendering of unsigned integers, with left padding, for the
//! fixed-column summary lines.

use vstd::prelude::*;

verus! {

/// The decimal digit character for a value below ten.
pub open spec fn spec_digit_char(d: int) -> char {
    if d == 0 {
        '0'
    } else if d == 1 {
        '1'
    } else if d == 2 {
        '2'
    } else if d == 3 {
        '3'
    } else if d == 4 {
        '4'
    } else if d == 5 {
        '5'
    } else if d == 6 {
        '6'
    } else if d == 7 {
        '7'
    } else if d == 8 {
        '8'
    } else {
        '9'
    }
}

/// The decimal representation of `n`, most significant digit first, with no
/// leading zeros (a single `'0'` for zero).
pub open spec fn spec_dec(n: nat) -> Seq<char>
    decreases n,
{
    if n < 10 {
        seq![spec_digit_char(n as int)]
    } else {
        spec_dec(n / 10).push(spec_digit_char((n % 10) as int))
    }
}

/// `n` copies of the character `c`.
pub open spec fn spec_repeat(c: char, n: int) -> Seq<char>
    decreases n,
{
    if n <= 0 {
        Seq::empty()
    } else {
        spec_repeat(c, n - 1).push(c)
    }
}

/// `s` padded on the left with `c` up to width `w`; `s` itself if it is
/// already that wide.
pub open spec fn spec_pad_left(s: Seq<char>, w: int, c: char) -> Seq<char> {
    spec_repeat(c, w - s.len()) + s
}

fn digit_str(d: u128) -> (r: &'static str)
    requires
        d < 10,
    ensures
        r@ == seq![spec_digit_char(d as int)],
{
    if d == 0 {
        proof {
            reveal_strlit("0");
            assert("0"@ =~= seq!['0']);
        }
        "0"
    } else if d == 1 {
        proof {
            reveal_strlit("1");
            assert("1"@ =~= seq!['1']);
        }
        "1"
    } else if d == 2 {
        proof {
            reveal_strlit("2");
            assert("2"@ =~= seq!['2']);
        }
        "2"
    } else if d == 3 {
        proof {
            reveal_strlit("3");
            assert("3"@ =~= seq!['3']);
        }
        "3"
    } else if d == 4 {
        proof {
            reveal_strlit("4");
            assert("4"@ =~= seq!['4']);
        }
        "4"
    } else if d == 5 {
        proof {
            reveal_strlit("5");
            assert("5"@ =~= seq!['5']);
        }
        "5"
    } else if d == 6 {
        proof {
            reveal_strlit("6");
            assert("6"@ =~= seq!['6']);
        }
        "6"
    } else if d == 7 {
        proof {
            reveal_strlit("7");
            assert("7"@ =~= seq!['7']);
        }
        "7"
    } else if d == 8 {
        proof {
            reveal_strlit("8");
            assert("8"@ =~= seq!['8']);
        }
        "8"
    } else {
        proof {
            reveal_strlit("9");
            assert("9"@ =~= seq!['9']);
        }
        "9"
    }
}

/// The decimal text of `n`.
pub fn to_dec(n: u128) -> (r: String)
    ensures
        r@ == spec_dec(n as nat),
    decreases n,
{
    if n < 10 {
        digit_str(n).to_owned()
    } else {
        let mut r = to_dec(n / 10);
        r.append(digit_str(n % 10));
        proof {
            assert(r@ =~= spec_dec(n as nat));
        }
        r
    }
}

fn repeat_str(unit: &str, count: usize) -> (r: String)
    requires
        unit@.len() == 1,
    ensures
        r@ == spec_repeat(unit@[0], count as int),
{
    let mut r = String::new();
    let mut i: usize = 0;
    while i < count
        invariant
            i <= count,
            unit@.len() == 1,
            r@ == spec_repeat(unit@[0], i as int),
        decreases count - i,
    {
        r.append(unit);
        proof {
            assert(unit@ =~= seq![unit@[0]]);
            assert(r@ =~= spec_repeat(unit@[0], i + 1 as int));
        }
        i = i + 1;
    }
    r
}

/// `s` padded on the left with spaces up to width `w`.
pub fn pad_left(s: &str, w: usize) -> (r: String)
    ensures
        r@ == spec_pad_left(s@, w as int, ' '),
{
    let len = s.unicode_len();
    let pad = if len < w {
        w - len
    } else {
        0
    };
    proof {
        reveal_strlit(" ");
    }
    let mut r = repeat_str(" ", pad);
    r.append(s);
    proof {
        assert(spec_repeat(' ', pad as int) == spec_repeat(' ', w - s@.len()));
    }
    r
}

/// The decimal text of `n`, left-padded with zeros up to width `w`.
pub fn to_dec_zero_padded(n: u128, w: usize) -> (r: String)
    ensures
        r@ == spec_pad_left(spec_dec(n as nat), w as int, '0'),
{
    let d = to_dec(n);
    let len = d.as_str().unicode_len();
    let pad = if len < w {
        w - len
    } else {
        0
    };
    proof {
        reveal_strlit("0");
    }
    let mut r = repeat_str("0", pad);
    r.append(d.as_str());
    proof {
        assert(spec_repeat('0', pad as int) == spec_repeat('0', w - spec_dec(n as nat).len()));
    }
    r
}

/// The decimal text of `n`, left-padded with spaces up to width `w`.
pub fn to_dec_padded(n: u128, w: usize) -> (r: String)
    ensures
        r@ == spec_pad_left(spec_dec(n as nat), w as int, ' '),
{
    let d = to_dec(n);
    pad_left(d.as_str(), w)
}

} // verus!
