use vstd::prelude::*;

verus! {

use vstd::string::StringExecFns;

/// The decimal digit character for a digit value below ten.
pub open spec fn digit_char(d: nat) -> char {
    if d == 0 {
        '0'
    } else if d == 1 {
        '1'
    } else if d == 2 {
        '2'
    } else if d == 3 {
        '3'
    } else if d == 4 {
        '4'
    } else if d == 5 {
        '5'
    } else if d == 6 {
        '6'
    } else if d == 7 {
        '7'
    } else if d == 8 {
        '8'
    } else {
        '9'
    }
}

/// The decimal rendering of a number, most significant digit first,
/// with no sign and no leading zeros (a lone zero renders as "0").
pub open spec fn dec_chars(n: nat) -> Seq<char>
    decreases n,
{
    if n < 10 {
        seq![digit_char(n)]
    } else {
        dec_chars(n / 10) + seq![digit_char(n % 10)]
    }
}

/// A run of `n` space characters.
pub open spec fn space_chars(n: nat) -> Seq<char>
    decreases n,
{
    if n == 0 {
        Seq::empty()
    } else {
        space_chars((n - 1) as nat) + seq![' ']
    }
}

/// A run of `n` tab characters.
pub open spec fn tab_chars(n: nat) -> Seq<char>
    decreases n,
{
    if n == 0 {
        Seq::empty()
    } else {
        tab_chars((n - 1) as nat) + seq!['\t']
    }
}

/// `s` right-aligned in a field of width four: short renderings are
/// preceded by spaces, longer ones are kept as they are.
pub open spec fn pad_left4(s: Seq<char>) -> Seq<char> {
    if s.len() >= 4 {
        s
    } else {
        space_chars((4 - s.len()) as nat) + s
    }
}

/// A decimal rendering has one digit per power of ten.
pub proof fn lemma_dec_chars_len(n: nat)
    ensures
        n < 10 ==> dec_chars(n).len() == 1,
        10 <= n < 100 ==> dec_chars(n).len() == 2,
        100 <= n < 1000 ==> dec_chars(n).len() == 3,
    decreases n,
{
    if n >= 10 {
        lemma_dec_chars_len(n / 10);
    }
}

fn digit_str(d: u64) -> (s: &'static str)
    requires
        d < 10,
    ensures
        s@ == seq![digit_char(d as nat)],
{
    proof {
        reveal_strlit("0");
        reveal_strlit("1");
        reveal_strlit("2");
        reveal_strlit("3");
        reveal_strlit("4");
        reveal_strlit("5");
        reveal_strlit("6");
        reveal_strlit("7");
        reveal_strlit("8");
        reveal_strlit("9");
    }
    let s = match d {
        0 => "0",
        1 => "1",
        2 => "2",
        3 => "3",
        4 => "4",
        5 => "5",
        6 => "6",
        7 => "7",
        8 => "8",
        _ => "9",
    };
    proof {
        assert(s@ =~= seq![digit_char(d as nat)]);
    }
    s
}

/// Renders a number in decimal, exactly as `dec_chars` describes it.
pub fn u64_to_dec(n: u64) -> (s: String)
    ensures
        s@ == dec_chars(n as nat),
    decreases n,
{
    if n < 10 {
        let mut s = String::new();
        s.append(digit_str(n));
        proof {
            assert(s@ =~= dec_chars(n as nat));
        }
        s
    } else {
        let mut s = u64_to_dec(n / 10);
        s.append(digit_str(n % 10));
        proof {
            assert(s@ =~= dec_chars(n as nat));
        }
        s
    }
}

/// Renders a type tag right-aligned to width four, as `pad_left4` of its
/// decimal rendering describes it.
pub fn tag_to_padded_dec(t: u8) -> (s: String)
    ensures
        s@ == pad_left4(dec_chars(t as nat)),
{
    proof {
        reveal_strlit(" ");
        reveal_strlit("  ");
        reveal_strlit("   ");
    }
    let mut s = String::new();
    if t >= 100 {
        s.append(" ");
    } else if t >= 10 {
        s.append("  ");
    } else {
        s.append("   ");
    }
    let digits = u64_to_dec(t as u64);
    s.append(digits.as_str());
    proof {
        lemma_dec_chars_len(t as nat);
        reveal_with_fuel(space_chars, 4);
        assert(space_chars(1) =~= seq![' ']);
        assert(space_chars(2) =~= seq![' ', ' ']);
        assert(space_chars(3) =~= seq![' ', ' ', ' ']);
        assert(" "@ =~= seq![' ']);
        assert("  "@ =~= seq![' ', ' ']);
        assert("   "@ =~= seq![' ', ' ', ' ']);
        assert(s@ =~= pad_left4(dec_chars(t as nat)));
    }
    s
}

} // verus!
