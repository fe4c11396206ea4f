//! The texts the simulation displays: the running score and the win message,
//! as sequences of characters, with verified decimal formatting.

use vstd::prelude::*;

verus! {

/// The character for one decimal digit.
pub open spec fn digit_char(d: int) -> char
    recommends
        0 <= d < 10,
{
    seq!['0', '1', '2', '3', '4', '5', '6', '7', '8', '9'][d]
}

/// The decimal digits of a non-negative integer, most significant first.
pub open spec fn dec_digits(n: int) -> Seq<char>
    recommends
        n >= 0,
    decreases n,
{
    if n < 10 {
        seq![digit_char(n)]
    } else {
        dec_digits(n / 10) + seq![digit_char(n % 10)]
    }
}

/// The score line: `Score: ` followed by the decimal value.
pub open spec fn score_text(n: int) -> Seq<char> {
    seq!['S', 'c', 'o', 'r', 'e', ':', ' '] + dec_digits(n)
}

/// The terminal message: `Player 1 wins with N points!` or the same for
/// player 2.
pub open spec fn win_text(player_one: bool, n: int) -> Seq<char> {
    seq!['P', 'l', 'a', 'y', 'e', 'r', ' ']
        + seq![if player_one { '1' } else { '2' }]
        + seq![' ', 'w', 'i', 'n', 's', ' ', 'w', 'i', 't', 'h', ' ']
        + dec_digits(n)
        + seq![' ', 'p', 'o', 'i', 'n', 't', 's', '!']
}

/// The character for one decimal digit, executable.
pub fn digit_char_of(d: u32) -> (c: char)
    requires
        d < 10,
    ensures
        c == digit_char(d as int),
{
    if d == 0 {
        '0'
    } else if d == 1 {
        '1'
    } else if d == 2 {
        '2'
    } else if d == 3 {
        '3'
    } else if d == 4 {
        '4'
    } else if d == 5 {
        '5'
    } else if d == 6 {
        '6'
    } else if d == 7 {
        '7'
    } else if d == 8 {
        '8'
    } else {
        '9'
    }
}

/// Appends the decimal digits of `n` to `out`.
pub fn push_decimal(n: u32, out: &mut Vec<char>)
    ensures
        final(out)@ == old(out)@ + dec_digits(n as int),
    decreases n,
{
    if n < 10 {
        out.push(digit_char_of(n));
        proof {
            assert(out@ =~= old(out)@ + dec_digits(n as int));
        }
    } else {
        push_decimal(n / 10, out);
        out.push(digit_char_of(n % 10));
        proof {
            assert(out@ =~= old(out)@ + dec_digits(n as int));
        }
    }
}

/// The score line for the given value, as the displayed characters.
pub fn score_content(n: u32) -> (v: Vec<char>)
    ensures
        v@ == score_text(n as int),
{
    let mut v: Vec<char> = Vec::new();
    v.push('S');
    v.push('c');
    v.push('o');
    v.push('r');
    v.push('e');
    v.push(':');
    v.push(' ');
    push_decimal(n, &mut v);
    proof {
        assert(v@ =~= score_text(n as int));
    }
    v
}

/// The win message for the given winner and final score.
pub fn win_content(player_one: bool, n: u32) -> (v: Vec<char>)
    ensures
        v@ == win_text(player_one, n as int),
{
    let mut v: Vec<char> = Vec::new();
    v.push('P');
    v.push('l');
    v.push('a');
    v.push('y');
    v.push('e');
    v.push('r');
    v.push(' ');
    if player_one {
        v.push('1');
    } else {
        v.push('2');
    }
    v.push(' ');
    v.push('w');
    v.push('i');
    v.push('n');
    v.push('s');
    v.push(' ');
    v.push('w');
    v.push('i');
    v.push('t');
    v.push('h');
    v.push(' ');
    push_decimal(n, &mut v);
    v.push(' ');
    v.push('p');
    v.push('o');
    v.push('i');
    v.push('n');
    v.push('t');
    v.push('s');
    v.push('!');
    proof {
        assert(v@ =~= win_text(player_one, n as int));
    }
    v
}

} // verus!
