//! Decimal rendering of timestamps, with the laws that the text can be read
//! back and that the whole-seconds rendering truncates toward zero.

use vstd::prelude::*;
use crate::text::push_char;

verus! {

/// The character for one decimal digit.
pub open spec fn digit_char(d: nat) -> char
    recommends
        d < 10,
{
    if d == 0 {
        '0'
    } else if d == 1 {
        '1'
    } else if d == 2 {
        '2'
    } else if d == 3 {
        '3'
    } else if d == 4 {
        '4'
    } else if d == 5 {
        '5'
    } else if d == 6 {
        '6'
    } else if d == 7 {
        '7'
    } else {
        if d == 8 {
            '8'
        } else {
            '9'
        }
    }
}

/// The value of one decimal digit character.
pub open spec fn digit_val(c: char) -> nat {
    if c == '0' {
        0
    } else if c == '1' {
        1
    } else if c == '2' {
        2
    } else if c == '3' {
        3
    } else if c == '4' {
        4
    } else if c == '5' {
        5
    } else if c == '6' {
        6
    } else if c == '7' {
        7
    } else {
        if c == '8' {
            8
        } else {
            9
        }
    }
}

/// Decimal text of a natural number: most significant digit first, no
/// leading zeros, a lone `0` for zero.
pub open spec fn dec_seq_of(n: nat) -> Seq<char>
    decreases n,
{
    if n < 10 {
        seq![digit_char(n)]
    } else {
        dec_seq_of(n / 10).push(digit_char(n % 10))
    }
}

/// The number that decimal text denotes, most significant digit first.
pub open spec fn dec_val_of(s: Seq<char>) -> nat
    decreases s.len(),
{
    if s.len() == 0 {
        0
    } else {
        dec_val_of(s.drop_last()) * 10 + digit_val(s.last())
    }
}

fn digit_char_exec(d: u64) -> (c: char)
    requires
        d < 10,
    ensures
        c == digit_char(d as nat),
{
    if d == 0 {
        '0'
    } else if d == 1 {
        '1'
    } else if d == 2 {
        '2'
    } else if d == 3 {
        '3'
    } else if d == 4 {
        '4'
    } else if d == 5 {
        '5'
    } else if d == 6 {
        '6'
    } else if d == 7 {
        '7'
    } else if d == 8 {
        '8'
    } else {
        '9'
    }
}

/// Renders a number as decimal text.
pub fn u64_to_dec(n: u64) -> (r: String)
    ensures
        r@ == dec_seq_of(n as nat),
    decreases n,
{
    if n < 10 {
        let mut s = String::new();
        push_char(&mut s, digit_char_exec(n));
        proof {
            assert(s@ =~= dec_seq_of(n as nat));
        }
        s
    } else {
        let mut s = u64_to_dec(n / 10);
        push_char(&mut s, digit_char_exec(n % 10));
        proof {
            assert(s@ =~= dec_seq_of(n as nat));
        }
        s
    }
}

/// Decimal rendering round-trips: reading the decimal text of `n` back as a
/// number yields `n` exactly.
pub proof fn lemma_dec_round_trip(n: nat)
    ensures
        dec_val_of(dec_seq_of(n)) == n,
    decreases n,
{
    if n < 10 {
        reveal_with_fuel(dec_val_of, 2);
        assert(dec_seq_of(n).drop_last() =~= Seq::<char>::empty());
        assert(dec_seq_of(n).last() == digit_char(n));
        assert(digit_val(digit_char(n)) == n);
    } else {
        lemma_dec_round_trip(n / 10);
        assert(dec_seq_of(n).drop_last() =~= dec_seq_of(n / 10));
        assert(dec_seq_of(n).last() == digit_char(n % 10));
        assert(digit_val(digit_char(n % 10)) == n % 10);
        assert(n / 10 * 10 + n % 10 == n) by (nonlinear_arith);
    }
}

/// The whole-seconds rendering of a nonnegative millisecond count denotes
/// exactly the value that the millisecond rendering denotes, divided by 1000
/// with truncation toward zero.
pub proof fn lemma_seconds_is_millis_div_1000(ms: nat)
    ensures
        dec_val_of(dec_seq_of(ms / 1000)) == dec_val_of(dec_seq_of(ms)) / 1000,
{
    lemma_dec_round_trip(ms);
    lemma_dec_round_trip(ms / 1000);
}

} // verus!
