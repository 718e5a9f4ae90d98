//! How the remaining time is written: minutes and seconds, two digits each at
//! the least, with a colon between them.

use vstd::prelude::*;

use crate::glyphs::{char_digit, digit_char};

verus! {

/// The decimal digits of a number, most significant first, without leading
/// zeros.
pub open spec fn decimal(n: nat) -> Seq<char>
    decreases n,
{
    if n < 10 {
        seq![digit_char(n)]
    } else {
        decimal(n / 10).push(digit_char(n % 10))
    }
}

/// A number in decimal, with a zero in front where it has one digit only.
pub open spec fn two_digits(n: nat) -> Seq<char> {
    if n < 10 {
        seq!['0', digit_char(n)]
    } else {
        decimal(n)
    }
}

/// A number of seconds as minutes, a colon, and seconds. The minutes are not
/// folded into hours: above 99 they simply take more digits.
pub open spec fn mmss(secs: nat) -> Seq<char> {
    two_digits(secs / 60) + seq![':'] + two_digits(secs % 60)
}

/// A number never has fewer decimal digits than one, and has two or fewer
/// exactly when it is below 100.
pub proof fn lemma_decimal_len(n: nat)
    ensures
        decimal(n).len() >= 1,
        n < 10 <==> decimal(n).len() == 1,
        10 <= n < 100 <==> decimal(n).len() == 2,
    decreases n,
{
    if n >= 10 {
        lemma_decimal_len(n / 10);
    }
}

/// Below one hundred minutes the text has exactly five characters: two digits
/// of minutes, the colon, two digits of seconds.
pub proof fn lemma_mmss_below_100_minutes(secs: nat)
    requires
        secs < 6000,
    ensures
        mmss(secs) == seq![
            digit_char(secs / 60 / 10),
            digit_char(secs / 60 % 10),
            ':',
            digit_char(secs % 60 / 10),
            digit_char(secs % 60 % 10),
        ],
{
    let m = secs / 60;
    let s = secs % 60;
    reveal_with_fuel(decimal, 2);
    assert(two_digits(m) =~= seq![digit_char(m / 10), digit_char(m % 10)]);
    assert(two_digits(s) =~= seq![digit_char(s / 10), digit_char(s % 10)]);
    assert(mmss(secs) =~= seq![
        digit_char(m / 10),
        digit_char(m % 10),
        ':',
        digit_char(s / 10),
        digit_char(s % 10),
    ]);
}

/// The text has five characters exactly when the time is below one hundred
/// minutes, and more from there on.
pub proof fn lemma_mmss_len(secs: nat)
    ensures
        mmss(secs).len() >= 5,
        mmss(secs).len() == 5 <==> secs < 6000,
{
    lemma_decimal_len(secs / 60);
    lemma_decimal_len(secs % 60);
}

/// Ten to the power of `k`.
pub open spec fn pow10(k: nat) -> nat
    decreases k,
{
    if k == 0 {
        1
    } else {
        10 * pow10((k - 1) as nat)
    }
}

/// A number below ten to the `k` has at most `k` decimal digits.
pub proof fn lemma_decimal_len_bound(n: nat, k: nat)
    requires
        k >= 1,
        n < pow10(k),
    ensures
        decimal(n).len() <= k,
    decreases k,
{
    reveal_with_fuel(pow10, 2);
    if n >= 10 {
        lemma_decimal_len_bound(n / 10, (k - 1) as nat);
    }
}

/// Every decimal digit of a number is one of the characters `0` to `9`.
pub proof fn lemma_decimal_is_digits(n: nat)
    ensures
        forall|i: int| 0 <= i < decimal(n).len() ==> char_digit(#[trigger] decimal(n)[i]) is Some,
    decreases n,
{
    if n >= 10 {
        lemma_decimal_is_digits(n / 10);
    }
}

/// The shape of the text, whatever the time: the colon stands third from the
/// end, every other character is a digit, and a time that fits in 64 bits
/// takes 21 characters at the most.
pub proof fn lemma_mmss_shape(secs: nat)
    ensures
        mmss(secs).len() >= 5,
        mmss(secs)[mmss(secs).len() - 3] == ':',
        forall|i: int|
            0 <= i < mmss(secs).len() && i != mmss(secs).len() - 3 ==> char_digit(
                #[trigger] mmss(secs)[i],
            ) is Some,
        char_digit(':') is None,
        secs <= u64::MAX ==> mmss(secs).len() <= 21,
{
    let minutes = secs / 60;
    let seconds = secs % 60;
    lemma_decimal_len(minutes);
    lemma_decimal_len(seconds);
    lemma_decimal_is_digits(minutes);
    lemma_decimal_is_digits(seconds);
    assert(two_digits(seconds).len() == 2);
    let m = two_digits(minutes);
    let s = two_digits(seconds);
    assert forall|i: int| 0 <= i < m.len() implies char_digit(#[trigger] m[i]) is Some by {}
    assert forall|i: int| 0 <= i < s.len() implies char_digit(#[trigger] s[i]) is Some by {}
    assert forall|i: int|
        0 <= i < mmss(secs).len() && i != mmss(secs).len() - 3 implies char_digit(
        #[trigger] mmss(secs)[i],
    ) is Some by {
        if i < m.len() {
            assert(mmss(secs)[i] == m[i]);
        } else {
            assert(mmss(secs)[i] == s[i - m.len() - 1]);
        }
    }
    if secs <= u64::MAX {
        assert(pow10(18) == 1_000_000_000_000_000_000) by {
            reveal_with_fuel(pow10, 19);
        }
        lemma_decimal_len_bound(minutes, 18);
    }
}

fn digit_str(digit: u64) -> (s: &'static str)
    requires
        digit <= 9,
    ensures
        s@ == seq![digit_char(digit as nat)],
{
    proof {
        reveal_strlit("0");
        reveal_strlit("1");
        reveal_strlit("2");
        reveal_strlit("3");
        reveal_strlit("4");
        reveal_strlit("5");
        reveal_strlit("6");
        reveal_strlit("7");
        reveal_strlit("8");
        reveal_strlit("9");
    }
    let s = match digit {
        0 => "0",
        1 => "1",
        2 => "2",
        3 => "3",
        4 => "4",
        5 => "5",
        6 => "6",
        7 => "7",
        8 => "8",
        _ => "9",
    };
    assert(s@ =~= seq![digit_char(digit as nat)]);
    s
}

fn push_decimal(out: &mut String, n: u64)
    ensures
        final(out)@ == old(out)@ + decimal(n as nat),
    decreases n,
{
    if n >= 10 {
        push_decimal(out, n / 10);
    }
    out.append(digit_str(n % 10));
    proof {
        if n >= 10 {
            assert(old(out)@ + decimal((n / 10) as nat) + seq![digit_char((n % 10) as nat)]
                =~= old(out)@ + decimal(n as nat));
        }
    }
}

fn push_two_digits(out: &mut String, n: u64)
    ensures
        final(out)@ == old(out)@ + two_digits(n as nat),
{
    if n < 10 {
        out.append("0");
        proof {
            reveal_strlit("0");
        }
    }
    push_decimal(out, n);
    proof {
        if n < 10 {
            assert(old(out)@ + "0"@ + decimal(n as nat) =~= old(out)@ + two_digits(n as nat));
        }
    }
}

/// Writes a number of seconds as `MM:SS`.
pub fn mmss_from_duration(secs: u64) -> (text: String)
    ensures
        text@ == mmss(secs as nat),
{
    let minutes = secs / 60;
    let seconds = secs % 60;
    let mut text = String::new();
    push_two_digits(&mut text, minutes);
    text.append(":");
    push_two_digits(&mut text, seconds);
    proof {
        reveal_strlit(":");
        assert(text@ =~= mmss(secs as nat));
    }
    text
}

} // verus!
