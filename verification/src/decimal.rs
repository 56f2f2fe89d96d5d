//! Decimal text of integers, padded with zeros to a minimum width.

use vstd::prelude::*;

verus! {

/// The character that writes the digit `d`, for `0 <= d <= 9`.
pub open spec fn digit_char(d: int) -> char {
    seq!['0', '1', '2', '3', '4', '5', '6', '7', '8', '9'][d]
}

/// The decimal digits of `n`, most significant first; empty for zero.
pub open spec fn digits(n: nat) -> Seq<char>
    decreases n,
{
    if n == 0 {
        Seq::empty()
    } else {
        digits(n / 10).push(digit_char((n % 10) as int))
    }
}

/// The decimal numeral of `n`: its digits, or `0` for zero.
pub open spec fn numeral(n: nat) -> Seq<char> {
    if n == 0 {
        seq!['0']
    } else {
        digits(n)
    }
}

/// `count` zeros.
pub open spec fn zeros(count: int) -> Seq<char> {
    Seq::new(
        if count > 0 {
            count as nat
        } else {
            0
        },
        |i: int| '0',
    )
}

/// The numeral of `value` filled with zeros up to `width` characters.  A
/// minus sign comes first and counts towards the width; a numeral that is
/// already wide enough is left as it is.
pub open spec fn padded(value: int, width: nat) -> Seq<char> {
    if value >= 0 {
        zeros(width - numeral(value as nat).len()) + numeral(value as nat)
    } else {
        seq!['-'] + zeros(width - 1 - numeral((-value) as nat).len()) + numeral((-value) as nat)
    }
}

/// The two digits of `n`, tens first.
pub open spec fn two_digits(n: int) -> Seq<char> {
    seq![digit_char(n / 10), digit_char(n % 10)]
}

/// The four digits of `n`, thousands first.
pub open spec fn four_digits(n: int) -> Seq<char> {
    seq![
        digit_char(n / 1000),
        digit_char(n / 100 % 10),
        digit_char(n / 10 % 10),
        digit_char(n % 10),
    ]
}

/// Filled to two characters, a number below a hundred is exactly its two
/// digits.
pub proof fn lemma_padded_two(n: int)
    requires
        0 <= n <= 99,
    ensures
        padded(n, 2) == two_digits(n),
{
    reveal_with_fuel(digits, 3);
    assert(padded(n, 2) =~= two_digits(n));
}

/// Filled to four characters, a number below ten thousand is exactly its
/// four digits.
pub proof fn lemma_padded_four(n: int)
    requires
        0 <= n <= 9999,
    ensures
        padded(n, 4) == four_digits(n),
{
    reveal_with_fuel(digits, 5);
    assert(padded(n, 4) =~= four_digits(n));
}

/// Ten to the power `k`.
spec fn pow10(k: nat) -> nat
    decreases k,
{
    if k == 0 {
        1
    } else {
        10 * pow10((k - 1) as nat)
    }
}

/// A number below ten to the `k` has at most `k` digits.
proof fn lemma_digits_len(n: nat, k: nat)
    requires
        n < pow10(k),
    ensures
        digits(n).len() <= k,
    decreases k,
{
    if n != 0 {
        lemma_digits_len(n / 10, (k - 1) as nat);
    }
}

/// The one-character text of the digit `d`.
fn digit_text(d: u64) -> (text: &'static str)
    requires
        d < 10,
    ensures
        text@ == seq![digit_char(d as int)],
{
    proof {
        reveal_strlit("0");
        reveal_strlit("1");
        reveal_strlit("2");
        reveal_strlit("3");
        reveal_strlit("4");
        reveal_strlit("5");
        reveal_strlit("6");
        reveal_strlit("7");
        reveal_strlit("8");
        reveal_strlit("9");
    }
    let text = if d == 0 {
        "0"
    } else if d == 1 {
        "1"
    } else if d == 2 {
        "2"
    } else if d == 3 {
        "3"
    } else if d == 4 {
        "4"
    } else if d == 5 {
        "5"
    } else if d == 6 {
        "6"
    } else if d == 7 {
        "7"
    } else if d == 8 {
        "8"
    } else {
        "9"
    };
    assert(text@ =~= seq![digit_char(d as int)]);
    text
}

/// Appends the digits of `n` to `out`; nothing for zero.
fn push_digits(out: &mut String, n: u64)
    ensures
        final(out)@ == old(out)@ + digits(n as nat),
    decreases n,
{
    if n != 0 {
        push_digits(out, n / 10);
        out.append(digit_text(n % 10));
        assert(final(out)@ =~= old(out)@ + digits(n as nat));
    } else {
        assert(final(out)@ =~= old(out)@ + digits(n as nat));
    }
}

/// How many characters the numeral of `n` has.
fn numeral_len(n: u64) -> (len: usize)
    ensures
        len == numeral(n as nat).len(),
        1 <= len <= 20,
{
    if n == 0 {
        return 1;
    }
    proof {
        reveal_with_fuel(pow10, 21);
        lemma_digits_len(n as nat, 20);
    }
    let mut rest: u64 = n;
    let mut len: usize = 0;
    while rest != 0
        invariant
            len + digits(rest as nat).len() == digits(n as nat).len(),
            digits(n as nat).len() <= 20,
        decreases rest,
    {
        rest = rest / 10;
        len = len + 1;
    }
    len
}

/// Writes `value` in decimal, filled with zeros up to `width` characters.
pub fn pad_number(value: i64, width: usize) -> (text: String)
    ensures
        text@ == padded(value as int, width as nat),
{
    let mut text = String::new();
    let magnitude: u64 = if value >= 0 {
        value as u64
    } else {
        proof {
            reveal_strlit("-");
        }
        text.append("-");
        ((-(value + 1)) as u64) + 1
    };
    let ghost sign = text@;
    let taken: usize = numeral_len(magnitude) + (if value >= 0 { 0 } else { 1 });
    let mut filled: usize = taken;
    while filled < width
        invariant
            text@ =~= sign + zeros(filled - taken),
            taken <= filled,
            filled <= width || filled == taken,
        decreases width - filled,
    {
        proof {
            reveal_strlit("0");
        }
        text.append("0");
        filled = filled + 1;
    }
    if magnitude == 0 {
        proof {
            reveal_strlit("0");
        }
        text.append("0");
    } else {
        push_digits(&mut text, magnitude);
    }
    assert(text@ =~= padded(value as int, width as nat));
    text
}

} // verus!
