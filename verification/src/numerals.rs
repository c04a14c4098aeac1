//! Decimal numerals: rendering a number as its decimal digit string and
//! parsing a digit string back into a number.
//!
//! Patch components of revision tags are compared as numbers, not as
//! strings, so both directions are specified exactly.

use vstd::prelude::*;

verus! {

/// Whether `c` is a decimal digit.
pub open spec fn is_digit(c: char) -> bool {
    48 <= c as int <= 57
}

/// The numeric value of the digit `c`.
pub open spec fn digit_val(c: char) -> int {
    c as int - 48
}

/// The digit character for a value below ten.
pub open spec fn digit_char(d: int) -> char {
    ((48 + d) as u8) as char
}

/// Whether every character of `s` is a decimal digit.
pub open spec fn all_digits(s: Seq<char>) -> bool {
    forall|i: int| 0 <= i < s.len() ==> is_digit(s[i])
}

/// The number denoted by the digit string `s`, most significant digit first.
pub open spec fn dec_val(s: Seq<char>) -> int
    decreases s.len(),
{
    if s.len() == 0 {
        0
    } else {
        dec_val(s.drop_last()) * 10 + digit_val(s.last())
    }
}

/// Whether `s` parses as a number that fits in `usize`: non-empty, digits
/// only, and within range.
pub open spec fn parses_as_number(s: Seq<char>) -> bool {
    s.len() > 0 && all_digits(s) && dec_val(s) <= usize::MAX as int
}

/// The canonical decimal representation of `n`: no sign, no leading zero
/// except for zero itself.
pub open spec fn dec_rep(n: int) -> Seq<char>
    decreases n,
{
    if n < 10 {
        seq![digit_char(n)]
    } else {
        dec_rep(n / 10).push(digit_char(n % 10))
    }
}

/// A digit string denotes a non-negative number.
pub proof fn lemma_dec_val_non_negative(s: Seq<char>)
    requires
        all_digits(s),
    ensures
        dec_val(s) >= 0,
    decreases s.len(),
{
    if s.len() > 0 {
        lemma_dec_val_non_negative(s.drop_last());
    }
}

/// Extending a digit string multiplies its value by ten and adds the new
/// digit, so the value never shrinks.
pub proof fn lemma_dec_val_prefix_le(s: Seq<char>, i: int, j: int)
    requires
        all_digits(s),
        0 <= i <= j <= s.len(),
    ensures
        dec_val(s.take(i)) <= dec_val(s.take(j)),
    decreases j - i,
{
    if i < j {
        lemma_dec_val_prefix_le(s, i, j - 1);
        let t = s.take(j);
        assert(t.drop_last() =~= s.take(j - 1));
        assert(forall|k: int| 0 <= k < t.len() ==> is_digit(t[k]));
        lemma_dec_val_non_negative(t.drop_last());
    }
}

/// Renders the digit `d` as a one-character string.
fn digit_str(d: usize) -> (r: &'static str)
    requires
        d < 10,
    ensures
        r@ =~= seq![digit_char(d as int)],
{
    proof {
        reveal_strlit("0");
        reveal_strlit("1");
        reveal_strlit("2");
        reveal_strlit("3");
        reveal_strlit("4");
        reveal_strlit("5");
        reveal_strlit("6");
        reveal_strlit("7");
        reveal_strlit("8");
        reveal_strlit("9");
    }
    match d {
        0 => "0",
        1 => "1",
        2 => "2",
        3 => "3",
        4 => "4",
        5 => "5",
        6 => "6",
        7 => "7",
        8 => "8",
        _ => "9",
    }
}

/// Renders `n` in decimal, most significant digit first.
pub fn render_number(n: usize) -> (r: String)
    ensures
        r@ == dec_rep(n as int),
    decreases n,
{
    if n < 10 {
        String::from_str(digit_str(n))
    } else {
        let high = render_number(n / 10);
        let r = high.concat(digit_str(n % 10));
        assert(r@ =~= dec_rep(n as int));
        r
    }
}

/// Parses `s` as a decimal number.  Returns the denoted value exactly when
/// `s` is a non-empty, all-digit string whose value fits in `usize`.
pub fn parse_number(s: &str) -> (r: Option<usize>)
    ensures
        r is Some <==> parses_as_number(s@),
        r is Some ==> r->0 as int == dec_val(s@),
{
    let n = s.unicode_len();
    if n == 0 {
        return None;
    }
    let mut acc: usize = 0;
    let mut i: usize = 0;
    while i < n
        invariant
            0 <= i <= n,
            n == s@.len(),
            all_digits(s@.take(i as int)),
            acc as int == dec_val(s@.take(i as int)),
        decreases n - i,
    {
        let c = s.get_char(i);
        let code = c as u32;
        if code < 48 || code > 57 {
            assert(!is_digit(s@[i as int]));
            return None;
        }
        let d = (code - 48) as usize;
        let scaled = match acc.checked_mul(10) {
            Some(v) => v,
            None => {
                proof {
                    lemma_overflow_carries(s@, i as int);
                }
                return None;
            },
        };
        let next = match scaled.checked_add(d) {
            Some(v) => v,
            None => {
                proof {
                    lemma_overflow_carries(s@, i as int);
                }
                return None;
            },
        };
        proof {
            assert(s@.take(i + 1 as int).drop_last() =~= s@.take(i as int));
        }
        acc = next;
        i = i + 1;
    }
    proof {
        assert(s@.take(n as int) =~= s@);
    }
    Some(acc)
}

/// If the value of some prefix already exceeds `usize::MAX`, the whole
/// string does not parse.
proof fn lemma_overflow_carries(s: Seq<char>, i: int)
    requires
        0 <= i < s.len(),
        all_digits(s.take(i)),
        is_digit(s[i]),
        dec_val(s.take(i)) * 10 + digit_val(s[i]) > usize::MAX as int,
    ensures
        !parses_as_number(s),
{
    if all_digits(s) {
        assert(s.take(i + 1).drop_last() =~= s.take(i));
        assert(dec_val(s.take(i + 1)) > usize::MAX as int);
        lemma_dec_val_prefix_le(s, i + 1, s.len() as int);
        assert(s.take(s.len() as int) =~= s);
    }
}

/// The canonical representation is made of digits and denotes the number it
/// was rendered from.
pub proof fn lemma_dec_rep_val(n: int)
    requires
        n >= 0,
    ensures
        all_digits(dec_rep(n)),
        dec_val(dec_rep(n)) == n,
        dec_rep(n).len() > 0,
    decreases n,
{
    if n < 10 {
        assert(dec_rep(n) =~= seq![digit_char(n)]);
        lemma_digit_char_val(n);
        let r = dec_rep(n);
        assert(r.drop_last() =~= Seq::<char>::empty());
        assert(dec_val(r.drop_last()) == 0);
        assert(dec_val(r) == digit_val(digit_char(n)));
    } else {
        lemma_dec_rep_val(n / 10);
        let r = dec_rep(n);
        assert(r =~= dec_rep(n / 10).push(digit_char(n % 10)));
        assert(r.drop_last() =~= dec_rep(n / 10));
        assert(r.last() == digit_char(n % 10));
        assert(digit_char(n % 10) as int == 48 + n % 10) by {
            lemma_digit_char_val(n % 10);
        }
        assert(forall|k: int| 0 <= k < r.len() ==> is_digit(r[k])) by {
            assert(forall|k: int| 0 <= k < r.len() - 1 ==> r[k] == dec_rep(n / 10)[k]);
        }
        assert(dec_val(r) == (n / 10) * 10 + n % 10);
        assert((n / 10) * 10 + n % 10 == n) by (nonlinear_arith);
    }
}

/// The code point of the digit character for `d`.
proof fn lemma_digit_char_val(d: int)
    requires
        0 <= d <= 9,
    ensures
        digit_char(d) as int == 48 + d,
        is_digit(digit_char(d)),
{
    assert(digit_char(d) as int == 48 + d);
}

} // verus!
