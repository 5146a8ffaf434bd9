//! Text building blocks: appending characters, rendering integers in decimal,
//! and replacing one character by another.
use vstd::prelude::*;
use vstd::string::*;

verus! {

/// Appends `c` to `s`: `String::push` from std.
#[verifier::external_body]
pub(crate) fn push_char(s: &mut String, c: char)
    ensures
        final(s)@ == old(s)@.push(c),
{
    s.push(c);
}

/// The decimal digit character of `d` (for `0 <= d < 10`).
pub open spec fn digit_char(d: int) -> char {
    (d + 48) as char
}

/// The decimal digits of a natural number, most significant first, without leading zeros
/// (zero is written `0`).
pub open spec fn decimal_digits(n: nat) -> Seq<char>
    decreases n,
{
    if n < 10 {
        seq![digit_char(n as int)]
    } else {
        decimal_digits(n / 10).push(digit_char((n % 10) as int))
    }
}

/// The decimal text of an integer, as `Display` writes it: a `-` before the digits of a
/// negative number.
pub open spec fn decimal_text(n: int) -> Seq<char> {
    if n < 0 {
        seq!['-'] + decimal_digits((-n) as nat)
    } else {
        decimal_digits(n as nat)
    }
}

fn push_decimal_digits(s: &mut String, n: u64)
    ensures
        final(s)@ == old(s)@ + decimal_digits(n as nat),
    decreases n,
{
    if n >= 10 {
        push_decimal_digits(s, n / 10);
    }
    let d: u64 = n % 10;
    let c: char = if d == 0 { '0' } else if d == 1 { '1' } else if d == 2 { '2' } else if d == 3 { '3' }
        else if d == 4 { '4' } else if d == 5 { '5' } else if d == 6 { '6' } else if d == 7 { '7' }
        else if d == 8 { '8' } else { '9' };
    assert(c == digit_char(d as int));
    push_char(s, c);
    proof {
        if n < 10 {
            assert(decimal_digits(n as nat) == seq![digit_char(n as int)]);
        }
    }
    assert(final(s)@ =~= old(s)@ + decimal_digits(n as nat));
}

/// Appends the decimal text of `n` to `s`.
pub fn push_decimal(s: &mut String, n: i64)
    ensures
        final(s)@ == old(s)@ + decimal_text(n as int),
{
    if n < 0 {
        push_char(s, '-');
        let magnitude: u64 = if n == i64::MIN { 9223372036854775808u64 } else { (-n) as u64 };
        push_decimal_digits(s, magnitude);
        assert(final(s)@ =~= old(s)@ + decimal_text(n as int));
    } else {
        push_decimal_digits(s, n as u64);
    }
}

/// The decimal text of `n`.
pub fn decimal(n: i64) -> (text: String)
    ensures
        text@ == decimal_text(n as int),
{
    let mut text = String::new();
    push_decimal(&mut text, n);
    assert(text@ =~= decimal_text(n as int));
    text
}

/// The number that a string of decimal digits denotes.
pub open spec fn digits_value(s: Seq<char>) -> int
    decreases s.len(),
{
    if s.len() == 0 {
        0
    } else {
        digits_value(s.drop_last()) * 10 + (s.last() as int - 48)
    }
}

/// The decimal digits of `n` are digits, at least one of them, and denote `n`.
pub proof fn lemma_decimal_digits(n: nat)
    ensures
        decimal_digits(n).len() > 0,
        forall|i: int| 0 <= i < decimal_digits(n).len() ==> '0' <= #[trigger] decimal_digits(n)[i] <= '9',
        digits_value(decimal_digits(n)) == n,
    decreases n,
{
    let r = (n % 10) as int;
    assert(digit_char(r) as int == r + 48);
    if n < 10 {
        let d = decimal_digits(n);
        assert(d.drop_last() =~= Seq::<char>::empty());
        assert(digits_value(d.drop_last()) == 0);
        assert(d.last() == digit_char(r));
        assert(digits_value(d) == digits_value(d.drop_last()) * 10 + (d.last() as int - 48));
    } else {
        lemma_decimal_digits(n / 10);
        let d = decimal_digits(n);
        assert(d.drop_last() == decimal_digits(n / 10));
        assert(d.last() == digit_char(r));
        assert(n == (n / 10) * 10 + r);
        assert(digits_value(d) == digits_value(d.drop_last()) * 10 + (d.last() as int - 48));
        assert forall|i: int| 0 <= i < d.len() implies '0' <= #[trigger] d[i] <= '9' by {
            if i < d.len() - 1 {
                assert(d[i] == decimal_digits(n / 10)[i]);
            }
        }
    }
}

/// Distinct integers have distinct decimal texts, and none of them holds a `/`.
pub proof fn lemma_decimal_text_injective(a: int, b: int)
    ensures
        decimal_text(a) == decimal_text(b) ==> a == b,
        !decimal_text(a).contains('/'),
        decimal_text(a).len() > 0,
{
    let ma: nat = if a < 0 { (-a) as nat } else { a as nat };
    let mb: nat = if b < 0 { (-b) as nat } else { b as nat };
    lemma_decimal_digits(ma);
    lemma_decimal_digits(mb);
    let ta = decimal_text(a);
    let tb = decimal_text(b);
    if a < 0 {
        assert(ta.subrange(1, ta.len() as int) =~= decimal_digits(ma));
        assert forall|i: int| 0 <= i < ta.len() implies ta[i] != '/' by {
            if i > 0 {
                assert(ta[i] == decimal_digits(ma)[i - 1]);
            }
        }
    } else {
        assert forall|i: int| 0 <= i < ta.len() implies ta[i] != '/' by {
            assert(ta[i] == decimal_digits(ma)[i]);
        }
    }
    if b < 0 {
        assert(tb.subrange(1, tb.len() as int) =~= decimal_digits(mb));
    }
    if ta == tb {
        if a < 0 && b >= 0 {
            assert(tb[0] == decimal_digits(mb)[0]);
        } else if a >= 0 && b < 0 {
            assert(ta[0] == decimal_digits(ma)[0]);
        } else if a < 0 && b < 0 {
            assert(decimal_digits(ma) == decimal_digits(mb));
        }
    }
}

/// `s` with every occurrence of `from` replaced by `to`.
pub open spec fn replace_char(s: Seq<char>, from: char, to: char) -> Seq<char> {
    s.map_values(|c: char| if c == from { to } else { c })
}

/// `s` with every occurrence of `from` replaced by `to`: `str::replace` with a one-character
/// pattern and replacement.
pub fn replaced(s: &str, from: char, to: char) -> (out: String)
    ensures
        out@ == replace_char(s@, from, to),
{
    let mut out = String::new();
    let n = s.unicode_len();
    let mut i: usize = 0;
    while i < n
        invariant
            n == s@.len(),
            i <= n,
            out@ == replace_char(s@.subrange(0, i as int), from, to),
        decreases n - i,
    {
        let c = s.get_char(i);
        push_char(&mut out, if c == from { to } else { c });
        assert(s@.subrange(0, i + 1) == s@.subrange(0, i as int).push(c));
        assert(out@ =~= replace_char(s@.subrange(0, i + 1), from, to));
        i = i + 1;
    }
    assert(s@.subrange(0, n as int) == s@);
    out
}

} // verus!
