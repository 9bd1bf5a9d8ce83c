//! Decimal notation: the mathematical meaning of a run of decimal digits,
//! the canonical decimal text of a natural number, and the two facts that
//! make them inverse to each other.

use vstd::prelude::*;

verus! {

/// Whether `c` is one of the ten ASCII decimal digits.
pub open spec fn is_digit(c: char) -> bool {
    '0' <= c <= '9'
}

/// The number that the digit `c` stands for.
pub open spec fn digit_value(c: char) -> nat
    recommends
        is_digit(c),
{
    (c as int - '0' as int) as nat
}

/// The digit that stands for `d`.
pub open spec fn digit_char(d: nat) -> char
    recommends
        d < 10,
{
    (d + '0' as nat) as char
}

/// Whether every character of `s` is a decimal digit.
pub open spec fn all_digits(s: Seq<char>) -> bool {
    forall|i: int| 0 <= i < s.len() ==> is_digit(#[trigger] s[i])
}

/// The number written by the digits `s`, most significant digit first.
/// The empty run of digits writes zero.
pub open spec fn digits_value(s: Seq<char>) -> nat
    decreases s.len(),
{
    if s.len() == 0 {
        0
    } else {
        digits_value(s.drop_last()) * 10 + digit_value(s.last())
    }
}

/// The canonical decimal text of `n`: no sign, no leading zero, and the
/// single digit `0` for zero.
pub open spec fn decimal_text(n: nat) -> Seq<char>
    decreases n,
{
    if n < 10 {
        seq![digit_char(n)]
    } else {
        decimal_text(n / 10).push(digit_char(n % 10))
    }
}

/// Whether `s` is the canonical decimal text of some number: digits only,
/// at least one, and no leading zero unless the text is `0` itself.
pub open spec fn is_canonical(s: Seq<char>) -> bool {
    &&& s.len() >= 1
    &&& all_digits(s)
    &&& (s.len() == 1 || s[0] != '0')
}

/// A digit and its value determine each other.
pub proof fn lemma_digit_round_trip()
    ensures
        forall|d: nat| d < 10 ==> is_digit(#[trigger] digit_char(d)) && digit_value(digit_char(d)) == d,
        forall|c: char| is_digit(c) ==> digit_value(c) < 10 && #[trigger] digit_char(digit_value(c)) == c,
{
}

/// The canonical text of a number is canonical.
pub proof fn lemma_decimal_text_is_canonical(n: nat)
    ensures
        is_canonical(decimal_text(n)),
        n < 10 <==> decimal_text(n).len() == 1,
    decreases n,
{
    lemma_digit_round_trip();
    if n >= 10 {
        lemma_decimal_text_is_canonical(n / 10);
        let head = decimal_text(n / 10);
        let whole = decimal_text(n);
        assert(whole =~= head.push(digit_char(n % 10)));
        assert forall|i: int| 0 <= i < whole.len() implies is_digit(#[trigger] whole[i]) by {
            if i < head.len() {
                assert(whole[i] == head[i]);
            }
        }
        assert(whole[0] == head[0]);
        if head.len() == 1 {
            assert(n / 10 < 10);
            assert(head[0] == digit_char(n / 10));
            assert(digit_value(head[0]) == n / 10);
        }
    }
}

/// Reading the canonical text of a number gives the number back.
pub proof fn lemma_value_of_decimal_text(n: nat)
    ensures
        digits_value(decimal_text(n)) == n,
    decreases n,
{
    lemma_digit_round_trip();
    if n < 10 {
        let s = decimal_text(n);
        assert(s.drop_last() =~= Seq::<char>::empty());
        assert(digits_value(s.drop_last()) == 0);
    } else {
        lemma_value_of_decimal_text(n / 10);
        let s = decimal_text(n);
        assert(s.drop_last() =~= decimal_text(n / 10));
        assert(s.last() == digit_char(n % 10));
    }
}

/// Writing the number that a canonical text reads as gives the text back.
pub proof fn lemma_decimal_text_of_value(s: Seq<char>)
    requires
        is_canonical(s),
    ensures
        decimal_text(digits_value(s)) == s,
    decreases s.len(),
{
    lemma_digit_round_trip();
    let head = s.drop_last();
    if s.len() == 1 {
        assert(head =~= Seq::<char>::empty());
        assert(digits_value(head) == 0);
        assert(digits_value(s) == digit_value(s[0]));
        assert(decimal_text(digits_value(s)) =~= s);
    } else {
        assert(head[0] == s[0]);
        assert(is_canonical(head));
        lemma_decimal_text_of_value(head);
        lemma_leading_digit_bounds(head);
        let v = digits_value(s);
        assert(v == digits_value(head) * 10 + digit_value(s.last()));
        assert(v / 10 == digits_value(head));
        assert(v % 10 == digit_value(s.last()));
        assert(v >= 10);
        assert(decimal_text(v) =~= s);
    }
}

/// A run of digits that does not start with `0` writes a positive number.
pub proof fn lemma_leading_digit_bounds(s: Seq<char>)
    requires
        s.len() >= 1,
        all_digits(s),
        s[0] != '0',
    ensures
        digits_value(s) >= 1,
    decreases s.len(),
{
    if s.len() == 1 {
        assert(s.drop_last() =~= Seq::<char>::empty());
        assert(digits_value(s.drop_last()) == 0);
    } else {
        let head = s.drop_last();
        assert(head[0] == s[0]);
        lemma_leading_digit_bounds(head);
    }
}

/// Appending one digit multiplies the number by ten and adds the digit.
pub proof fn lemma_digits_value_push(s: Seq<char>, c: char)
    ensures
        digits_value(s.push(c)) == digits_value(s) * 10 + digit_value(c),
{
    let t = s.push(c);
    assert(t.drop_last() =~= s);
    assert(t.last() == c);
}

/// The one-character text of a digit.
fn digit_text(d: u64) -> (r: &'static str)
    requires
        d < 10,
    ensures
        r@ == seq![digit_char(d as nat)],
{
    proof {
        reveal_strlit("0");
        reveal_strlit("1");
        reveal_strlit("2");
        reveal_strlit("3");
        reveal_strlit("4");
        reveal_strlit("5");
        reveal_strlit("6");
        reveal_strlit("7");
        reveal_strlit("8");
        reveal_strlit("9");
    }
    let r = if d == 0 {
        "0"
    } else if d == 1 {
        "1"
    } else if d == 2 {
        "2"
    } else if d == 3 {
        "3"
    } else if d == 4 {
        "4"
    } else if d == 5 {
        "5"
    } else if d == 6 {
        "6"
    } else if d == 7 {
        "7"
    } else if d == 8 {
        "8"
    } else {
        "9"
    };
    assert(r@ =~= seq![digit_char(d as nat)]);
    r
}

/// Renders `n` in canonical decimal notation.
pub fn u64_to_decimal(n: u64) -> (r: String)
    ensures
        r@ == decimal_text(n as nat),
    decreases n,
{
    if n < 10 {
        String::from_str(digit_text(n))
    } else {
        let mut r = u64_to_decimal(n / 10);
        r.append(digit_text(n % 10));
        assert(r@ =~= decimal_text(n as nat));
        r
    }
}

} // verus!
