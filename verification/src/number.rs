//! Thousands-separated rendering of fixed-point decimal amounts.

use vstd::prelude::*;
use crate::text::{decimal, digits_value, is_digit_char, lemma_decimal_no_comma_digits, lemma_decimal_value, push_char, push_chars, push_decimal};

verus! {

/// A fixed-point decimal amount: `(-1)^negative * scaled / 10^precision`.
///
/// `negative` records the sign of the amount before it was rounded, so that a
/// small negative amount that rounds to zero still prints with its minus sign.
pub struct Decimal {
    pub negative: bool,
    pub scaled: u128,
    pub precision: usize,
}

/// `n` zero digits.
pub open spec fn zeros(n: nat) -> Seq<char> {
    Seq::new(n, |i: int| '0')
}

/// The digits of `scaled`, with leading zeros so that there are at least
/// `precision + 1` of them (one integer digit, then the fraction).
pub open spec fn padded_digits(scaled: nat, precision: nat) -> Seq<char> {
    let d = decimal(scaled);
    if d.len() < precision + 1 {
        zeros((precision + 1 - d.len()) as nat) + d
    } else {
        d
    }
}

/// The digits before the decimal point.
pub open spec fn integer_digits(amount: Decimal) -> Seq<char> {
    let d = padded_digits(amount.scaled as nat, amount.precision as nat);
    d.take(d.len() - amount.precision)
}

/// The `precision` digits after the decimal point.
pub open spec fn fraction_digits(amount: Decimal) -> Seq<char> {
    let d = padded_digits(amount.scaled as nat, amount.precision as nat);
    d.skip(d.len() - amount.precision)
}

/// `digits` with a comma before every group of three digits counted from the right.
pub open spec fn group_thousands(digits: Seq<char>) -> Seq<char>
    decreases digits.len(),
{
    if digits.len() <= 3 {
        digits
    } else {
        group_thousands(digits.take(digits.len() - 3)) + seq![','] + digits.skip(digits.len() - 3)
    }
}

/// The text of an amount: an optional minus sign, the integer digits grouped
/// by thousands, then a point and the fraction digits when the precision is positive.
pub open spec fn commas_text(amount: Decimal) -> Seq<char> {
    let sign = if amount.negative { seq!['-'] } else { Seq::<char>::empty() };
    let fraction = if amount.precision > 0 {
        seq!['.'] + fraction_digits(amount)
    } else {
        Seq::<char>::empty()
    };
    sign + group_thousands(integer_digits(amount)) + fraction
}

/// Whether a character is not the thousands separator.
pub open spec fn not_comma(c: char) -> bool {
    c != ','
}

/// Appends `group_thousands(ds[..end])` to `s`.
fn push_grouped(s: &mut String, ds: &Vec<char>, end: usize)
    requires
        end <= ds@.len(),
    ensures
        final(s)@ == old(s)@ + group_thousands(ds@.take(end as int)),
    decreases end,
{
    if end <= 3 {
        push_chars(s, ds, 0, end);
        assert(ds@.subrange(0, end as int) =~= ds@.take(end as int));
    } else {
        push_grouped(s, ds, end - 3);
        push_char(s, ',');
        push_chars(s, ds, end - 3, end);
        let ghost t = ds@.take(end as int);
        assert(t.take(t.len() - 3) =~= ds@.take(end - 3));
        assert(t.skip(t.len() - 3) =~= ds@.subrange(end - 3, end as int));
        assert(final(s)@ =~= old(s)@ + group_thousands(t));
    }
}

/// Renders a decimal amount with a comma between thousands, e.g. `1,234.6`,
/// `-500.6`, `1,000,000` or `0.00`.
pub fn format_with_commas(amount: &Decimal) -> (r: String)
    ensures
        r@ == commas_text(*amount),
{
    let p = amount.precision;
    let mut raw: Vec<char> = Vec::new();
    push_decimal(&mut raw, amount.scaled);
    assert(raw@ =~= decimal(amount.scaled as nat));
    let ghost pd = padded_digits(amount.scaled as nat, p as nat);
    let mut ds: Vec<char> = Vec::new();
    if raw.len() <= p {
        let n = p - raw.len() + 1;
        let mut i: usize = 0;
        while i < n
            invariant
                i <= n,
                ds@ =~= zeros(i as nat),
            decreases n - i,
        {
            ds.push('0');
            i = i + 1;
        }
        let mut j: usize = 0;
        while j < raw.len()
            invariant
                j <= raw@.len(),
                ds@ =~= zeros(n as nat) + raw@.take(j as int),
            decreases raw@.len() - j,
        {
            ds.push(raw[j]);
            j = j + 1;
            assert(raw@.take(j as int) =~= raw@.take(j - 1).push(raw@[j - 1]));
        }
        assert(raw@.take(raw@.len() as int) =~= raw@);
    } else {
        ds = raw;
    }
    assert(ds@ =~= pd);
    let int_len = ds.len() - p;
    let mut r = String::new();
    if amount.negative {
        push_char(&mut r, '-');
    }
    push_grouped(&mut r, &ds, int_len);
    if p > 0 {
        push_char(&mut r, '.');
        push_chars(&mut r, &ds, int_len, ds.len());
    }
    assert(ds@.skip(int_len as int) =~= ds@.subrange(int_len as int, ds@.len() as int));
    assert(r@ =~= commas_text(*amount));
    r
}

/// A digit sequence without separators is left unchanged when separators are removed.
pub proof fn lemma_filter_keeps_plain_digits(s: Seq<char>)
    requires
        forall|i: int| 0 <= i < s.len() ==> s[i] != ',',
    ensures
        s.filter(|c: char| not_comma(c)) == s,
    decreases s.len(),
{
    reveal(Seq::filter);
    if s.len() > 0 {
        lemma_filter_keeps_plain_digits(s.drop_last());
        assert(s.drop_last().push(s.last()) =~= s);
    }
}

/// Grouping by thousands only inserts separators: removing the commas from
/// the grouped text gives back the digits, for any digit sequence without commas.
pub proof fn lemma_group_thousands_only_inserts_commas(digits: Seq<char>)
    requires
        forall|i: int| 0 <= i < digits.len() ==> digits[i] != ',',
    ensures
        group_thousands(digits).filter(|c: char| not_comma(c)) == digits,
    decreases digits.len(),
{
    let f = |c: char| not_comma(c);
    if digits.len() <= 3 {
        lemma_filter_keeps_plain_digits(digits);
    } else {
        let head = digits.take(digits.len() - 3);
        let tail = digits.skip(digits.len() - 3);
        lemma_group_thousands_only_inserts_commas(head);
        lemma_filter_keeps_plain_digits(tail);
        Seq::filter_distributes_over_add(group_thousands(head) + seq![','], tail, f);
        Seq::filter_distributes_over_add(group_thousands(head), seq![','], f);
        assert(seq![','].filter(f) =~= Seq::<char>::empty()) by {
            reveal_with_fuel(Seq::filter, 2);
            assert(seq![','].drop_last() =~= Seq::<char>::empty());
            assert(!f(seq![','].last()));
        }
        assert(head + tail =~= digits);
    }
}

/// Grouping `n > 0` digits adds one comma for each complete group of three
/// digits after the first digit: the text is `n + (n - 1) / 3` characters long.
pub proof fn lemma_group_thousands_length(digits: Seq<char>)
    ensures
        digits.len() > 0 ==> group_thousands(digits).len() == digits.len() + (digits.len() - 1) / 3,
    decreases digits.len(),
{
    if digits.len() > 3 {
        lemma_group_thousands_length(digits.take(digits.len() - 3));
    }
}

/// The decimal digits of any number contain no comma.
pub proof fn lemma_decimal_has_no_comma(n: nat)
    ensures
        forall|i: int| 0 <= i < decimal(n).len() ==> decimal(n)[i] != ',',
        decimal(n).len() >= 1,
    decreases n,
{
    if n >= 10 {
        lemma_decimal_has_no_comma(n / 10);
    }
}

/// Writing a whole, non-negative amount with separators and then removing
/// the separators gives back exactly its decimal digits.
pub proof fn lemma_whole_amount_digits(amount: Decimal)
    requires
        amount.precision == 0,
        !amount.negative,
    ensures
        commas_text(amount).filter(|c: char| not_comma(c)) == decimal(amount.scaled as nat),
{
    let d = decimal(amount.scaled as nat);
    lemma_decimal_has_no_comma(amount.scaled as nat);
    assert(padded_digits(amount.scaled as nat, 0) == d);
    assert(integer_digits(amount) =~= d);
    assert(commas_text(amount) =~= group_thousands(d));
    lemma_group_thousands_only_inserts_commas(d);
}

/// Ten to the power `e`.
pub open spec fn pow10(e: nat) -> nat
    decreases e,
{
    if e == 0 { 1 } else { 10 * pow10((e - 1) as nat) }
}

/// A digit sequence denotes its first `k` digits shifted left by the number
/// of remaining digits, plus the remaining digits.
pub proof fn lemma_digits_value_split(s: Seq<char>, k: int)
    requires
        0 <= k <= s.len(),
    ensures
        digits_value(s) == digits_value(s.take(k)) * pow10((s.len() - k) as nat) + digits_value(s.skip(k)),
    decreases s.len(),
{
    if k == s.len() {
        assert(s.take(k) =~= s);
        assert(s.skip(k) =~= Seq::<char>::empty());
        assert(digits_value(s.skip(k)) == 0);
        assert(pow10((s.len() - k) as nat) == 1);
        assert(digits_value(s.take(k)) == digits_value(s));
        assert(digits_value(s.take(k)) * 1 == digits_value(s.take(k)));
    } else {
        let t = s.drop_last();
        lemma_digits_value_split(t, k);
        assert(t.take(k) =~= s.take(k));
        assert(s.skip(k).drop_last() =~= t.skip(k));
        assert(s.skip(k).last() == s.last());
        let a = digits_value(s.take(k));
        let p = pow10((t.len() - k) as nat);
        let b = digits_value(t.skip(k));
        let l = s.last() as int - 48;
        assert(digits_value(s) == digits_value(t) * 10 + l);
        assert(digits_value(s.skip(k)) == b * 10 + l);
        assert(pow10((s.len() - k) as nat) == 10 * p);
        assert((a * p + b) * 10 + l == a * (10 * p) + (b * 10 + l)) by (nonlinear_arith);
        assert(digits_value(t) == a * p + b);
        assert(digits_value(s) == a * pow10((s.len() - k) as nat) + digits_value(s.skip(k)));
    }
}

/// Zero digits denote zero.
pub proof fn lemma_zeros_value(n: nat)
    ensures
        digits_value(zeros(n)) == 0,
        forall|i: int| 0 <= i < n ==> is_digit_char(#[trigger] zeros(n)[i]),
    decreases n,
{
    if n > 0 {
        lemma_zeros_value((n - 1) as nat);
        assert(zeros(n).drop_last() =~= zeros((n - 1) as nat));
        assert('0' as int == 48);
    }
}

/// The padded digits of an amount are decimal digits, at least
/// `precision + 1` of them, and they denote the scaled amount.
pub proof fn lemma_padded_digits(scaled: nat, precision: nat)
    ensures
        padded_digits(scaled, precision).len() >= precision + 1,
        digits_value(padded_digits(scaled, precision)) == scaled,
        forall|i: int| 0 <= i < padded_digits(scaled, precision).len() ==> is_digit_char(
            #[trigger] padded_digits(scaled, precision)[i],
        ),
{
    let d = decimal(scaled);
    lemma_decimal_value(scaled);
    lemma_decimal_no_comma_digits(scaled);
    if d.len() < precision + 1 {
        let n = (precision + 1 - d.len()) as nat;
        let z = zeros(n);
        let s = z + d;
        lemma_zeros_value(n);
        lemma_digits_value_split(s, n as int);
        assert(s.take(n as int) =~= z);
        assert(s.skip(n as int) =~= d);
        assert forall|i: int| 0 <= i < s.len() implies is_digit_char(#[trigger] s[i]) by {
            if i < n {
                assert(s[i] == z[i]);
            } else {
                assert(s[i] == d[i - n]);
            }
        }
    }
}

/// The grouped text of a non-empty digit sequence starts with its first digit.
pub proof fn lemma_group_thousands_first(digits: Seq<char>)
    requires
        digits.len() > 0,
    ensures
        group_thousands(digits).len() > 0,
        group_thousands(digits)[0] == digits[0],
    decreases digits.len(),
{
    if digits.len() > 3 {
        let head = digits.take(digits.len() - 3);
        lemma_group_thousands_first(head);
    }
}

/// The text of an amount denotes it: it starts with a minus sign exactly when
/// the amount is negative; its integer digits, once the separators are
/// removed, and its `precision` fraction digits after the point together
/// denote the scaled amount.
pub proof fn lemma_commas_text_denotes_amount(amount: Decimal)
    ensures
        ({
            let t = commas_text(amount);
            &&& t.len() > 0
            &&& (t[0] == '-' <==> amount.negative)
        }),
        integer_digits(amount).len() >= 1,
        fraction_digits(amount).len() == amount.precision,
        group_thousands(integer_digits(amount)).filter(|c: char| not_comma(c)) == integer_digits(amount),
        digits_value(integer_digits(amount)) * pow10(amount.precision as nat) + digits_value(fraction_digits(amount))
            == amount.scaled,
        amount.precision > 0 ==> ({
            let t = commas_text(amount);
            t.skip(t.len() - amount.precision - 1) == seq!['.'] + fraction_digits(amount)
        }),
        amount.precision == 0 ==> commas_text(amount).last() != '.',
{
    let p = amount.precision as nat;
    let d = padded_digits(amount.scaled as nat, p);
    lemma_padded_digits(amount.scaled as nat, p);
    let k = d.len() - p;
    lemma_digits_value_split(d, k);
    let int_d = integer_digits(amount);
    let frac = fraction_digits(amount);
    assert(int_d == d.take(k));
    assert(frac == d.skip(k));
    assert(forall|i: int| 0 <= i < int_d.len() ==> int_d[i] == d[i]);
    assert forall|i: int| 0 <= i < int_d.len() implies int_d[i] != ',' by {
        assert(is_digit_char(d[i]));
    }
    lemma_group_thousands_only_inserts_commas(int_d);
    lemma_group_thousands_first(int_d);
    assert(is_digit_char(d[0]));
    let sign = if amount.negative { seq!['-'] } else { Seq::<char>::empty() };
    let fr = if amount.precision > 0 { seq!['.'] + frac } else { Seq::<char>::empty() };
    let g = group_thousands(int_d);
    let t = commas_text(amount);
    assert(t == sign + g + fr);
    if amount.negative {
        assert(t[0] == '-');
    } else {
        assert(t[0] == g[0]);
    }
    if amount.precision > 0 {
        assert(t.skip(t.len() - amount.precision - 1) =~= fr);
    } else {
        lemma_group_thousands_length(int_d);
        assert(t =~= sign + g);
        lemma_group_thousands_last(int_d);
        assert(is_digit_char(int_d.last()));
    }
}

/// The grouped text of a non-empty digit sequence ends with its last digit.
pub proof fn lemma_group_thousands_last(digits: Seq<char>)
    requires
        digits.len() > 0,
    ensures
        group_thousands(digits).len() > 0,
        group_thousands(digits).last() == digits.last(),
    decreases digits.len(),
{
    if digits.len() > 3 {
        lemma_group_thousands_last(digits.take(digits.len() - 3));
    }
}

} // verus!
