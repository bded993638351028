//! What holds of cutting texts, and of reading and writing numbers.

use crate::text::Cut;
use vstd::arithmetic::power::pow;
use vstd::prelude::*;

verus! {

/// A text that is cut at one character is cut there and nowhere else.
pub proof fn cut_at_one_character(sep: char, c: char)
    ensures
        Cut::At(sep).cuts(c) <==> c == sep,
{
}

/// No digit, letter or mark of the texts of the kernel is white space, and the space, the tab and
/// the line feed are.
pub proof fn only_space_is_white(c: char)
    ensures
        0x21 <= c as u32 <= 0x7e ==> !Cut::White.cuts(c),
        c == ' ' || c == '\t' || c == '\n' ==> Cut::White.cuts(c),
{
}

/// The texts of a list stand where the strings stand.
pub proof fn texts_keep_their_places(v: Seq<String>, i: int)
    requires
        0 <= i < v.len(),
    ensures
        crate::text::texts(v).len() == v.len(),
        crate::text::texts(v)[i] == v[i]@,
{
}

/// Dropping empty pieces drops nothing else, wherever the pieces stand.
pub proof fn only_empty_pieces_are_dropped(a: Seq<Seq<char>>, p: Seq<char>, b: Seq<Seq<char>>)
    ensures
        crate::text::nonempty(a.push(p) + b) == crate::text::nonempty(a) + (if p.len() > 0 {
            seq![p]
        } else {
            Seq::empty()
        }) + crate::text::nonempty(b),
        crate::text::nonempty(Seq::empty()) == Seq::<Seq<char>>::empty(),
{
    let keep = |q: Seq<char>| q.len() > 0;
    Seq::filter_distributes_over_add(a.push(p), b, keep);
    assert(a.push(p) =~= a + seq![p]);
    Seq::filter_distributes_over_add(a, seq![p], keep);
    assert(seq![p].drop_last() =~= Seq::empty());
    reveal_with_fuel(Seq::filter, 2);
    assert(seq![p].filter(keep) =~= (if p.len() > 0 {
        seq![p]
    } else {
        Seq::empty()
    }));
}

/// The ten figures count from 0 to 9 and the letters from 10 to 35, small or capital; no other
/// character is a digit in any radix.
pub proof fn digits_count_up(c: char)
    ensures
        '0' <= c <= '9' ==> crate::text::digit_value(c) + '0' as int == c as int,
        'a' <= c <= 'z' ==> crate::text::digit_value(c) + 'a' as int == c as int + 10,
        'A' <= c <= 'Z' ==> crate::text::digit_value(c) + 'A' as int == c as int + 10,
        !('0' <= c <= '9') && !('a' <= c <= 'z') && !('A' <= c <= 'Z')
            ==> crate::text::digit_value(c) >= 36,
{
}

/// The place of a digit gives it its weight: the first of a text counts as often as the radix to
/// the number of digits behind it.
pub proof fn digits_weigh_by_their_place(c: char, s: Seq<char>, radix: nat)
    ensures
        crate::text::value_of(seq![c] + s, radix) == crate::text::digit_value(c) * pow(
            radix as int,
            s.len(),
        ) + crate::text::value_of(s, radix),
        crate::text::value_of(Seq::empty(), radix) == 0,
    decreases s.len(),
{
    reveal(pow);
    let t = seq![c] + s;
    if s.len() == 0 {
        assert(t.drop_last() =~= Seq::empty());
        assert(t.last() == c);
        let d = crate::text::digit_value(c) as int;
        let v = crate::text::value_of(t.drop_last(), radix);
        assert(v == 0) by {
            assert(t.drop_last().len() == 0);
        }
        assert(v * radix == 0) by (nonlinear_arith)
            requires
                v == 0,
        ;
        assert(crate::text::value_of(t, radix) == v * radix + d);
        assert(d * 1 == d);
    } else {
        digits_weigh_by_their_place(c, s.drop_last(), radix);
        assert(t.drop_last() =~= seq![c] + s.drop_last());
        assert(t.last() == s.last());
        let d = crate::text::digit_value(c) as int;
        let p = pow(radix as int, (s.len() - 1) as nat);
        let v = crate::text::value_of(s.drop_last(), radix) as int;
        let r = radix as int;
        assert((d * p + v) * r == d * (r * p) + v * r) by (nonlinear_arith);
    }
}

/// A text is a number exactly if it holds digits of the radix alone, at least one, and its value
/// does not exceed the limit; the number is that value.
pub proof fn numbers_are_made_of_digits(s: Seq<char>, radix: nat, max: nat)
    requires
        s.len() == 0 || s[0] != '+',
    ensures
        crate::text::number_of(s, radix, max) is Some <==> s.len() > 0 && crate::text::value_of(
            s,
            radix,
        ) <= max && forall|i: int|
            0 <= i < s.len() ==> crate::text::digit_value(#[trigger] s[i]) < radix,
        crate::text::number_of(s, radix, max) matches Some(n) ==> n == crate::text::value_of(
            s,
            radix,
        ),
{
    if crate::text::number_of(s, radix, max) is Some {
        assert forall|i: int| 0 <= i < s.len() implies crate::text::digit_value(#[trigger] s[i])
            < radix by {
            assert(crate::text::all_digits(s, radix));
            assert(crate::text::digit_value(s[i]) < radix);
        }
    }
}

/// One plus sign before the digits changes nothing; it is no number by itself, and a second sign
/// is none either.
pub proof fn one_plus_sign_is_skipped(s: Seq<char>, radix: nat, max: nat)
    requires
        radix <= 36,
    ensures
        s.len() == 0 || s[0] != '+' ==> crate::text::number_of(seq!['+'] + s, radix, max)
            == crate::text::number_of(s, radix, max),
        s.len() > 0 && (s[0] == '+' || s[0] == '-') ==> crate::text::number_of(
            seq!['+'] + s,
            radix,
            max,
        ) is None,
        s.len() > 0 && s[0] == '-' ==> crate::text::number_of(s, radix, max) is None,
{
    let t = seq!['+'] + s;
    assert(t.drop_first() =~= s);
    if s.len() > 0 && (s[0] == '+' || s[0] == '-') {
        assert(crate::text::digit_value(s[0]) >= radix);
    }
}

/// The limit only decides whether there is a number, not which.
pub proof fn limit_changes_no_number(s: Seq<char>, radix: nat, low: nat, high: nat)
    requires
        low <= high,
    ensures
        crate::text::number_of(s, radix, low) is Some ==> crate::text::number_of(s, radix, high)
            == crate::text::number_of(s, radix, low),
        crate::text::number_of(s, radix, high) matches Some(n) ==> crate::text::number_of(
            s,
            radix,
            low,
        ) == (if n <= low {
            Some(n)
        } else {
            None
        }),
{
}

/// Whether a text is the plain numeral of `n`: figures and small letters alone, without sign and
/// without leading zeros.
pub open spec fn is_numeral(s: Seq<char>, n: nat, radix: nat) -> bool {
    &&& crate::text::number_of(s, radix, n) == Some(n)
    &&& s.len() > 1 ==> s[0] != '0'
    &&& forall|i: int|
        0 <= i < s.len() ==> '0' <= #[trigger] s[i] <= '9' || 'a' <= s[i] <= 'f'
}

/// Whether a text is the plain numeral of a number that can be negative.
pub open spec fn is_signed_numeral(s: Seq<char>, n: int) -> bool {
    if n < 0 {
        s.len() > 0 && s[0] == '-' && is_numeral(s.drop_first(), (-n) as nat, 10)
    } else {
        is_numeral(s, n as nat, 10)
    }
}

/// What is written for a number is its plain numeral.
pub proof fn numbers_are_written_plainly(n: nat, radix: nat)
    requires
        2 <= radix <= 16,
    ensures
        is_numeral(crate::text::digits_of(n, radix), n, radix),
    decreases n,
{
    let d = crate::text::digits_of(n, radix);
    crate::text::written_number_reads_back(n, radix, n);
    if n < radix {
        assert('0' <= d[0] <= '9' || 'a' <= d[0] <= 'f');
    } else {
        vstd::arithmetic::div_mod::lemma_div_decreases(n as int, radix as int);
        vstd::arithmetic::div_mod::lemma_div_non_zero(n as int, radix as int);
        vstd::arithmetic::div_mod::lemma_mod_bound(n as int, radix as int);
        let m = n / radix;
        let e = crate::text::digits_of(m, radix);
        numbers_are_written_plainly(m, radix);
        assert(e.len() > 0);
        if e.len() == 1 {
            assert(m > 0);
            if e[0] == '0' {
                crate::text::lemma_digits(m, radix);
                assert(e.drop_last() =~= Seq::empty());
                assert(crate::text::value_of(e.drop_last(), radix) == 0);
                assert(crate::text::value_of(e, radix) == 0 * radix + 0);
                assert(false);
            }
        }
        assert forall|i: int| 0 <= i < d.len() implies '0' <= #[trigger] d[i] <= '9' || 'a' <= d[i]
            <= 'f' by {
            if i < e.len() {
                assert(d[i] == e[i]);
            }
        }
    }
}

/// What is written for a number that can be negative is its plain numeral.
pub proof fn signed_numbers_are_written_plainly(n: int)
    ensures
        is_signed_numeral(crate::text::signed_digits_of(n), n),
{
    if n < 0 {
        numbers_are_written_plainly((-n) as nat, 10);
        let s = crate::text::signed_digits_of(n);
        assert(s.drop_first() =~= crate::text::digits_of((-n) as nat, 10));
    } else {
        numbers_are_written_plainly(n as nat, 10);
    }
}

/// Two numbers have one numeral only if they are the same.
pub proof fn numerals_tell_numbers_apart(s: Seq<char>, m: nat, n: nat, radix: nat)
    requires
        is_numeral(s, m, radix),
        is_numeral(s, n, radix),
    ensures
        m == n,
{
}

/// A text set flush right ends with the text, has nothing but spaces before it, and is as wide as
/// the field or as the text, whichever is wider.
pub proof fn flush_right_fills_with_spaces(s: Seq<char>, width: nat)
    ensures
        ({
            let t = crate::text::flush_right(s, width);
            let blank = t.len() - s.len();
            &&& t.len() == (if s.len() < width {
                width
            } else {
                s.len()
            })
            &&& t.skip(blank) == s
            &&& forall|i: int| 0 <= i < blank ==> t[i] == ' '
        }),
{
    let t = crate::text::flush_right(s, width);
    assert(t.skip(t.len() - s.len()) =~= s);
}

} // verus!
