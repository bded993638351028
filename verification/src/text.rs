//! Splitting text into pieces, reading numbers and writing numbers.

use vstd::prelude::*;

verus! {

/// Where a text is cut into pieces.
#[derive(Clone, Copy, Debug, PartialEq, Eq, Structural)]
pub enum Cut {
    /// At every character with the Unicode property White_Space.
    White,
    /// At every occurrence of one character.
    At(char),
}

/// The Unicode property White_Space.
pub open spec fn white(c: char) -> bool {
    let u = c as u32;
    ||| 0x9 <= u <= 0xd
    ||| u == 0x20
    ||| u == 0x85
    ||| u == 0xa0
    ||| u == 0x1680
    ||| 0x2000 <= u <= 0x200a
    ||| u == 0x2028
    ||| u == 0x2029
    ||| u == 0x202f
    ||| u == 0x205f
    ||| u == 0x3000
}

impl Cut {
    /// Whether a text is cut at `c`.
    pub open spec fn cuts(self, c: char) -> bool {
        match self {
            Cut::White => white(c),
            Cut::At(sep) => c == sep,
        }
    }

    /// Tells whether a text is cut at `c`.
    pub fn is_at(self, c: char) -> (b: bool)
        ensures
            b == self.cuts(c),
    {
        match self {
            Cut::White => {
                let u: u32 = c as u32;
                (0x9 <= u && u <= 0xd) || u == 0x20 || u == 0x85 || u == 0xa0 || u == 0x1680 || (
                0x2000 <= u && u <= 0x200a) || u == 0x2028 || u == 0x2029 || u == 0x202f || u
                    == 0x205f || u == 0x3000
            },
            Cut::At(sep) => c == sep,
        }
    }
}

/// Tells whether a text starts with another.
pub fn starts_with(s: &str, lead: &str) -> (b: bool)
    ensures
        b == lead@.is_prefix_of(s@),
{
    let n: usize = lead.unicode_len();
    if s.unicode_len() < n {
        return false;
    }
    let mut i: usize = 0;
    while i < n
        invariant
            i <= n == lead@.len() <= s@.len(),
            forall|j: int| 0 <= j < i ==> lead@[j] == s@[j],
        decreases n - i,
    {
        if s.get_char(i) != lead.get_char(i) {
            assert(lead@[i as int] != s@.take(n as int)[i as int]);
            return false;
        }
        i = i + 1;
    }
    assert(lead@ =~= s@.take(n as int));
    true
}

/// Tells whether two texts are the same.
pub fn same_text(a: &str, b: &str) -> (same: bool)
    ensures
        same == (a@ == b@),
{
    let same = a.unicode_len() == b.unicode_len() && starts_with(a, b);
    assert(a@.take(a@.len() as int) =~= a@);
    same
}

/// The texts of a list of strings.
pub open spec fn texts(v: Seq<String>) -> Seq<Seq<char>> {
    Seq::new(v.len(), |i: int| v[i]@)
}

/// The pieces between the cuts of `s`, empty ones included: one more than there are cuts.
pub open spec fn pieces_of(s: Seq<char>, cut: Cut) -> Seq<Seq<char>>
    decreases s.len(),
{
    if s.len() == 0 {
        seq![Seq::empty()]
    } else {
        let before = pieces_of(s.drop_last(), cut);
        if cut.cuts(s.last()) {
            before.push(Seq::empty())
        } else {
            before.drop_last().push(before.last().push(s.last()))
        }
    }
}

pub proof fn lemma_pieces_nonempty(s: Seq<char>, cut: Cut)
    ensures
        pieces_of(s, cut).len() > 0,
    decreases s.len(),
{
    if s.len() > 0 {
        lemma_pieces_nonempty(s.drop_last(), cut);
    }
}

/// Cuts `s` into its pieces, empty ones included.
pub fn split(s: &str, cut: Cut) -> (out: Vec<String>)
    ensures
        texts(out@) == pieces_of(s@, cut),
{
    let n: usize = s.unicode_len();
    let mut out: Vec<String> = Vec::new();
    let mut start: usize = 0;
    let mut i: usize = 0;
    assert(s@.subrange(0, 0) =~= Seq::<char>::empty());
    assert(s@.take(0) =~= Seq::<char>::empty());
    assert(texts(out@).push(Seq::<char>::empty()) =~= pieces_of(Seq::empty(), cut));
    for c in it: s.chars()
        invariant
            n == s@.len(),
            it.seq() == s@,
            i == it.index(),
            start <= i <= n,
            texts(out@).push(s@.subrange(start as int, i as int)) == pieces_of(
                s@.take(i as int),
                cut,
            ),
    {
        let ghost before = pieces_of(s@.take(i as int), cut);
        assert(s@.take(i + 1).drop_last() =~= s@.take(i as int));
        assert(s@.take(i + 1).last() == c);
        if cut.is_at(c) {
            let piece = s.substring_char(start, i).to_owned();
            out.push(piece);
            start = i + 1;
            assert(texts(out@) =~= before);
            assert(s@.subrange(start as int, i + 1) =~= Seq::<char>::empty());
        } else {
            assert(s@.subrange(start as int, i + 1) =~= s@.subrange(start as int, i as int).push(
                c,
            ));
            assert(before.drop_last() =~= texts(out@));
        }
        i = i + 1;
    }
    assert(s@.take(n as int) =~= s@);
    let last = s.substring_char(start, n).to_owned();
    let ghost old_out = out@;
    out.push(last);
    assert(texts(out@) =~= texts(old_out).push(s@.subrange(start as int, n as int)));
    out
}

/// The members of a list of texts that are not empty, in their order.
pub open spec fn nonempty(pieces: Seq<Seq<char>>) -> Seq<Seq<char>> {
    pieces.filter(|p: Seq<char>| p.len() > 0)
}

/// Cuts `s` into its pieces and keeps those that are not empty.
pub fn split_nonempty(s: &str, cut: Cut) -> (out: Vec<String>)
    ensures
        texts(out@) == nonempty(pieces_of(s@, cut)),
{
    let all = split(s, cut);
    let ghost pieces = texts(all@);
    let mut out: Vec<String> = Vec::new();
    let mut i: usize = 0;
    assert(pieces.take(0) =~= Seq::empty());
    assert(texts(out@) =~= Seq::empty());
    reveal(Seq::filter);
    while i < all.len()
        invariant
            i <= all.len(),
            pieces == texts(all@),
            texts(out@) == nonempty(pieces.take(i as int)),
        decreases all.len() - i,
    {
        let ghost old_out = out@;
        assert(pieces.take(i + 1).drop_last() =~= pieces.take(i as int));
        assert(pieces.take(i + 1).last() == all@[i as int]@);
        reveal(Seq::filter);
        if !all[i].as_str().is_empty() {
            out.push(all[i].clone());
            assert(texts(out@) =~= texts(old_out).push(all@[i as int]@));
        }
        i = i + 1;
    }
    assert(pieces.take(all.len() as int) =~= pieces);
    out
}

/// The value of a character as a digit, or 36 where it is none.
pub open spec fn digit_value(c: char) -> nat {
    if '0' <= c <= '9' {
        (c as u32 - '0' as u32) as nat
    } else if 'a' <= c <= 'z' {
        (c as u32 - 'a' as u32 + 10) as nat
    } else if 'A' <= c <= 'Z' {
        (c as u32 - 'A' as u32 + 10) as nat
    } else {
        36
    }
}

/// Whether every character of `s` is a digit of the radix.
pub open spec fn all_digits(s: Seq<char>, radix: nat) -> bool {
    forall|i: int| 0 <= i < s.len() ==> #[trigger] digit_value(s[i]) < radix
}

/// The number that a text of digits denotes, most significant digit first.
pub open spec fn value_of(s: Seq<char>, radix: nat) -> nat
    decreases s.len(),
{
    if s.len() == 0 {
        0
    } else {
        value_of(s.drop_last(), radix) * radix + digit_value(s.last())
    }
}

/// A text without the one plus sign that may stand before the digits.
pub open spec fn unsigned(s: Seq<char>) -> Seq<char> {
    if s.len() > 0 && s[0] == '+' {
        s.drop_first()
    } else {
        s
    }
}

/// The number that a text denotes: an optional plus sign and at least one digit, with a value of
/// at most `max`.
pub open spec fn number_of(s: Seq<char>, radix: nat, max: nat) -> Option<nat> {
    let digits = unsigned(s);
    if digits.len() > 0 && all_digits(digits, radix) && value_of(digits, radix) <= max {
        Some(value_of(digits, radix))
    } else {
        None
    }
}

proof fn lemma_value_grows(s: Seq<char>, k: int, radix: nat)
    requires
        0 <= k <= s.len(),
        radix >= 1,
    ensures
        value_of(s.take(k), radix) <= value_of(s, radix),
    decreases s.len(),
{
    if k < s.len() {
        lemma_value_grows(s.drop_last(), k, radix);
        assert(s.drop_last().take(k) =~= s.take(k));
        let v = value_of(s.drop_last(), radix);
        assert(v <= v * radix) by (nonlinear_arith)
            requires
                radix >= 1,
        ;
    } else {
        assert(s.take(k) =~= s);
    }
}

fn digit(c: char) -> (d: u64)
    ensures
        d == digit_value(c),
{
    let u: u32 = c as u32;
    if 48 <= u && u <= 57 {
        (u - 48) as u64
    } else if 97 <= u && u <= 122 {
        (u - 97 + 10) as u64
    } else if 65 <= u && u <= 90 {
        (u - 65 + 10) as u64
    } else {
        36
    }
}

/// Reads a number of at most `max` in the given radix.
pub fn parse_number(s: &str, radix: u64, max: u64) -> (n: Option<u64>)
    requires
        2 <= radix <= 36,
    ensures
        n is Some <==> number_of(s@, radix as nat, max as nat) is Some,
        n matches Some(v) ==> number_of(s@, radix as nat, max as nat) == Some(v as nat),
{
    let n: usize = s.unicode_len();
    if n == 0 {
        return None;
    }
    let digits = if s.get_char(0) == '+' {
        s.substring_char(1, n)
    } else {
        s
    };
    assert(digits@ =~= unsigned(s@));
    let ghost r = radix as nat;
    let mut value: u64 = 0;
    let mut seen: bool = false;
    let mut i: usize = 0;
    assert(digits@.take(0) =~= Seq::<char>::empty());
    let m: usize = digits.unicode_len();
    for c in it: digits.chars()
        invariant
            it.seq() == digits@,
            i == it.index(),
            i <= m == digits@.len(),
            2 <= radix <= 36,
            r == radix,
            seen == (i > 0),
            value <= max,
            value == value_of(digits@.take(i as int), r),
            all_digits(digits@.take(i as int), r),
            digits@ == unsigned(s@),
    {
        let ghost next = digits@.take(i + 1);
        assert(next.drop_last() =~= digits@.take(i as int));
        assert(next.last() == c);
        proof {
            lemma_value_grows(digits@, i + 1, r);
        }
        let d: u64 = digit(c);
        if d >= radix {
            assert(digit_value(digits@[i as int]) >= r);
            return None;
        }
        assert(all_digits(next, r)) by {
            assert forall|k: int| 0 <= k < next.len() implies #[trigger] digit_value(next[k])
                < r by {
                if k < i {
                    assert(next[k] == digits@.take(i as int)[k]);
                }
            }
        }
        let ghost before = value;
        let shifted = match value.checked_mul(radix) {
            Some(x) => x,
            None => {
                return None;
            },
        };
        value = match shifted.checked_add(d) {
            Some(x) => x,
            None => {
                return None;
            },
        };
        if value > max {
            return None;
        }
        seen = true;
        i = i + 1;
    }
    assert(digits@.take(m as int) =~= digits@);
    if seen {
        Some(value)
    } else {
        None
    }
}

/// The character that stands for a digit below 16.
pub open spec fn digit_char(d: nat) -> char {
    if d < 10 {
        (48 + d) as char
    } else {
        (87 + d) as char
    }
}

/// The digits of `n`, most significant first, without leading zeros.
pub open spec fn digits_of(n: nat, radix: nat) -> Seq<char>
    decreases n,
{
    if radix < 2 || n < radix {
        seq![digit_char(n)]
    } else {
        proof {
            vstd::arithmetic::div_mod::lemma_div_decreases(n as int, radix as int);
        }
        digits_of(n / radix, radix).push(digit_char(n % radix))
    }
}

fn digit_text(d: u64) -> (t: &'static str)
    requires
        d < 16,
    ensures
        t@ == seq![digit_char(d as nat)],
{
    proof {
        reveal_strlit("0");
        reveal_strlit("1");
        reveal_strlit("2");
        reveal_strlit("3");
        reveal_strlit("4");
        reveal_strlit("5");
        reveal_strlit("6");
        reveal_strlit("7");
        reveal_strlit("8");
        reveal_strlit("9");
        reveal_strlit("a");
        reveal_strlit("b");
        reveal_strlit("c");
        reveal_strlit("d");
        reveal_strlit("e");
        reveal_strlit("f");
    }
    match d {
        0 => "0",
        1 => "1",
        2 => "2",
        3 => "3",
        4 => "4",
        5 => "5",
        6 => "6",
        7 => "7",
        8 => "8",
        9 => "9",
        10 => "a",
        11 => "b",
        12 => "c",
        13 => "d",
        14 => "e",
        _ => "f",
    }
}

/// Appends the digits of `n` to a text.
pub fn append_number(out: &mut String, n: u64, radix: u64)
    requires
        2 <= radix <= 16,
    ensures
        final(out)@ == old(out)@ + digits_of(n as nat, radix as nat),
    decreases n,
{
    if n < radix {
        out.append(digit_text(n));
    } else {
        proof {
            vstd::arithmetic::div_mod::lemma_div_decreases(n as int, radix as int);
            vstd::arithmetic::div_mod::lemma_mod_bound(n as int, radix as int);
        }
        append_number(out, n / radix, radix);
        out.append(digit_text(n % radix));
        assert(out@ =~= old(out)@ + digits_of(n as nat, radix as nat));
    }
}

/// A signed number in decimal, with a minus sign where it is negative.
pub open spec fn signed_digits_of(n: int) -> Seq<char> {
    if n < 0 {
        seq!['-'] + digits_of((-n) as nat, 10)
    } else {
        digits_of(n as nat, 10)
    }
}

/// Appends a signed number in decimal to a text.
pub fn append_signed(out: &mut String, n: i32)
    ensures
        final(out)@ == old(out)@ + signed_digits_of(n as int),
{
    if n < 0 {
        proof {
            reveal_strlit("-");
        }
        out.append("-");
        append_number(out, (-(n as i64)) as u64, 10);
        assert(out@ =~= old(out)@ + signed_digits_of(n as int));
    } else {
        append_number(out, n as u64, 10);
    }
}

/// A text set flush right in a field of at least `width` characters.
pub open spec fn flush_right(s: Seq<char>, width: nat) -> Seq<char> {
    if s.len() < width {
        Seq::new((width - s.len()) as nat, |i: int| ' ') + s
    } else {
        s
    }
}

/// Appends a text flush right in a field of at least `width` characters.
pub fn append_flush_right(out: &mut String, s: &str, width: usize)
    ensures
        final(out)@ == old(out)@ + flush_right(s@, width as nat),
{
    let n: usize = s.unicode_len();
    let mut i: usize = n;
    proof {
        reveal_strlit(" ");
    }
    while i < width
        invariant
            n == s@.len(),
            n <= i,
            i <= width || i == n,
            " "@ == seq![' '],
            out@ == old(out)@ + Seq::new((i - n) as nat, |j: int| ' '),
        decreases width - i,
    {
        out.append(" ");
        i = i + 1;
        assert(out@ =~= old(out)@ + Seq::new((i - n) as nat, |j: int| ' '));
    }
    out.append(s);
    assert(out@ =~= old(out)@ + flush_right(s@, width as nat));
}

/// The texts of a list, one behind the other, with `sep` between neighbours.
pub open spec fn joined(pieces: Seq<Seq<char>>, sep: char) -> Seq<char>
    decreases pieces.len(),
{
    if pieces.len() == 0 {
        Seq::empty()
    } else if pieces.len() == 1 {
        pieces[0]
    } else {
        joined(pieces.drop_last(), sep).push(sep) + pieces.last()
    }
}

/// Cutting a text loses nothing: the pieces, put together again with the separator between them,
/// are the text.
pub proof fn split_then_join(s: Seq<char>, sep: char)
    ensures
        joined(pieces_of(s, Cut::At(sep)), sep) == s,
    decreases s.len(),
{
    let cut = Cut::At(sep);
    if s.len() > 0 {
        let t = s.drop_last();
        let before = pieces_of(t, cut);
        split_then_join(t, sep);
        lemma_pieces_nonempty(t, cut);
        let after = pieces_of(s, cut);
        if cut.cuts(s.last()) {
            assert(after.drop_last() =~= before);
            assert(joined(after, sep) =~= s);
        } else {
            assert(after.drop_last() =~= before.drop_last());
            assert(joined(after, sep) =~= joined(before, sep).push(s.last()));
            assert(s =~= t.push(s.last()));
        }
    } else {
        assert(s =~= Seq::empty());
    }
}

/// No piece of a text holds a character at which the text is cut.
pub proof fn pieces_hold_no_cut(s: Seq<char>, cut: Cut)
    ensures
        forall|i: int, j: int|
            0 <= i < pieces_of(s, cut).len() && 0 <= j < pieces_of(s, cut)[i].len()
                ==> !cut.cuts(#[trigger] pieces_of(s, cut)[i][j]),
    decreases s.len(),
{
    if s.len() > 0 {
        let before = pieces_of(s.drop_last(), cut);
        let after = pieces_of(s, cut);
        pieces_hold_no_cut(s.drop_last(), cut);
        lemma_pieces_nonempty(s.drop_last(), cut);
        assert forall|i: int, j: int| 0 <= i < after.len() && 0 <= j < after[i].len() implies !cut.cuts(
            #[trigger] after[i][j],
        ) by {
            if i < before.len() && j < before[i].len() {
                assert(!cut.cuts(before[i][j]));
            }
        }
    }
}

/// A number that was written out reads back as itself, in every radix up to 16.
pub proof fn written_number_reads_back(n: nat, radix: nat, max: nat)
    requires
        2 <= radix <= 16,
        n <= max,
    ensures
        number_of(digits_of(n, radix), radix, max) == Some(n),
    decreases n,
{
    let d = digits_of(n, radix);
    lemma_digits(n, radix);
    assert(unsigned(d) == d) by {
        assert(digit_value(d[0]) < radix);
    }
}

/// The digits of a number are digits, at least one, and denote the number.
pub proof fn lemma_digits(n: nat, radix: nat)
    requires
        2 <= radix <= 16,
    ensures
        digits_of(n, radix).len() > 0,
        all_digits(digits_of(n, radix), radix),
        value_of(digits_of(n, radix), radix) == n,
    decreases n,
{
    let d = digits_of(n, radix);
    if n < radix {
        assert(d.drop_last() =~= Seq::empty());
        assert(value_of(d.drop_last(), radix) == 0);
        assert(0 * radix == 0) by (nonlinear_arith);
    } else {
        vstd::arithmetic::div_mod::lemma_div_decreases(n as int, radix as int);
        vstd::arithmetic::div_mod::lemma_mod_bound(n as int, radix as int);
        vstd::arithmetic::div_mod::lemma_fundamental_div_mod(n as int, radix as int);
        lemma_digits(n / radix, radix);
        let head = digits_of(n / radix, radix);
        assert(d.drop_last() =~= head);
        assert(digit_value(d.last()) == n % radix);
        assert((n / radix) * radix == radix * (n / radix)) by (nonlinear_arith);
        assert forall|i: int| 0 <= i < d.len() implies #[trigger] digit_value(d[i]) < radix by {
            if i < head.len() {
                assert(digit_value(head[i]) < radix);
            }
        }
    }
}

/// A cut parts a text: the pieces are those before it and those behind it.
pub proof fn lemma_pieces_around_cut(a: Seq<char>, c: char, b: Seq<char>, cut: Cut)
    requires
        cut.cuts(c),
    ensures
        pieces_of(a.push(c) + b, cut) == pieces_of(a, cut) + pieces_of(b, cut),
    decreases b.len(),
{
    let whole = a.push(c) + b;
    if b.len() == 0 {
        assert(whole =~= a.push(c));
        assert(whole.drop_last() =~= a);
        assert(pieces_of(whole, cut) =~= pieces_of(a, cut) + pieces_of(b, cut));
    } else {
        let t = b.drop_last();
        lemma_pieces_around_cut(a, c, t, cut);
        lemma_pieces_nonempty(t, cut);
        assert(whole.drop_last() =~= a.push(c) + t);
        assert(whole.last() == b.last());
        let before = pieces_of(a, cut) + pieces_of(t, cut);
        assert(before.last() == pieces_of(t, cut).last());
        assert(before.drop_last() =~= pieces_of(a, cut) + pieces_of(t, cut).drop_last());
        assert(pieces_of(whole, cut) =~= pieces_of(a, cut) + pieces_of(b, cut));
    }
}

/// A text without a cut is its own one piece.
pub proof fn lemma_one_piece(s: Seq<char>, cut: Cut)
    requires
        forall|i: int| 0 <= i < s.len() ==> !cut.cuts(#[trigger] s[i]),
    ensures
        pieces_of(s, cut) == seq![s],
    decreases s.len(),
{
    if s.len() == 0 {
        assert(s =~= Seq::empty());
    } else {
        let t = s.drop_last();
        assert forall|i: int| 0 <= i < t.len() implies !cut.cuts(#[trigger] t[i]) by {
            assert(t[i] == s[i]);
        }
        lemma_one_piece(t, cut);
        assert(t.push(s.last()) =~= s);
        assert(pieces_of(s, cut) =~= seq![s]);
    }
}

/// The words around a cut are those before it and those behind it.
pub proof fn lemma_nonempty_around_cut(a: Seq<char>, c: char, b: Seq<char>, cut: Cut)
    requires
        cut.cuts(c),
    ensures
        nonempty(pieces_of(a.push(c) + b, cut)) == nonempty(pieces_of(a, cut)) + nonempty(
            pieces_of(b, cut),
        ),
{
    lemma_pieces_around_cut(a, c, b, cut);
    Seq::filter_distributes_over_add(
        pieces_of(a, cut),
        pieces_of(b, cut),
        |p: Seq<char>| p.len() > 0,
    );
}

/// A text that is not empty and has no cut is its own one word.
pub proof fn lemma_one_word(s: Seq<char>, cut: Cut)
    requires
        s.len() > 0,
        forall|i: int| 0 <= i < s.len() ==> !cut.cuts(#[trigger] s[i]),
    ensures
        nonempty(pieces_of(s, cut)) == seq![s],
{
    lemma_one_piece(s, cut);
    reveal_with_fuel(Seq::filter, 2);
    assert(seq![s].drop_last() =~= Seq::empty());
    assert(nonempty(seq![s]) =~= seq![s]);
}

} // verus!
