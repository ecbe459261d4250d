//! What the text operations are for, each told by what it gives back: nothing
//! is lost by splitting, joining and trimming, and numbers mean what they say.
use vstd::prelude::*;

use crate::numbers::{digits_value, hours_minutes, quotient, remainder, u32_of};
use crate::style::{justified, line_chars, line_text, padded, SpanView};
use crate::text::{
    clipped, decimal, digit, first_sentence, first_word, joined, list_entries, longest, pieces,
    pieces_nonempty, signed_decimal, space_from, stop_from, trimmed, trimmed_end,
    trimmed_end_prefix, trimmed_start, whitespace,
};
use crate::times::day_number;

verus! {

/// A text of nothing but white space.
pub open spec fn blank(s: Seq<char>) -> bool {
    forall|i: int| 0 <= i < s.len() ==> whitespace(#[trigger] s[i])
}

// ─── Trimming ────────────────────────────────────────────────────────────────

proof fn start_is_blank(s: Seq<char>)
    ensures
        trimmed_start(s).len() <= s.len(),
        s == s.take(s.len() - trimmed_start(s).len()) + trimmed_start(s),
        blank(s.take(s.len() - trimmed_start(s).len())),
        trimmed_start(s).len() > 0 ==> !whitespace(trimmed_start(s)[0]),
    decreases s.len(),
{
    if s.len() > 0 && whitespace(s[0]) {
        let rest = s.subrange(1, s.len() as int);
        start_is_blank(rest);
        let n = s.len() - trimmed_start(s).len();
        assert(s.take(n) =~= seq![s[0]] + rest.take(n - 1));
        assert(s =~= seq![s[0]] + rest);
        assert(s =~= seq![s[0]] + (rest.take(n - 1) + trimmed_start(rest)));
        assert(seq![s[0]] + (rest.take(n - 1) + trimmed_start(rest)) =~= s.take(n) + trimmed_start(
            s,
        ));
    } else {
        assert(s =~= s.take(0) + s);
    }
}

proof fn end_is_blank(s: Seq<char>)
    ensures
        trimmed_end(s).len() <= s.len(),
        s == trimmed_end(s) + s.subrange(trimmed_end(s).len() as int, s.len() as int),
        blank(s.subrange(trimmed_end(s).len() as int, s.len() as int)),
    decreases s.len(),
{
    let n = trimmed_end(s).len() as int;
    trimmed_end_prefix(s);
    if s.len() > 0 && whitespace(s.last()) {
        end_is_blank(s.drop_last());
        let tail = s.subrange(n, s.len() as int);
        let less = s.drop_last().subrange(n, s.len() - 1);
        assert forall|i: int| 0 <= i < tail.len() implies whitespace(#[trigger] tail[i]) by {
            if i < less.len() {
                assert(tail[i] == less[i]);
            } else {
                assert(tail[i] == s.last());
            }
        }
    }
    assert(s =~= s.take(n) + s.subrange(n, s.len() as int));
}

/// Trimming takes white space away, and nothing else: the text is what is left
/// with white space on both sides, and what is left neither begins nor ends
/// with any.
pub proof fn trimming_takes_only_white_space(s: Seq<char>)
    ensures
        exists|a: Seq<char>, b: Seq<char>|
            blank(a) && blank(b) && s == #[trigger] (a + trimmed(s) + b),
        trimmed(s).len() > 0 ==> !whitespace(trimmed(s)[0]) && !whitespace(trimmed(s).last()),
        trimmed(s).len() == 0 <==> blank(s),
{
    start_is_blank(s);
    let t = trimmed_start(s);
    end_is_blank(t);
    crate::text::trimmed_has_no_edge_space(s);
    let a = s.take(s.len() - t.len());
    let b = t.subrange(trimmed(s).len() as int, t.len() as int);
    assert(s =~= a + trimmed(s) + b);
    assert(blank(a) && blank(b) && s == a + trimmed(s) + b);
    if trimmed(s).len() == 0 {
        assert forall|i: int| 0 <= i < s.len() implies whitespace(#[trigger] s[i]) by {
            if i < a.len() {
                assert(s[i] == a[i]);
            } else {
                assert(s[i] == b[i - a.len()]);
            }
        }
    } else if blank(s) {
        assert(whitespace(s[a.len() as int]));
        assert(s[a.len() as int] == trimmed(s)[0]);
    }
}

/// A text that neither begins nor ends with white space is left as it is.
pub proof fn trimmed_texts_stay(s: Seq<char>)
    requires
        s.len() > 0 ==> !whitespace(s[0]) && !whitespace(s.last()),
    ensures
        trimmed(s) == s,
{
}

// ─── Splitting and joining ───────────────────────────────────────────────────

/// No piece holds what the text was split at.
pub proof fn pieces_hold_no_separator(s: Seq<char>, c: char, i: int)
    requires
        0 <= i < pieces(s, c).len(),
    ensures
        !pieces(s, c)[i].contains(c),
    decreases s.len(),
{
    if s.len() > 0 {
        let t = s.drop_last();
        let before = pieces(t, c);
        pieces_nonempty(t, c);
        if i < before.len() - 1 || (s.last() == c && i < before.len()) {
            pieces_hold_no_separator(t, c, i);
        } else if s.last() != c {
            pieces_hold_no_separator(t, c, before.len() - 1);
            let p = pieces(s, c)[i];
            assert(p == before.last().push(s.last()));
            if p.contains(c) {
                let k = choose|k: int| 0 <= k < p.len() && p[k] == c;
                assert(before.last()[k] == c);
                assert(before.last().contains(c));
            }
        }
    }
}

proof fn pieces_of_a_sum(a: Seq<char>, t: Seq<char>, c: char)
    requires
        !t.contains(c),
    ensures
        pieces(a + t, c) == pieces(a, c).drop_last().push(pieces(a, c).last() + t),
    decreases t.len(),
{
    pieces_nonempty(a, c);
    let last = pieces(a, c).last();
    if t.len() == 0 {
        assert(a + t =~= a);
        assert(last + t =~= last);
        assert(pieces(a, c).drop_last().push(last) =~= pieces(a, c));
    } else {
        let u = t.drop_last();
        assert(t.contains(t[t.len() - 1]));
        assert forall|x: char| u.contains(x) implies t.contains(x) by {
            let k = choose|k: int| 0 <= k < u.len() && u[k] == x;
            assert(t[k] == x);
        }
        pieces_of_a_sum(a, u, c);
        assert((a + t).drop_last() =~= a + u);
        let before = pieces(a + u, c);
        assert((last + u).push(t.last()) =~= last + t);
        assert(before.drop_last() =~= pieces(a, c).drop_last());
    }
}

/// Splitting undoes joining: texts that do not hold the separator come out as
/// they went in.
pub proof fn splitting_undoes_joining(parts: Seq<Seq<char>>, c: char)
    requires
        parts.len() > 0,
        forall|i: int| 0 <= i < parts.len() ==> !(#[trigger] parts[i]).contains(c),
    ensures
        pieces(joined(parts, seq![c]), c) == parts,
    decreases parts.len(),
{
    let last = parts.last();
    assert(last == parts[parts.len() - 1]);
    if parts.len() == 1 {
        let none = Seq::<char>::empty();
        pieces_of_a_sum(none, last, c);
        assert(none + last =~= last);
        assert(pieces(none, c) =~= seq![none]);
        assert(pieces(last, c) =~= parts);
    } else {
        let front = parts.drop_last();
        assert forall|i: int| 0 <= i < front.len() implies !(#[trigger] front[i]).contains(c) by {
            assert(front[i] == parts[i]);
        }
        splitting_undoes_joining(front, c);
        let a = joined(front, seq![c]) + seq![c];
        assert(a.drop_last() =~= joined(front, seq![c]));
        assert(a.last() == c);
        assert(pieces(a, c) =~= front.push(Seq::empty()));
        pieces_of_a_sum(a, last, c);
        assert(Seq::<char>::empty() + last =~= last);
        assert(pieces(a, c).drop_last() =~= front);
        assert(pieces(joined(parts, seq![c]), c) =~= parts);
    }
}

/// The entries of a list are its parts between the commas, without the white
/// space round them, those that hold anything, each in its turn.
pub proof fn entries_are_between_commas(s: Seq<char>, i: int)
    requires
        0 <= i < list_entries(s).len(),
    ensures
        list_entries(s)[i].len() > 0,
        !whitespace(list_entries(s)[i][0]),
        exists|k: int|
            0 <= k < pieces(s, ',').len() && list_entries(s)[i] == trimmed(
                #[trigger] pieces(s, ',')[k],
            ),
{
    entries_below(pieces(s, ','), pieces(s, ',').len(), i);
    let k = choose|k: int|
        0 <= k < pieces(s, ',').len() && list_entries(s)[i] == trimmed(#[trigger] pieces(s, ',')[k]);
    crate::text::trimmed_has_no_edge_space(pieces(s, ',')[k]);
}

proof fn entries_below(parts: Seq<Seq<char>>, n: nat, i: int)
    requires
        n <= parts.len(),
        0 <= i < crate::text::filled_below(parts, n).len(),
    ensures
        crate::text::filled_below(parts, n)[i].len() > 0,
        exists|k: int|
            0 <= k < n && crate::text::filled_below(parts, n)[i] == trimmed(#[trigger] parts[k]),
    decreases n,
{
    if n > 0 {
        let before = crate::text::filled_below(parts, (n - 1) as nat);
        if i < before.len() {
            entries_below(parts, (n - 1) as nat, i);
        } else {
            assert(crate::text::filled_below(parts, n)[i] == trimmed(parts[n - 1]));
        }
    }
}

/// No entry is left out.
pub proof fn every_entry_is_listed(s: Seq<char>, k: int)
    requires
        0 <= k < pieces(s, ',').len(),
        trimmed(pieces(s, ',')[k]).len() > 0,
    ensures
        list_entries(s).contains(trimmed(pieces(s, ',')[k])),
{
    listed_below(pieces(s, ','), pieces(s, ',').len(), k);
}

proof fn listed_below(parts: Seq<Seq<char>>, n: nat, k: int)
    requires
        0 <= k < n <= parts.len(),
        trimmed(parts[k]).len() > 0,
    ensures
        crate::text::filled_below(parts, n).contains(trimmed(parts[k])),
    decreases n,
{
    let before = crate::text::filled_below(parts, (n - 1) as nat);
    let all = crate::text::filled_below(parts, n);
    if k == n - 1 {
        assert(all[all.len() - 1] == trimmed(parts[k]));
    } else {
        listed_below(parts, (n - 1) as nat, k);
        let j = choose|j: int| 0 <= j < before.len() && before[j] == trimmed(parts[k]);
        assert(all[j] == trimmed(parts[k]));
    }
}

// ─── Numbers ─────────────────────────────────────────────────────────────────

/// A number that is written down reads back as itself, without a zero in front.
pub proof fn decimals_read_back(n: nat)
    ensures
        digits_value(decimal(n)) == Some(n),
        decimal(n).len() > 0,
        n > 0 ==> decimal(n)[0] != '0',
    decreases n,
{
    if n < 10 {
        let s = decimal(n);
        assert(s.drop_last() =~= Seq::<char>::empty());
        reveal_with_fuel(digits_value, 2);
    } else {
        decimals_read_back(n / 10);
        assert(decimal(n).drop_last() =~= decimal(n / 10));
        assert(crate::numbers::digit_value(digit(n % 10)) == Some(n % 10));
    }
}

/// A number of 32 bits that is written down is read as itself.
pub proof fn numbers_are_read_as_written(n: u32)
    ensures
        u32_of(decimal(n as nat)) == Some(n),
{
    decimals_read_back(n as nat);
    let s = decimal(n as nat);
    if s[0] == '+' {
        plus_is_no_digit(s);
    }
}

proof fn plus_is_no_digit(s: Seq<char>)
    requires
        s.len() > 0,
        s[0] == '+',
    ensures
        digits_value(s) is None,
    decreases s.len(),
{
    if s.len() > 1 {
        plus_is_no_digit(s.drop_last());
    }
}

/// A negative number has a minus sign in front of its digits.
pub proof fn signs_are_written(n: int)
    ensures
        n >= 0 ==> signed_decimal(n) == decimal(n as nat),
        n < 0 ==> signed_decimal(n) == "-"@ + decimal((-n) as nat),
{
}

/// Dividing and multiplying go together; the rest is smaller than the divisor
/// and has the sign of the dividend.
pub proof fn division_is_exact(a: int, b: int)
    requires
        b > 0,
    ensures
        a == quotient(a, b) * b + remainder(a, b),
        -b < remainder(a, b) < b,
        a >= 0 ==> remainder(a, b) >= 0,
        a <= 0 ==> remainder(a, b) <= 0,
{
    if a >= 0 {
        vstd::arithmetic::div_mod::lemma_fundamental_div_mod(a, b);
        vstd::arithmetic::div_mod::lemma_mod_bound(a, b);
        assert((a / b) * b == b * (a / b)) by (nonlinear_arith);
    } else {
        vstd::arithmetic::div_mod::lemma_fundamental_div_mod(-a, b);
        vstd::arithmetic::div_mod::lemma_mod_bound(-a, b);
        assert((-((-a) / b)) * b == -(b * ((-a) / b))) by (nonlinear_arith);
    }
}

/// A point in time lies within its day.
pub proof fn days_hold_their_seconds(seconds: int)
    ensures
        day_number(seconds) * 86_400 <= seconds < (day_number(seconds) + 1) * 86_400,
{
}

/// A length below an hour is told in minutes, and one above it in hours and
/// minutes.
pub proof fn lengths_are_told_in_hours_and_minutes(seconds: int)
    requires
        seconds >= 0,
    ensures
        seconds >= 3600 ==> hours_minutes(seconds) == decimal((seconds / 3600) as nat) + "h "@
            + decimal(((seconds % 3600) / 60) as nat) + "m"@,
        seconds < 3600 ==> hours_minutes(seconds) == decimal((seconds / 60) as nat) + "m"@,
{
}

// ─── Words and sentences ─────────────────────────────────────────────────────

proof fn space_bounds(s: Seq<char>, from: int)
    requires
        0 <= from <= s.len(),
    ensures
        from <= space_from(s, from) <= s.len(),
        forall|k: int| from <= k < space_from(s, from) ==> !whitespace(#[trigger] s[k]),
        space_from(s, from) < s.len() ==> whitespace(s[space_from(s, from)]),
    decreases s.len() - from,
{
    if from < s.len() && !whitespace(s[from]) {
        space_bounds(s, from + 1);
    }
}

/// The first word is what stands in front of the first white space, and it is
/// empty only where there is no word at all.
pub proof fn the_first_word_goes_to_the_first_space(s: Seq<char>)
    ensures
        ({
            let w = first_word(s);
            let t = trimmed_start(s);
            &&& w == t.take(w.len() as int)
            &&& forall|k: int| 0 <= k < w.len() ==> !whitespace(#[trigger] w[k])
            &&& w.len() < t.len() ==> whitespace(t[w.len() as int])
            &&& w.len() == 0 <==> blank(s)
        }),
{
    let t = trimmed_start(s);
    let w = first_word(s);
    space_bounds(t, 0);
    start_is_blank(s);
    assert(w =~= t.take(w.len() as int));
    assert forall|k: int| 0 <= k < w.len() implies !whitespace(#[trigger] w[k]) by {
        assert(w[k] == t[k]);
    }
    if w.len() == 0 {
        assert(t.len() == 0);
        assert(s =~= s.take(s.len() as int));
    } else if blank(s) {
        let n = s.len() - t.len();
        assert(s[n] == t[0]);
        assert(whitespace(s[n]));
    }
}

proof fn stop_bounds(s: Seq<char>, from: int)
    requires
        0 <= from <= s.len(),
    ensures
        from <= stop_from(s, from) <= s.len(),
        forall|k: int|
            from <= k < stop_from(s, from) ==> #[trigger] s[k] != '.' && s[k] != '!' && s[k] != '?',
        stop_from(s, from) < s.len() ==> s[stop_from(s, from)] == '.' || s[stop_from(s, from)] == '!'
            || s[stop_from(s, from)] == '?',
    decreases s.len() - from,
{
    if from < s.len() && s[from] != '.' && s[from] != '!' && s[from] != '?' {
        stop_bounds(s, from + 1);
    }
}

/// The first sentence is what stands in front of the first full stop,
/// exclamation mark or question mark, without the white space round it.
pub proof fn the_first_sentence_goes_to_its_mark(a: Seq<char>, mark: char, b: Seq<char>)
    requires
        mark == '.' || mark == '!' || mark == '?',
        forall|k: int| 0 <= k < a.len() ==> #[trigger] a[k] != '.' && a[k] != '!' && a[k] != '?',
    ensures
        first_sentence(a.push(mark) + b) == trimmed(a),
        first_sentence(a) == trimmed(a),
{
    let s = a.push(mark) + b;
    stop_bounds(s, 0);
    stop_bounds(a, 0);
    let e = stop_from(s, 0);
    assert(s[a.len() as int] == mark);
    if e < a.len() {
        assert(s[e] == a[e]);
    }
    if e > a.len() {
        assert(s[a.len() as int] != mark);
    }
    assert(s.take(a.len() as int) =~= a);
    let f = stop_from(a, 0);
    if f < a.len() {
        assert(a[f] != '.');
    }
    assert(a.take(a.len() as int) =~= a);
}

// ─── Layout ──────────────────────────────────────────────────────────────────

/// The longest of some texts is as long as one of them, and none is longer.
pub proof fn the_longest_is_one_of_them(parts: Seq<Seq<char>>)
    ensures
        forall|i: int| 0 <= i < parts.len() ==> (#[trigger] parts[i]).len() <= longest(parts),
        parts.len() > 0 ==> exists|i: int|
            0 <= i < parts.len() && (#[trigger] parts[i]).len() == longest(parts),
    decreases parts.len(),
{
    if parts.len() > 0 {
        let front = parts.drop_last();
        the_longest_is_one_of_them(front);
        assert forall|i: int| 0 <= i < parts.len() implies (#[trigger] parts[i]).len() <= longest(
            parts,
        ) by {
            if i < front.len() {
                assert(front[i].len() <= longest(front));
            }
        }
        if parts.last().len() >= longest(front) {
            assert(parts[parts.len() - 1].len() == longest(parts));
        } else {
            let i = choose|i: int|
                0 <= i < front.len() && (#[trigger] front[i]).len() == longest(front);
            assert(parts[i].len() == longest(parts));
        }
    }
}

/// A padded text begins with the text and is as wide as asked, where the text
/// is not wider.
pub proof fn padding_fills_the_width(s: Seq<char>, width: int)
    ensures
        padded(s, width).take(s.len() as int) == s,
        s.len() <= width ==> padded(s, width).len() == width,
        s.len() > width ==> padded(s, width) == s,
        forall|i: int| s.len() <= i < padded(s, width).len() ==> #[trigger] padded(s, width)[i]
            == ' ',
{
    assert(padded(s, width).take(s.len() as int) =~= s);
    if s.len() >= width {
        assert(padded(s, width) =~= s);
    }
}

proof fn chars_add(a: Seq<SpanView>, b: Seq<SpanView>)
    ensures
        line_chars(a + b) == line_chars(a) + line_chars(b),
        line_text(a + b) == line_text(a) + line_text(b),
    decreases b.len(),
{
    if b.len() == 0 {
        assert(a + b =~= a);
        assert(line_text(a) + line_text(b) =~= line_text(a));
    } else {
        chars_add(a, b.drop_last());
        assert((a + b).drop_last() =~= a + b.drop_last());
        assert(line_text(a + b) =~= line_text(a) + line_text(b));
    }
}

/// A line with two ends holds both of them, at its two ends, and is as wide as
/// asked where there is room.
pub proof fn both_ends_are_shown(left: Seq<SpanView>, right: Seq<SpanView>, width: int)
    ensures
        line_chars(left) + line_chars(right) <= width ==> line_chars(justified(left, right, width))
            == width,
        exists|gap: Seq<char>|
            line_text(justified(left, right, width)) == #[trigger] (line_text(left) + gap
                + line_text(right)),
{
    let gap = crate::text::blanks(
        crate::text::monus(width, (line_chars(left) + line_chars(right)) as int),
    );
    let l = left.push(crate::style::span(gap, crate::style::plain()));
    assert(l.drop_last() =~= left);
    chars_add(l, right);
    assert(line_text(justified(left, right, width)) == line_text(left) + gap + line_text(right));
}

/// What is clipped keeps its beginning, up to the ellipsis.
pub proof fn clipping_keeps_the_beginning(s: Seq<char>, max: int)
    requires
        0 < max < s.len(),
    ensures
        clipped(s, max).len() == max,
        clipped(s, max).take(max - 1) == s.take(max - 1),
        clipped(s, max).last() == '\u{2026}',
{
    assert(clipped(s, max).take(max - 1) =~= s.take(max - 1));
}

} // verus!
