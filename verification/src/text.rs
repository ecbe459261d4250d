//! Text primitives: the character-level operations that the rest of the
//! library is stated over. A piece of text is modelled by its characters.
use vstd::prelude::*;

verus! {

broadcast use vstd::seq_lib::group_seq_properties;

/// Whether a character is white space: it has Unicode's property `White_Space`.
pub open spec fn whitespace(c: char) -> bool {
    ||| '\u{9}' <= c <= '\u{D}'
    ||| c == ' '
    ||| c == '\u{85}'
    ||| c == '\u{A0}'
    ||| c == '\u{1680}'
    ||| '\u{2000}' <= c <= '\u{200A}'
    ||| c == '\u{2028}'
    ||| c == '\u{2029}'
    ||| c == '\u{202F}'
    ||| c == '\u{205F}'
    ||| c == '\u{3000}'
}

/// A character with the letters of ASCII in lower case.
#[verifier::allow_in_spec]
pub fn ascii_lower(c: char) -> char
    returns
        (if 'A' <= c && c <= 'Z' {
            ((c as u8) + 32u8) as u8 as char
        } else {
            c
        }),
{
    if 'A' <= c && c <= 'Z' {
        ((c as u8) + 32u8) as u8 as char
    } else {
        c
    }
}

/// A character with the letters of ASCII in upper case.
pub open spec fn ascii_upper(c: char) -> char {
    if 'a' <= c && c <= 'z' {
        ((c as u8) - 32u8) as u8 as char
    } else {
        c
    }
}

/// All characters are in ASCII.
pub open spec fn ascii(s: Seq<char>) -> bool {
    forall|i: int| 0 <= i < s.len() ==> (#[trigger] s[i]) as u32 <= 127
}

/// The lowercase form of a text with characters beyond ASCII, as
/// `str::to_lowercase` computes it.
pub uninterp spec fn unicode_lowercase(s: Seq<char>) -> Seq<char>;

/// The uppercase form of a text with characters beyond ASCII, as
/// `str::to_uppercase` computes it.
pub uninterp spec fn unicode_uppercase(s: Seq<char>) -> Seq<char>;

/// The lowercase form of a text.
pub open spec fn lowercase(s: Seq<char>) -> Seq<char> {
    if ascii(s) {
        Seq::new(s.len(), |i: int| ascii_lower(s[i]))
    } else {
        unicode_lowercase(s)
    }
}

/// The uppercase form of a text.
pub open spec fn uppercase(s: Seq<char>) -> Seq<char> {
    if ascii(s) {
        Seq::new(s.len(), |i: int| ascii_upper(s[i]))
    } else {
        unicode_uppercase(s)
    }
}

/// `char::is_whitespace`: whether the character has Unicode's property
/// `White_Space`.
pub assume_specification[ char::is_whitespace ](c: char) -> (r: bool)
    ensures
        r == whitespace(c),
;

/// `str::to_lowercase`: of a text in ASCII, its letters in lower case; of any
/// other, a text that depends on the characters alone.
pub assume_specification[ str::to_lowercase ](s: &str) -> (r: String)
    ensures
        ascii(s@) ==> r@ == Seq::new(s@.len(), |i: int| ascii_lower(s@[i])),
        !ascii(s@) ==> r@ == unicode_lowercase(s@),
;

/// `str::to_uppercase`: of a text in ASCII, its letters in upper case; of any
/// other, a text that depends on the characters alone.
pub assume_specification[ str::to_uppercase ](s: &str) -> (r: String)
    ensures
        ascii(s@) ==> r@ == Seq::new(s@.len(), |i: int| ascii_upper(s@[i])),
        !ascii(s@) ==> r@ == unicode_uppercase(s@),
;

/// `String::push` appends one character at the end.
pub assume_specification[ String::push ](s: &mut String, c: char)
    ensures
        final(s)@ == old(s)@.push(c),
;

/// `String::pop` removes the last character and returns it, or returns `None`
/// and leaves an empty string as it is.
pub assume_specification[ String::pop ](s: &mut String) -> (r: Option<char>)
    ensures
        old(s)@.len() == 0 ==> r is None && final(s)@ == old(s)@,
        old(s)@.len() > 0 ==> r == Some(old(s)@.last()) && final(s)@ == old(s)@.drop_last(),
;

/// `String::clear` leaves the empty string.
pub assume_specification[ String::clear ](s: &mut String)
    ensures
        final(s)@ == Seq::<char>::empty(),
;

/// The texts that a sequence of strings holds.
pub open spec fn texts(v: Seq<String>) -> Seq<Seq<char>> {
    Seq::new(v.len(), |i: int| v[i]@)
}

/// `c`, `n` times.
pub open spec fn repeated(c: char, n: nat) -> Seq<char> {
    Seq::new(n, |i: int| c)
}

/// `n` blanks.
pub open spec fn blanks(n: nat) -> Seq<char> {
    repeated(' ', n)
}

/// The value of a backspace key press on `s`: the last character goes, if any.
pub open spec fn without_last(s: Seq<char>) -> Seq<char> {
    if s.len() == 0 {
        s
    } else {
        s.drop_last()
    }
}

/// `max(a - b, 0)`.
pub open spec fn monus(a: int, b: int) -> nat {
    if a > b {
        (a - b) as nat
    } else {
        0
    }
}

pub open spec fn at_most(a: int, b: int) -> int {
    if a < b {
        a
    } else {
        b
    }
}

pub open spec fn at_least(a: int, b: int) -> int {
    if a > b {
        a
    } else {
        b
    }
}

/// The decimal digit of value `d`.
pub open spec fn digit(d: nat) -> char {
    if d == 0 {
        '0'
    } else if d == 1 {
        '1'
    } else if d == 2 {
        '2'
    } else if d == 3 {
        '3'
    } else if d == 4 {
        '4'
    } else if d == 5 {
        '5'
    } else if d == 6 {
        '6'
    } else if d == 7 {
        '7'
    } else if d == 8 {
        '8'
    } else {
        '9'
    }
}

/// `n` in decimal notation, without leading zeros.
pub open spec fn decimal(n: nat) -> Seq<char>
    decreases n,
{
    if n < 10 {
        seq![digit(n)]
    } else {
        decimal(n / 10).push(digit(n % 10))
    }
}

/// `s` without its leading white space.
pub open spec fn trimmed_start(s: Seq<char>) -> Seq<char>
    decreases s.len(),
{
    if s.len() > 0 && whitespace(s[0]) {
        trimmed_start(s.subrange(1, s.len() as int))
    } else {
        s
    }
}

/// `s` without its trailing white space.
pub open spec fn trimmed_end(s: Seq<char>) -> Seq<char>
    decreases s.len(),
{
    if s.len() > 0 && whitespace(s.last()) {
        trimmed_end(s.drop_last())
    } else {
        s
    }
}

/// `s` without the white space at both ends.
pub open spec fn trimmed(s: Seq<char>) -> Seq<char> {
    trimmed_end(trimmed_start(s))
}

/// `s` with its end replaced by an ellipsis where it has more than `max`
/// characters. The ellipsis is there even where there is no room.
pub open spec fn clipped(s: Seq<char>, max: int) -> Seq<char> {
    if s.len() <= max {
        s
    } else {
        s.take(monus(max, 1) as int).push('\u{2026}')
    }
}

/// The pieces of `s` between the occurrences of `c`: one more than there are
/// occurrences.
pub open spec fn pieces(s: Seq<char>, c: char) -> Seq<Seq<char>>
    decreases s.len(),
{
    if s.len() == 0 {
        seq![Seq::<char>::empty()]
    } else {
        let before = pieces(s.drop_last(), c);
        if s.last() == c {
            before.push(Seq::<char>::empty())
        } else {
            before.drop_last().push(before.last().push(s.last()))
        }
    }
}

/// `needle` stands in `s` at position `at`.
pub open spec fn stands_at(s: Seq<char>, needle: Seq<char>, at: int) -> bool {
    0 <= at && at + needle.len() <= s.len() && s.subrange(at, at + needle.len()) == needle
}

/// `needle` occurs in `s`.
pub open spec fn occurs(s: Seq<char>, needle: Seq<char>) -> bool {
    exists|at: int| stands_at(s, needle, at)
}

/// The pieces joined into one text, with `sep` between each two.
pub open spec fn joined(parts: Seq<Seq<char>>, sep: Seq<char>) -> Seq<char>
    decreases parts.len(),
{
    if parts.len() == 0 {
        Seq::empty()
    } else if parts.len() == 1 {
        parts[0]
    } else {
        joined(parts.drop_last(), sep) + sep + parts.last()
    }
}

/// The length of the longest of the texts, 0 if there is none.
pub open spec fn longest(parts: Seq<Seq<char>>) -> nat
    decreases parts.len(),
{
    if parts.len() == 0 {
        0
    } else {
        at_least(longest(parts.drop_last()) as int, parts.last().len() as int) as nat
    }
}

/// A text always has at least one piece.
pub proof fn pieces_nonempty(s: Seq<char>, c: char)
    ensures
        pieces(s, c).len() > 0,
    decreases s.len(),
{
    if s.len() > 0 {
        pieces_nonempty(s.drop_last(), c);
    }
}

/// A clipped text has at most `max` characters, where `max` leaves room for
/// one.
pub proof fn clipped_fits(s: Seq<char>, max: int)
    requires
        max >= 1,
    ensures
        clipped(s, max).len() <= max,
        s.len() <= max ==> clipped(s, max) == s,
{
}

/// Splitting loses nothing: the pieces joined by the separator are the text.
pub proof fn pieces_join_back(s: Seq<char>, c: char)
    ensures
        joined(pieces(s, c), seq![c]) == s,
    decreases s.len(),
{
    pieces_nonempty(s, c);
    if s.len() == 0 {
        assert(pieces(s, c)[0] =~= s);
    } else {
        let t = s.drop_last();
        let before = pieces(t, c);
        pieces_nonempty(t, c);
        pieces_join_back(t, c);
        assert(s =~= t.push(s.last()));
        if s.last() == c {
            let parts = before.push(Seq::<char>::empty());
            assert(parts.drop_last() =~= before);
            assert(joined(parts, seq![c]) =~= t + seq![c] + Seq::<char>::empty());
        } else {
            let parts = before.drop_last().push(before.last().push(s.last()));
            assert(parts.drop_last() =~= before.drop_last());
            if before.len() == 1 {
                assert(joined(parts, seq![c]) =~= s);
            } else {
                assert(joined(parts, seq![c]) =~= joined(before.drop_last(), seq![c]) + seq![c]
                    + before.last().push(s.last()));
                assert(joined(parts, seq![c]) =~= t.push(s.last()));
            }
        }
    }
}

/// A text trimmed at its end is a beginning of it, and ends in no white space.
pub proof fn trimmed_end_prefix(s: Seq<char>)
    ensures
        trimmed_end(s).len() <= s.len(),
        trimmed_end(s) == s.take(trimmed_end(s).len() as int),
        trimmed_end(s).len() > 0 ==> !whitespace(trimmed_end(s).last()),
    decreases s.len(),
{
    if s.len() > 0 && whitespace(s.last()) {
        trimmed_end_prefix(s.drop_last());
        assert(s.drop_last().take(trimmed_end(s).len() as int) =~= s.take(
            trimmed_end(s).len() as int,
        ));
    } else {
        assert(s.take(s.len() as int) =~= s);
    }
}

proof fn trimmed_start_facts(s: Seq<char>)
    ensures
        trimmed_start(s).len() <= s.len(),
        trimmed_start(s).len() > 0 ==> !whitespace(trimmed_start(s)[0]),
    decreases s.len(),
{
    if s.len() > 0 && whitespace(s[0]) {
        trimmed_start_facts(s.subrange(1, s.len() as int));
    }
}

/// A trimmed text neither begins nor ends with white space.
pub proof fn trimmed_has_no_edge_space(s: Seq<char>)
    ensures
        trimmed(s).len() <= s.len(),
        trimmed(s).len() > 0 ==> !whitespace(trimmed(s)[0]) && !whitespace(trimmed(s).last()),
{
    trimmed_start_facts(s);
    trimmed_end_prefix(trimmed_start(s));
}

/// The text does not end in white space.
pub open spec fn ends_clean(s: Seq<char>) -> bool {
    s.len() > 0 ==> !whitespace(s.last())
}

/// Wherever `c` stands, no white space but `c` itself stands in front of it.
pub open spec fn clean_before(s: Seq<char>, c: char) -> bool {
    forall|j: int|
        0 < j < s.len() && #[trigger] s[j] == c && s[j - 1] != c ==> !whitespace(s[j - 1])
}

/// How often `c` stands in `s`.
pub open spec fn occurrences(s: Seq<char>, c: char) -> nat
    decreases s.len(),
{
    if s.len() == 0 {
        0
    } else if s.last() == c {
        occurrences(s.drop_last(), c) + 1
    } else {
        occurrences(s.drop_last(), c)
    }
}

proof fn occurrences_of_sum(a: Seq<char>, b: Seq<char>, c: char)
    ensures
        occurrences(a + b, c) == occurrences(a, c) + occurrences(b, c),
    decreases b.len(),
{
    if b.len() == 0 {
        assert(a + b =~= a);
    } else {
        assert((a + b).drop_last() =~= a + b.drop_last());
        occurrences_of_sum(a, b.drop_last(), c);
    }
}

proof fn no_occurrence(s: Seq<char>, c: char)
    requires
        !s.contains(c),
    ensures
        occurrences(s, c) == 0,
    decreases s.len(),
{
    if s.len() > 0 {
        assert(s.contains(s.last()));
        assert forall|x: char| s.drop_last().contains(x) implies s.contains(x) by {
            let i = choose|i: int| 0 <= i < s.drop_last().len() && s.drop_last()[i] == x;
            assert(s[i] == x);
        }
        no_occurrence(s.drop_last(), c);
    }
}

/// The pieces between the occurrences of `c` end in no white space where none
/// stands in front of a `c`, nor at the end.
pub proof fn pieces_end_clean(s: Seq<char>, c: char)
    requires
        clean_before(s, c),
    ensures
        pieces(s, c).len() == occurrences(s, c) + 1,
        forall|i: int| 0 <= i < pieces(s, c).len() - 1 ==> ends_clean(#[trigger] pieces(s, c)[i]),
        pieces(s, c).last().len() > 0 ==> s.len() > 0 && pieces(s, c).last().last() == s.last()
            && s.last() != c,
    decreases s.len(),
{
    if s.len() > 0 {
        let t = s.drop_last();
        assert forall|j: int|
            0 < j < t.len() && #[trigger] t[j] == c && t[j - 1] != c implies !whitespace(
            t[j - 1],
        ) by {
            assert(s[j] == c);
        }
        pieces_end_clean(t, c);
        if s.last() == c && pieces(t, c).last().len() > 0 {
            assert(s[s.len() - 1] == c);
            assert(!whitespace(s[s.len() - 2]));
            assert(ends_clean(pieces(t, c).last()));
        }
    }
}

/// Lines that end in no white space, joined by `c`.
pub proof fn joined_ends_clean(lines: Seq<Seq<char>>, c: char)
    requires
        lines.len() > 0,
        forall|i: int| 0 <= i < lines.len() ==> ends_clean(#[trigger] lines[i]),
        forall|i: int| 0 <= i < lines.len() ==> !(#[trigger] lines[i]).contains(c),
    ensures
        clean_before(joined(lines, seq![c]), c),
        occurrences(joined(lines, seq![c]), c) == lines.len() - 1,
        joined(lines, seq![c]).len() > 0 ==> joined(lines, seq![c]).last() == c || !whitespace(
            joined(lines, seq![c]).last(),
        ),
    decreases lines.len(),
{
    let last = lines.last();
    assert(last == lines[lines.len() - 1]);
    no_occurrence(last, c);
    assert forall|j: int| 0 <= j < last.len() implies #[trigger] last[j] != c by {
        assert(last.contains(last[j]));
    }
    if lines.len() > 1 {
        let front = joined(lines.drop_last(), seq![c]);
        let all = joined(lines, seq![c]);
        joined_ends_clean(lines.drop_last(), c);
        occurrences_of_sum(front, seq![c], c);
        occurrences_of_sum(front + seq![c], last, c);
        assert(seq![c].drop_last() =~= Seq::<char>::empty());
        assert(occurrences(seq![c], c) == 1);
        assert forall|j: int|
            0 < j < all.len() && #[trigger] all[j] == c && all[j - 1] != c implies !whitespace(
            all[j - 1],
        ) by {
            if j < front.len() {
                assert(front[j] == c);
            } else if j > front.len() {
                assert(all[j] == last[j - front.len() - 1]);
            }
        }
    }
}

/// A beginning of a text has no occurrence that the text has not.
pub proof fn prefix_is_as_clean(s: Seq<char>, n: int, c: char)
    requires
        0 <= n <= s.len(),
        clean_before(s, c),
    ensures
        clean_before(s.take(n), c),
        occurrences(s.take(n), c) <= occurrences(s, c),
{
    assert forall|j: int|
        0 < j < s.take(n).len() && #[trigger] s.take(n)[j] == c && s.take(n)[j - 1]
            != c implies !whitespace(s.take(n)[j - 1]) by {
        assert(s[j] == c);
    }
    occurrences_of_sum(s.take(n), s.subrange(n, s.len() as int), c);
    assert(s.take(n) + s.subrange(n, s.len() as int) =~= s);
}

/// Of a text that is all white space nothing is left.
pub proof fn blank_trims_to_nothing(s: Seq<char>)
    requires
        forall|i: int| 0 <= i < s.len() ==> whitespace(#[trigger] s[i]),
    ensures
        trimmed(s) == Seq::<char>::empty(),
    decreases s.len(),
{
    if s.len() > 0 {
        blank_trims_to_nothing(s.subrange(1, s.len() as int));
    } else {
        assert(s =~= Seq::<char>::empty());
    }
}

/// The characters of `s`, in order.
pub fn chars_of(s: &str) -> (r: Vec<char>)
    ensures
        r@ == s@,
{
    let mut r: Vec<char> = Vec::new();
    for c in it: s.chars()
        invariant
            r@ =~= s@.take(it.index() as int),
            it.seq() == s@,
    {
        r.push(c);
    }
    r
}

/// The characters `from..to` of `v` as a string.
pub fn string_of(v: &Vec<char>, from: usize, to: usize) -> (r: String)
    requires
        from <= to <= v@.len(),
    ensures
        r@ == v@.subrange(from as int, to as int),
{
    let mut r = String::new();
    let mut i: usize = from;
    while i < to
        invariant
            from <= i <= to <= v@.len(),
            r@ =~= v@.subrange(from as int, i as int),
        decreases to - i,
    {
        r.push(v[i]);
        i += 1;
    }
    r
}

/// `a` followed by `b`.
pub fn cat(a: &str, b: &str) -> (r: String)
    ensures
        r@ == a@ + b@,
{
    let mut r = a.to_owned();
    r.append(b);
    r
}

pub fn cat3(a: &str, b: &str, c: &str) -> (r: String)
    ensures
        r@ == a@ + b@ + c@,
{
    let mut r = cat(a, b);
    r.append(c);
    r
}

pub fn cat4(a: &str, b: &str, c: &str, d: &str) -> (r: String)
    ensures
        r@ == a@ + b@ + c@ + d@,
{
    let mut r = cat3(a, b, c);
    r.append(d);
    r
}

/// `c`, `n` times.
pub fn repeat(c: char, n: usize) -> (r: String)
    ensures
        r@ == repeated(c, n as nat),
{
    let mut r = String::new();
    let mut i: usize = 0;
    while i < n
        invariant
            i <= n,
            r@ =~= repeated(c, i as nat),
        decreases n - i,
    {
        r.push(c);
        i += 1;
    }
    r
}

/// `n` blanks.
pub fn spaces(n: usize) -> (r: String)
    ensures
        r@ == blanks(n as nat),
{
    repeat(' ', n)
}

/// Whether `a` and `b` hold the same characters.
pub fn same(a: &str, b: &str) -> (r: bool)
    ensures
        r == (a@ == b@),
{
    a.to_owned().eq(&b.to_owned())
}

fn digit_char(d: u64) -> (r: char)
    requires
        d < 10,
    ensures
        r == digit(d as nat),
{
    if d == 0 {
        '0'
    } else if d == 1 {
        '1'
    } else if d == 2 {
        '2'
    } else if d == 3 {
        '3'
    } else if d == 4 {
        '4'
    } else if d == 5 {
        '5'
    } else if d == 6 {
        '6'
    } else if d == 7 {
        '7'
    } else if d == 8 {
        '8'
    } else {
        '9'
    }
}

/// `n` in decimal notation.
pub fn decimal_of(n: u64) -> (r: String)
    ensures
        r@ == decimal(n as nat),
    decreases n,
{
    let mut r = String::new();
    if n >= 10 {
        r = decimal_of(n / 10);
    }
    r.push(digit_char(n % 10));
    proof {
        if n < 10 {
            assert(r@ =~= seq![digit(n as nat)]);
        }
    }
    r
}

/// `s` without the white space at both ends.
pub fn trim<'a>(s: &'a str) -> (r: &'a str)
    ensures
        r@ == trimmed(s@),
{
    let v = chars_of(s);
    let n: usize = v.len();
    let mut i: usize = 0;
    while i < n && v[i].is_whitespace()
        invariant
            v@ == s@,
            n == v@.len(),
            i <= n,
            trimmed_start(s@) == trimmed_start(s@.subrange(i as int, n as int)),
        decreases n - i,
    {
        proof {
            let rest = s@.subrange(i as int, n as int);
            assert(rest.subrange(1, rest.len() as int) =~= s@.subrange(i + 1, n as int));
        }
        i += 1;
    }
    proof {
        assert(s@ =~= s@.subrange(0, n as int));
    }
    let ghost rest = s@.subrange(i as int, n as int);
    let mut j: usize = n;
    while j > i && v[j - 1].is_whitespace()
        invariant
            v@ == s@,
            n == v@.len(),
            i <= j <= n,
            rest == s@.subrange(i as int, n as int),
            trimmed_end(rest) == trimmed_end(s@.subrange(i as int, j as int)),
        decreases j,
    {
        proof {
            let cur = s@.subrange(i as int, j as int);
            assert(cur.drop_last() =~= s@.subrange(i as int, j - 1));
        }
        j -= 1;
    }
    s.substring_char(i, j)
}

/// `s` with its end replaced by an ellipsis where it has more than `max`
/// characters.
pub fn clip(s: &str, max: usize) -> (r: String)
    ensures
        r@ == clipped(s@, max as int),
{
    if s.unicode_len() <= max {
        return s.to_owned();
    }
    let mut r = take(s, max.saturating_sub(1)).to_owned();
    r.push('\u{2026}');
    r
}

/// The pieces of `s` between the occurrences of `c`.
pub fn split<'a>(s: &'a str, c: char) -> (r: Vec<String>)
    ensures
        texts(r@) == pieces(s@, c),
{
    let v = chars_of(s);
    let mut done: Vec<String> = Vec::new();
    let mut cur = String::new();
    let mut i: usize = 0;
    proof {
        assert(s@.take(0) =~= Seq::<char>::empty());
        assert(texts(done@).push(cur@) =~= pieces(s@.take(0), c));
    }
    while i < v.len()
        invariant
            v@ == s@,
            i <= v@.len(),
            texts(done@).push(cur@) == pieces(s@.take(i as int), c),
        decreases v.len() - i,
    {
        let ch = v[i];
        proof {
            let t = s@.take(i + 1);
            assert(t.drop_last() =~= s@.take(i as int));
            let before = texts(done@).push(cur@);
            assert(before.drop_last() =~= texts(done@));
        }
        if ch == c {
            let ghost before = texts(done@).push(cur@);
            done.push(cur);
            cur = String::new();
            proof {
                assert(texts(done@) =~= before);
                assert(cur@ =~= Seq::<char>::empty());
            }
        } else {
            cur.push(ch);
        }
        i += 1;
    }
    proof {
        assert(s@.take(s@.len() as int) =~= s@);
    }
    let ghost all = texts(done@).push(cur@);
    done.push(cur);
    proof {
        assert(texts(done@) =~= all);
    }
    done
}

/// Whether `needle` occurs in `s`.
pub fn contains(s: &str, needle: &str) -> (r: bool)
    ensures
        r == occurs(s@, needle@),
{
    let v = chars_of(s);
    let w = chars_of(needle);
    let n: usize = v.len();
    let m: usize = w.len();
    if m > n {
        return false;
    }
    let mut at: usize = 0;
    while at <= n - m
        invariant
            v@ == s@,
            w@ == needle@,
            n == v@.len(),
            m == w@.len(),
            m <= n,
            at <= n - m + 1,
            forall|k: int| 0 <= k < at ==> !stands_at(s@, needle@, k),
        decreases n + 1 - at,
    {
        let mut k: usize = 0;
        while k < m && v[at + k] == w[k]
            invariant
                v@ == s@,
                w@ == needle@,
                n == v@.len(),
                m == w@.len(),
                k <= m,
                at + m <= n,
                forall|j: int| 0 <= j < k ==> v@[at + j] == w@[j],
            decreases m - k,
        {
            k += 1;
        }
        if k == m {
            proof {
                assert(s@.subrange(at as int, at + m) =~= needle@);
                assert(stands_at(s@, needle@, at as int));
            }
            return true;
        }
        proof {
            assert(s@.subrange(at as int, at + m)[k as int] == v@[at + k]);
            assert(!stands_at(s@, needle@, at as int));
        }
        if at == n - m {
            assert(forall|k: int| stands_at(s@, needle@, k) ==> 0 <= k <= n - m);
            return false;
        }
        at += 1;
    }
    false
}

/// The pieces joined into one text, with `sep` between each two.
pub fn join(parts: &Vec<String>, sep: &str) -> (r: String)
    ensures
        r@ == joined(texts(parts@), sep@),
{
    let mut r = String::new();
    let mut i: usize = 0;
    proof {
        assert(texts(parts@).take(0) =~= Seq::<Seq<char>>::empty());
    }
    while i < parts.len()
        invariant
            i <= parts@.len(),
            r@ == joined(texts(parts@).take(i as int), sep@),
        decreases parts.len() - i,
    {
        proof {
            let t = texts(parts@).take(i + 1);
            assert(t.drop_last() =~= texts(parts@).take(i as int));
            assert(t.last() == parts@[i as int]@);
        }
        if i > 0 {
            r.append(sep);
            r.append(parts[i].as_str());
        } else {
            r = parts[i].clone();
        }
        i += 1;
    }
    proof {
        assert(texts(parts@).take(parts@.len() as int) =~= texts(parts@));
    }
    r
}

/// The length of the longest of the texts.
pub fn longest_of(parts: &Vec<String>) -> (r: usize)
    ensures
        r == longest(texts(parts@)),
{
    let mut r: usize = 0;
    let mut i: usize = 0;
    proof {
        assert(texts(parts@).take(0) =~= Seq::<Seq<char>>::empty());
    }
    while i < parts.len()
        invariant
            i <= parts@.len(),
            r == longest(texts(parts@).take(i as int)),
        decreases parts.len() - i,
    {
        proof {
            let t = texts(parts@).take(i + 1);
            assert(t.drop_last() =~= texts(parts@).take(i as int));
            assert(t.last() == parts@[i as int]@);
        }
        let n = parts[i].as_str().unicode_len();
        if n > r {
            r = n;
        }
        i += 1;
    }
    proof {
        assert(texts(parts@).take(parts@.len() as int) =~= texts(parts@));
    }
    r
}

/// The first `n` characters of `s`, all of them if there are fewer.
pub fn take<'a>(s: &'a str, n: usize) -> (r: &'a str)
    ensures
        r@ == s@.take(at_most(n as int, s@.len() as int)),
{
    let len = s.unicode_len();
    if n < len {
        s.substring_char(0, n)
    } else {
        proof {
            assert(s@.take(s@.len() as int) =~= s@);
        }
        s
    }
}

/// Appends a string to a list of strings.
pub fn push_text(v: &mut Vec<String>, s: String)
    ensures
        texts(final(v)@) == texts(old(v)@).push(s@),
{
    v.push(s);
    proof {
        assert(texts(v@) =~= texts(old(v)@).push(s@));
    }
}

/// A copy of an optional string.
pub fn copy_option(s: &Option<String>) -> (r: Option<String>)
    ensures
        option_text(r) == option_text(*s),
{
    match s {
        Some(t) => Some(t.clone()),
        None => None,
    }
}

/// The text that an optional string holds.
pub open spec fn option_text(s: Option<String>) -> Option<Seq<char>> {
    match s {
        Some(t) => Some(t@),
        None => None,
    }
}

/// `Some(value)`, or `None` for the empty text.
pub open spec fn nonempty(s: Seq<char>) -> Option<Seq<char>> {
    if s.len() == 0 {
        None
    } else {
        Some(s)
    }
}

/// `n` in decimal notation, with a minus sign where it is negative.
pub open spec fn signed_decimal(n: int) -> Seq<char> {
    if n < 0 {
        "-"@ + decimal((-n) as nat)
    } else {
        decimal(n as nat)
    }
}

/// `n` in decimal notation, with a minus sign where it is negative.
pub fn signed_decimal_of(n: i64) -> (r: String)
    ensures
        r@ == signed_decimal(n as int),
{
    if n < 0 {
        let magnitude: u64 = (-(n + 1)) as u64 + 1;
        cat("-", decimal_of(magnitude).as_str())
    } else {
        decimal_of(n as u64)
    }
}

/// A copy of a list of strings.
pub fn copy_texts(v: &Vec<String>) -> (r: Vec<String>)
    ensures
        texts(r@) == texts(v@),
{
    let mut r: Vec<String> = Vec::new();
    let mut i: usize = 0;
    while i < v.len()
        invariant
            i <= v@.len(),
            texts(r@) =~= texts(v@).take(i as int),
        decreases v.len() - i,
    {
        push_text(&mut r, v[i].clone());
        i += 1;
    }
    r
}

/// The trimmed pieces that are not empty, among the first `n`.
pub open spec fn filled_below(parts: Seq<Seq<char>>, n: nat) -> Seq<Seq<char>>
    decreases n,
{
    if n == 0 {
        Seq::empty()
    } else {
        let before = filled_below(parts, (n - 1) as nat);
        if trimmed(parts[n - 1]).len() > 0 {
            before.push(trimmed(parts[n - 1]))
        } else {
            before
        }
    }
}

/// The entries of a comma-separated list, trimmed, without empty ones.
pub open spec fn list_entries(s: Seq<char>) -> Seq<Seq<char>> {
    filled_below(pieces(s, ','), pieces(s, ',').len())
}

/// The entries of a comma-separated list, trimmed, without empty ones.
pub fn parse_list(s: &str) -> (r: Vec<String>)
    ensures
        texts(r@) == list_entries(s@),
{
    let parts = split(s, ',');
    let mut r: Vec<String> = Vec::new();
    let mut i: usize = 0;
    proof {
        assert(texts(r@) =~= Seq::<Seq<char>>::empty());
    }
    while i < parts.len()
        invariant
            texts(parts@) == pieces(s@, ','),
            i <= parts@.len(),
            texts(r@) == filled_below(texts(parts@), i as nat),
        decreases parts.len() - i,
    {
        let t = trim(parts[i].as_str());
        proof {
            assert(texts(parts@)[i as int] == parts@[i as int]@);
        }
        if t.unicode_len() > 0 {
            push_text(&mut r, t.to_owned());
        }
        i += 1;
    }
    r
}

/// The length of a text in bytes.
pub open spec fn byte_len(s: Seq<char>) -> nat {
    vstd::utf8::encode_utf8(s).len()
}

/// The length of a text in bytes.
pub fn byte_count(s: &str) -> (r: usize)
    ensures
        r == byte_len(s@),
{
    s.as_bytes().len()
}

/// The first position at or behind `from` that holds white space, or the end.
pub open spec fn space_from(s: Seq<char>, from: int) -> int
    decreases s.len() - from,
{
    if from < 0 || from >= s.len() || whitespace(s[from]) {
        from
    } else {
        space_from(s, from + 1)
    }
}

/// The first word of a text; empty where it has none.
pub open spec fn first_word(s: Seq<char>) -> Seq<char> {
    let t = trimmed_start(s);
    t.take(space_from(t, 0))
}

/// `s` without its leading white space.
pub fn trim_start<'a>(s: &'a str) -> (r: &'a str)
    ensures
        r@ == trimmed_start(s@),
{
    let v = chars_of(s);
    let n = v.len();
    let mut i: usize = 0;
    assert(s@.subrange(0, n as int) =~= s@);
    while i < n && v[i].is_whitespace()
        invariant
            v@ == s@,
            n == v@.len(),
            i <= n,
            trimmed_start(s@) == trimmed_start(s@.subrange(i as int, n as int)),
        decreases n - i,
    {
        proof {
            let rest = s@.subrange(i as int, n as int);
            assert(rest.subrange(1, rest.len() as int) =~= s@.subrange(i + 1, n as int));
        }
        i += 1;
    }
    s.substring_char(i, n)
}

/// `s` without its trailing white space.
pub fn trim_end<'a>(s: &'a str) -> (r: &'a str)
    ensures
        r@ == trimmed_end(s@),
{
    let v = chars_of(s);
    let mut n: usize = v.len();
    assert(s@.take(n as int) =~= s@);
    while n > 0 && v[n - 1].is_whitespace()
        invariant
            v@ == s@,
            n <= s@.len(),
            trimmed_end(s@) == trimmed_end(s@.take(n as int)),
        decreases n,
    {
        proof {
            assert(s@.take(n as int).drop_last() =~= s@.take(n - 1));
        }
        n -= 1;
    }
    assert(s@.take(n as int) =~= s@.subrange(0, n as int));
    s.substring_char(0, n)
}

/// The first word of a text; empty where it has none.
pub fn word_of<'a>(s: &'a str) -> (r: &'a str)
    ensures
        r@ == first_word(s@),
{
    let t = trim_start(s);
    let v = chars_of(t);
    let mut i: usize = 0;
    while i < v.len() && !v[i].is_whitespace()
        invariant
            v@ == t@,
            i <= v@.len(),
            space_from(t@, 0) == space_from(t@, i as int),
        decreases v.len() - i,
    {
        i += 1;
    }
    assert(t@.subrange(0, i as int) =~= t@.take(i as int));
    t.substring_char(0, i)
}

/// The first position at or behind `from` where a sentence ends, or the end.
pub open spec fn stop_from(s: Seq<char>, from: int) -> int
    decreases s.len() - from,
{
    if from < 0 || from >= s.len() || s[from] == '.' || s[from] == '!' || s[from] == '?' {
        from
    } else {
        stop_from(s, from + 1)
    }
}

/// The first sentence of a text, without its mark and the white space at its
/// ends.
pub open spec fn first_sentence(s: Seq<char>) -> Seq<char> {
    trimmed(s.take(stop_from(s, 0)))
}

/// The first sentence of a text.
pub fn sentence_of<'a>(s: &'a str) -> (r: &'a str)
    ensures
        r@ == first_sentence(s@),
{
    let v = chars_of(s);
    let mut i: usize = 0;
    while i < v.len() && v[i] != '.' && v[i] != '!' && v[i] != '?'
        invariant
            v@ == s@,
            i <= v@.len(),
            stop_from(s@, 0) == stop_from(s@, i as int),
        decreases v.len() - i,
    {
        i += 1;
    }
    assert(s@.subrange(0, i as int) =~= s@.take(i as int));
    trim(s.substring_char(0, i))
}

} // verus!
