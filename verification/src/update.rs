//! Updates: which release is newer, and where it is downloaded from.
use vstd::prelude::*;

use crate::json::{json_text, parse_text};
use crate::numbers::{parse_u32, u32_of};
use crate::text::{cat, cat4, decimal, joined, option_text, pieces, pieces_nonempty, split, texts};
use crate::text_laws::{decimals_read_back, numbers_are_read_as_written, splitting_undoes_joining};

verus! {

/// The numbers among the first `n` parts; a part that is no number is left
/// out.
pub open spec fn numbers_below(parts: Seq<Seq<char>>, n: nat) -> Seq<u32>
    decreases n,
{
    if n == 0 {
        Seq::empty()
    } else {
        match u32_of(parts[n - 1]) {
            Some(v) => numbers_below(parts, (n - 1) as nat).push(v),
            None => numbers_below(parts, (n - 1) as nat),
        }
    }
}

/// How far `s` goes before the first `c`: to its end where there is none.
pub open spec fn reach(s: Seq<char>, c: char) -> nat
    decreases s.len(),
{
    if s.len() == 0 || s[0] == c {
        0
    } else {
        1 + reach(s.subrange(1, s.len() as int), c)
    }
}

/// A version without the build metadata that a `+` starts.
pub open spec fn unbuilt(version: Seq<char>) -> Seq<char> {
    version.take(reach(version, '+') as int)
}

/// The numbers of a version: those in front of the first `-`.
pub open spec fn version_numbers(version: Seq<char>) -> Seq<u32> {
    let whole = unbuilt(version);
    let parts = pieces(whole.take(reach(whole, '-') as int), '.');
    numbers_below(parts, parts.len())
}

/// What a pre-release is called: the text behind the first `-`. `None` for a
/// release.
pub open spec fn prerelease(version: Seq<char>) -> Option<Seq<char>> {
    let whole = unbuilt(version);
    let at = reach(whole, '-') as int;
    if at < whole.len() {
        Some(whole.subrange(at + 1, whole.len() as int))
    } else {
        None
    }
}

/// Where one identifier of a pre-release stands, as a sequence to be ordered
/// lexicographically: numbers by their value, and in front of every word; words
/// by their characters, a shorter one in front of those it begins.
pub open spec fn identifier_rank(id: Seq<char>) -> Seq<u32> {
    match u32_of(id) {
        Some(v) => seq![0u32, v],
        None => seq![1u32] + Seq::new(id.len(), |i: int| (id[i] as u32 + 1) as u32) + seq![0u32],
    }
}

/// The ranks of the first `n` identifiers, one behind the other.
pub open spec fn ranks_below(ids: Seq<Seq<char>>, n: nat) -> Seq<u32>
    decreases n,
{
    if n == 0 {
        Seq::empty()
    } else {
        ranks_below(ids, (n - 1) as nat) + identifier_rank(ids[n - 1])
    }
}

/// Where a version stands among those with the same numbers: pre-releases by
/// their identifiers, and the release behind all of them.
pub open spec fn standing(version: Seq<char>) -> Seq<u32> {
    match prerelease(version) {
        Some(name) => ranks_below(pieces(name, '.'), pieces(name, '.').len()),
        None => seq![2u32],
    }
}

/// `a` comes after `b` in lexicographic order.
pub open spec fn comes_after(a: Seq<u32>, b: Seq<u32>) -> bool
    decreases a.len(),
{
    if a.len() == 0 {
        false
    } else if b.len() == 0 {
        true
    } else if a[0] != b[0] {
        a[0] > b[0]
    } else {
        comes_after(a.subrange(1, a.len() as int), b.subrange(1, b.len() as int))
    }
}

/// `a` is newer than `b`: its numbers come later, or they are the same and it
/// stands later among the versions that have them.
pub open spec fn newer(a: Seq<char>, b: Seq<char>) -> bool {
    if version_numbers(a) == version_numbers(b) {
        comes_after(standing(a), standing(b))
    } else {
        comes_after(version_numbers(a), version_numbers(b))
    }
}

/// How far `s` goes before the first `c`.
fn reach_of(s: &str, c: char) -> (r: usize)
    ensures
        r == reach(s@, c),
        r <= s@.len(),
{
    let n = s.unicode_len();
    let mut i: usize = 0;
    assert(s@.subrange(0, s@.len() as int) =~= s@);
    while i < n && s.get_char(i) != c
        invariant
            i <= n,
            n == s@.len(),
            reach(s@, c) == i + reach(s@.subrange(i as int, s@.len() as int), c),
        decreases n - i,
    {
        proof {
            let rest = s@.subrange(i as int, s@.len() as int);
            assert(rest.subrange(1, rest.len() as int) =~= s@.subrange(i + 1, s@.len() as int));
        }
        i += 1;
    }
    i
}

/// The numbers between the dots of `text`.
fn dotted_numbers(text: &str) -> (r: Vec<u32>)
    ensures
        r@ == numbers_below(pieces(text@, '.'), pieces(text@, '.').len()),
{
    let parts = split(text, '.');
    let mut r: Vec<u32> = Vec::new();
    let mut i: usize = 0;
    assert(texts(parts@).len() == parts@.len());
    assert(r@ =~= Seq::<u32>::empty());
    while i < parts.len()
        invariant
            i <= parts@.len(),
            r@ == numbers_below(texts(parts@), i as nat),
        decreases parts.len() - i,
    {
        match parse_u32(parts[i].as_str()) {
            Some(v) => r.push(v),
            None => {},
        }
        i += 1;
    }
    r
}

fn after(a: &Vec<u32>, b: &Vec<u32>) -> (r: bool)
    ensures
        r == comes_after(a@, b@),
{
    let mut i: usize = 0;
    assert(a@.subrange(0, a@.len() as int) =~= a@);
    assert(b@.subrange(0, b@.len() as int) =~= b@);
    while i < a.len() && i < b.len()
        invariant
            i <= a@.len(),
            i <= b@.len(),
            comes_after(a@, b@) == comes_after(
                a@.subrange(i as int, a@.len() as int),
                b@.subrange(i as int, b@.len() as int),
            ),
        decreases a.len() - i,
    {
        proof {
            let s = a@.subrange(i as int, a@.len() as int);
            let t = b@.subrange(i as int, b@.len() as int);
            assert(s.subrange(1, s.len() as int) =~= a@.subrange(i + 1, a@.len() as int));
            assert(t.subrange(1, t.len() as int) =~= b@.subrange(i + 1, b@.len() as int));
        }
        if a[i] != b[i] {
            return a[i] > b[i];
        }
        i += 1;
    }
    i < a.len()
}

/// Appends the rank of one identifier.
fn push_rank(r: &mut Vec<u32>, id: &str)
    ensures
        final(r)@ == old(r)@ + identifier_rank(id@),
{
    match parse_u32(id) {
        Some(v) => {
            r.push(0);
            r.push(v);
            assert(r@ =~= old(r)@ + identifier_rank(id@));
        },
        None => {
            let n = id.unicode_len();
            let ghost word = Seq::new(id@.len(), |k: int| (id@[k] as u32 + 1) as u32);
            r.push(1);
            let mut i: usize = 0;
            while i < n
                invariant
                    i <= n,
                    n == id@.len(),
                    word == Seq::new(id@.len(), |k: int| (id@[k] as u32 + 1) as u32),
                    r@ =~= old(r)@ + seq![1u32] + word.take(i as int),
                decreases n - i,
            {
                let c = id.get_char(i);
                r.push(c as u32 + 1);
                i += 1;
            }
            r.push(0);
            assert(r@ =~= old(r)@ + (seq![1u32] + word + seq![0u32]));
        },
    }
}

/// Where the pre-release called `name` stands.
fn prerelease_standing(name: &str) -> (r: Vec<u32>)
    ensures
        r@ == ranks_below(pieces(name@, '.'), pieces(name@, '.').len()),
{
    let ids = split(name, '.');
    let mut r: Vec<u32> = Vec::new();
    let mut i: usize = 0;
    assert(texts(ids@).len() == ids@.len());
    assert(r@ =~= Seq::<u32>::empty());
    while i < ids.len()
        invariant
            i <= ids@.len(),
            r@ == ranks_below(texts(ids@), i as nat),
        decreases ids.len() - i,
    {
        push_rank(&mut r, ids[i].as_str());
        i += 1;
    }
    r
}

/// The numbers of a version, and where it stands among those that have them.
fn parse_version(version: &str) -> (r: (Vec<u32>, Vec<u32>))
    ensures
        r.0@ == version_numbers(version@),
        r.1@ == standing(version@),
{
    let whole = version.substring_char(0, reach_of(version, '+'));
    let n = whole.unicode_len();
    let at = reach_of(whole, '-');
    assert(whole@ =~= unbuilt(version@));
    let front = whole.substring_char(0, at);
    assert(front@ =~= whole@.take(at as int));
    let numbers = dotted_numbers(front);
    if at < n {
        (numbers, prerelease_standing(whole.substring_char(at + 1, n)))
    } else {
        (numbers, vec![2])
    }
}

fn same_numbers(a: &Vec<u32>, b: &Vec<u32>) -> (r: bool)
    ensures
        r == (a@ == b@),
{
    if a.len() != b.len() {
        return false;
    }
    let mut i: usize = 0;
    while i < a.len()
        invariant
            i <= a@.len(),
            a@.len() == b@.len(),
            forall|k: int| 0 <= k < i ==> a@[k] == b@[k],
        decreases a.len() - i,
    {
        if a[i] != b[i] {
            return false;
        }
        i += 1;
    }
    assert(a@ =~= b@);
    true
}

/// Simple semver comparison: is `a` newer than `b`?
pub fn version_newer(a: &str, b: &str) -> (r: bool)
    ensures
        r == newer(a@, b@),
{
    let x = parse_version(a);
    let y = parse_version(b);
    if same_numbers(&x.0, &y.0) {
        after(&x.1, &y.1)
    } else {
        after(&x.0, &y.0)
    }
}

/// A tag without the `v` in front of it.
pub open spec fn untagged(tag: Seq<char>) -> Seq<char> {
    if tag.len() > 0 && tag[0] == 'v' {
        tag.subrange(1, tag.len() as int)
    } else {
        tag
    }
}

/// The version to offer, given the tag of the latest release.
pub open spec fn offered(tag: Option<Seq<char>>, current: Seq<char>) -> Option<Seq<char>> {
    match tag {
        Some(t) => if newer(untagged(t), current) {
            Some(untagged(t))
        } else {
            None
        },
        None => None,
    }
}

/// The version to offer, given the tag of the latest release.
pub fn offer_release(tag: &Option<String>, current_version: &str) -> (r: Option<String>)
    ensures
        option_text(r) == offered(option_text(*tag), current_version@),
{
    match tag {
        Some(t) => {
            let n = t.as_str().unicode_len();
            let latest = if n > 0 && t.as_str().get_char(0) == 'v' {
                t.as_str().substring_char(1, n)
            } else {
                t.as_str()
            };
            if version_newer(latest, current_version) {
                Some(latest.to_owned())
            } else {
                None
            }
        },
        None => None,
    }
}

/// The version to offer, given the description of the latest release.
pub fn check_release(body: &Vec<u8>, current_version: &str) -> (r: Option<String>)
    ensures
        option_text(r) == offered(json_text(body@, "tag_name"@), current_version@),
{
    offer_release(&parse_text(body, "tag_name"), current_version)
}

/// What the program runs on.
#[derive(Clone, Copy, Debug, PartialEq, Eq, Structural)]
pub enum Platform {
    MacArm,
    MacIntel,
    Linux,
    Windows,
    Other,
}

/// The name of the binary's target.
#[verifier::allow_in_spec]
pub fn update_target(platform: Platform) -> Option<&'static str>
    returns
        (match platform {
            Platform::MacArm => Some("aarch64-apple-darwin"),
            Platform::MacIntel => Some("x86_64-apple-darwin"),
            Platform::Linux => Some("x86_64-unknown-linux-gnu"),
            _ => None,
        }),
{
    match platform {
        Platform::MacArm => Some("aarch64-apple-darwin"),
        Platform::MacIntel => Some("x86_64-apple-darwin"),
        Platform::Linux => Some("x86_64-unknown-linux-gnu"),
        _ => None,
    }
}

/// Homebrew is asked first.
#[verifier::allow_in_spec]
pub fn tries_homebrew(platform: Platform) -> bool
    returns
        platform == Platform::MacArm || platform == Platform::MacIntel,
{
    match platform {
        Platform::MacArm => true,
        Platform::MacIntel => true,
        _ => false,
    }
}

/// The tag of a version.
pub open spec fn tag_of(version: Seq<char>) -> Seq<char> {
    if version.len() > 0 && version[0] == 'v' {
        version
    } else {
        "v"@ + version
    }
}

/// Where the binary of a version is downloaded from; `None` where there is
/// none for the platform.
pub fn update_url(version: &str, platform: Platform) -> (r: Option<String>)
    ensures
        option_text(r) == (match update_target(platform) {
            Some(target) => Some(
                "https://github.com/giovannialberto/scriba/releases/download/"@ + tag_of(version@)
                    + "/scriba-"@ + target@,
            ),
            None => None,
        }),
{
    let tag = if version.unicode_len() > 0 && version.get_char(0) == 'v' {
        version.to_owned()
    } else {
        cat("v", version)
    };
    match update_target(platform) {
        Some(target) => Some(
            cat4(
                "https://github.com/giovannialberto/scriba/releases/download/",
                tag.as_str(),
                "/scriba-",
                target,
            ),
        ),
        None => None,
    }
}

// ─── Laws ────────────────────────────────────────────────────────────────────

proof fn after_order(a: Seq<u32>, b: Seq<u32>, c: Seq<u32>)
    ensures
        !comes_after(a, a),
        comes_after(a, b) ==> !comes_after(b, a),
        comes_after(a, b) && comes_after(b, c) ==> comes_after(a, c),
        comes_after(a, b) || comes_after(b, a) || a == b,
    decreases a.len(),
{
    if a.len() > 0 {
        let x = a.subrange(1, a.len() as int);
        let y = b.subrange(1, b.len() as int);
        let z = c.subrange(1, c.len() as int);
        if b.len() > 0 && c.len() > 0 {
            after_order(x, y, z);
        } else if b.len() > 0 {
            after_order(x, y, x);
        } else {
            after_order(x, x, x);
        }
        if b.len() > 0 && a[0] == b[0] && x == y {
            assert(a =~= seq![a[0]] + x);
            assert(b =~= seq![b[0]] + y);
        }
    } else if b.len() == 0 {
        assert(a =~= b);
    }
}

/// To be newer is an order: no version is newer than itself, of two versions
/// at most one is newer than the other, and what is newer than something newer
/// is newer.
pub proof fn newer_is_an_order(a: Seq<char>, b: Seq<char>, c: Seq<char>)
    ensures
        !newer(a, a),
        newer(a, b) ==> !newer(b, a),
        newer(a, b) && newer(b, c) ==> newer(a, c),
{
    after_order(version_numbers(a), version_numbers(b), version_numbers(c));
    after_order(standing(a), standing(b), standing(c));
}

/// Two versions of which neither is newer have the same numbers and stand at
/// the same place among those that have them.
pub proof fn neither_newer_is_the_same(a: Seq<char>, b: Seq<char>)
    requires
        !newer(a, b),
        !newer(b, a),
    ensures
        version_numbers(a) == version_numbers(b),
        standing(a) == standing(b),
{
    after_order(version_numbers(a), version_numbers(b), version_numbers(a));
    after_order(standing(a), standing(b), standing(a));
}

proof fn ranks_start_low(ids: Seq<Seq<char>>, n: nat)
    requires
        n > 0,
    ensures
        ranks_below(ids, n).len() > 0,
        ranks_below(ids, n)[0] < 2,
    decreases n,
{
    if n > 1 {
        ranks_start_low(ids, (n - 1) as nat);
    } else {
        assert(ranks_below(ids, 0) =~= Seq::<u32>::empty());
        assert(ranks_below(ids, n) =~= identifier_rank(ids[0]));
    }
}

/// A release is newer than each of its pre-releases, and none of them is newer
/// than it.
pub proof fn releases_follow_their_prereleases(release: Seq<char>, early: Seq<char>)
    requires
        version_numbers(release) == version_numbers(early),
        prerelease(release) is None,
        prerelease(early) is Some,
    ensures
        newer(release, early),
        !newer(early, release),
{
    let ids = pieces(prerelease(early)->0, '.');
    pieces_nonempty(prerelease(early)->0, '.');
    ranks_start_low(ids, ids.len());
    newer_is_an_order(release, early, release);
}

/// What is offered is newer than what is running.
pub proof fn offers_are_newer(tag: Option<Seq<char>>, current: Seq<char>)
    ensures
        offered(tag, current) matches Some(v) ==> newer(v, current),
{
}

/// A version as it is written: three numbers with dots between them.
pub open spec fn written(a: u32, b: u32, c: u32) -> Seq<char> {
    joined(seq![decimal(a as nat), decimal(b as nat), decimal(c as nat)], seq!['.'])
}

proof fn digits_only(s: Seq<char>, c: char)
    requires
        crate::numbers::digits_value(s) is Some,
        c < '0' || c > '9',
    ensures
        !s.contains(c),
    decreases s.len(),
{
    if s.len() > 0 {
        digits_only(s.drop_last(), c);
        if s.contains(c) {
            let i = choose|i: int| 0 <= i < s.len() && s[i] == c;
            if i < s.len() - 1 {
                assert(s.drop_last()[i] == c);
                assert(s.drop_last().contains(c));
            }
        }
    }
}

proof fn whole_reach(s: Seq<char>, c: char)
    requires
        !s.contains(c),
    ensures
        reach(s, c) == s.len(),
    decreases s.len(),
{
    if s.len() > 0 {
        let rest = s.subrange(1, s.len() as int);
        assert(s.contains(s[0]));
        if rest.contains(c) {
            let i = choose|i: int| 0 <= i < rest.len() && rest[i] == c;
            assert(s[i + 1] == c);
        }
        whole_reach(rest, c);
    }
}

proof fn joined_three(a: Seq<char>, b: Seq<char>, c: Seq<char>, d: char)
    ensures
        joined(seq![a, b, c], seq![d]) == a + seq![d] + b + seq![d] + c,
{
    let parts = seq![a, b, c];
    assert(parts.drop_last() =~= seq![a, b]);
    assert(seq![a, b].drop_last() =~= seq![a]);
    reveal_with_fuel(joined, 4);
}

proof fn written_numbers(a: u32, b: u32, c: u32)
    ensures
        version_numbers(written(a, b, c)) == seq![a, b, c],
        prerelease(written(a, b, c)) is None,
{
    let x = decimal(a as nat);
    let y = decimal(b as nat);
    let z = decimal(c as nat);
    let v = written(a, b, c);
    let parts = seq![x, y, z];
    decimals_read_back(a as nat);
    decimals_read_back(b as nat);
    decimals_read_back(c as nat);
    numbers_are_read_as_written(a);
    numbers_are_read_as_written(b);
    numbers_are_read_as_written(c);
    joined_three(x, y, z, '.');
    assert forall|d: char| (d == '+' || d == '-') implies !v.contains(d) by {
        digits_only(x, d);
        digits_only(y, d);
        digits_only(z, d);
        if v.contains(d) {
            let i = choose|i: int| 0 <= i < v.len() && v[i] == d;
            let n = x.len() as int;
            let m = y.len() as int;
            if i < n {
                assert(x[i] == d);
                assert(x.contains(d));
            } else if n < i < n + 1 + m {
                assert(y[i - n - 1] == d);
                assert(y.contains(d));
            } else if i > n + 1 + m {
                assert(z[i - n - m - 2] == d);
                assert(z.contains(d));
            }
        }
    }
    whole_reach(v, '+');
    whole_reach(v, '-');
    assert(v.take(v.len() as int) =~= v);
    assert forall|i: int| 0 <= i < parts.len() implies !(#[trigger] parts[i]).contains('.') by {
        digits_only(x, '.');
        digits_only(y, '.');
        digits_only(z, '.');
    }
    splitting_undoes_joining(parts, '.');
    reveal_with_fuel(numbers_below, 4);
    assert(version_numbers(v) =~= seq![a, b, c]);
}

/// Of two versions that is newer which has the greater first number, or with
/// the same first number the greater second one, or with the same first two
/// the greater third one.
pub proof fn greater_numbers_are_newer(a: u32, b: u32, c: u32, x: u32, y: u32, z: u32)
    ensures
        newer(written(a, b, c), written(x, y, z)) <==> a > x || (a == x && b > y) || (a == x && b
            == y && c > z),
{
    written_numbers(a, b, c);
    written_numbers(x, y, z);
    let s = seq![a, b, c];
    let t = seq![x, y, z];
    after_order(standing(written(a, b, c)), standing(written(x, y, z)), standing(written(a, b, c)));
    let s1 = s.subrange(1, 3);
    let t1 = t.subrange(1, 3);
    assert(s1 =~= seq![b, c] && t1 =~= seq![y, z]);
    assert(s1.subrange(1, 2) =~= seq![c] && t1.subrange(1, 2) =~= seq![z]);
    assert(seq![c].subrange(1, 1) =~= Seq::<u32>::empty());
    assert(seq![z].subrange(1, 1) =~= Seq::<u32>::empty());
    reveal_with_fuel(comes_after, 5);
    if s == t {
        assert(s[0] == a && s[1] == b && s[2] == c && t[0] == x && t[1] == y && t[2] == z);
    } else if a == x && b == y && c == z {
        assert(s =~= t);
    }
}

/// A newer release is offered, without the `v` of its tag; one that is not
/// newer is not.
pub proof fn newer_releases_are_offered(version: Seq<char>, current: Seq<char>)
    requires
        version.len() > 0 ==> version[0] != 'v',
    ensures
        newer(version, current) ==> offered(Some("v"@ + version), current) == Some(version)
            && offered(Some(version), current) == Some(version),
        !newer(version, current) ==> offered(Some("v"@ + version), current) is None && offered(
            Some(version),
            current,
        ) is None,
        offered(None, current) is None,
{
    reveal_strlit("v");
    let tag = "v"@ + version;
    assert(tag.subrange(1, tag.len() as int) =~= version);
}

} // verus!
