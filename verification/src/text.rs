//! Character-level text handling shared by the command-line helpers:
//! Unicode whitespace, trimming, ASCII case and substring search, all stated
//! over the `Seq<char>` view of strings.

use vstd::prelude::*;

verus! {

/// Unicode `White_Space`, the set that `char::is_whitespace` tests.
pub open spec fn is_white(c: char) -> bool {
    ||| c == '\t' || c == '\n' || c == '\u{0B}' || c == '\u{0C}' || c == '\r' || c == ' '
    ||| c == '\u{85}' || c == '\u{A0}' || c == '\u{1680}'
    ||| ('\u{2000}' <= c && c <= '\u{200A}')
    ||| c == '\u{2028}' || c == '\u{2029}' || c == '\u{202F}' || c == '\u{205F}'
    ||| c == '\u{3000}'
}

/// Which characters a trim removes.
#[derive(Clone, Copy)]
pub enum CharClass {
    Whitespace,
    Exactly(char),
}

impl CharClass {
    pub open spec fn holds(self, c: char) -> bool {
        match self {
            CharClass::Whitespace => is_white(c),
            CharClass::Exactly(x) => c == x,
        }
    }

    pub fn test(&self, c: char) -> (b: bool)
        ensures
            b == self.holds(c),
    {
        match self {
            CharClass::Whitespace => is_whitespace(c),
            CharClass::Exactly(x) => c == *x,
        }
    }
}

/// `s` without its longest prefix of characters of class `k`.
pub open spec fn trim_start_spec(s: Seq<char>, k: CharClass) -> Seq<char>
    decreases s.len(),
{
    if s.len() > 0 && k.holds(s[0]) {
        trim_start_spec(s.drop_first(), k)
    } else {
        s
    }
}

/// `s` without its longest suffix of characters of class `k`.
pub open spec fn trim_end_spec(s: Seq<char>, k: CharClass) -> Seq<char>
    decreases s.len(),
{
    if s.len() > 0 && k.holds(s.last()) {
        trim_end_spec(s.drop_last(), k)
    } else {
        s
    }
}

/// `s` without leading and trailing characters of class `k` (`str::trim`
/// for whitespace, `str::trim_matches` for a single character).
pub open spec fn trim_spec(s: Seq<char>, k: CharClass) -> Seq<char> {
    trim_end_spec(trim_start_spec(s, k), k)
}

/// ASCII upper case of one character; every other character is kept.
pub open spec fn upper_char(c: char) -> char {
    if 'a' <= c && c <= 'z' {
        ((c as int) - 32) as char
    } else {
        c
    }
}

pub open spec fn to_upper_spec(s: Seq<char>) -> Seq<char> {
    s.map_values(|c: char| upper_char(c))
}

/// `needle` occurs in `hay` as a contiguous run.
pub open spec fn contains_spec(hay: Seq<char>, needle: Seq<char>) -> bool {
    exists|i: int|
        0 <= i && i + needle.len() <= hay.len() && #[trigger] hay.subrange(i, i + needle.len())
            == needle
}

/// Whether `c` is Unicode whitespace.
pub fn is_whitespace(c: char) -> (b: bool)
    ensures
        b == is_white(c),
{
    c == '\t' || c == '\n' || c == '\u{0B}' || c == '\u{0C}' || c == '\r' || c == ' ' || c
        == '\u{85}' || c == '\u{A0}' || c == '\u{1680}' || ('\u{2000}' <= c && c <= '\u{200A}')
        || c == '\u{2028}' || c == '\u{2029}' || c == '\u{202F}' || c == '\u{205F}' || c
        == '\u{3000}'
}

/// `String::push`: appends `c` to `s`. Trusted: the contract restates the
/// documented behaviour of the standard library call.
#[verifier::external_body]
pub(crate) fn push_char(s: &mut String, c: char)
    ensures
        final(s)@ == old(s)@.push(c),
{
    s.push(c);
}

/// The characters of `s`, in order.
pub fn chars_of(s: &str) -> (v: Vec<char>)
    ensures
        v@ == s@,
{
    let mut v: Vec<char> = Vec::new();
    for c in it: s.chars()
        invariant
            v@ == it.seq().take(it.index() as int),
    {
        v.push(c);
    }
    v
}

/// The string made of `v[lo..hi]`.
pub fn string_from(v: &Vec<char>, lo: usize, hi: usize) -> (s: String)
    requires
        lo <= hi <= v.len(),
    ensures
        s@ == v@.subrange(lo as int, hi as int),
{
    let mut s = String::new();
    let mut i = lo;
    while i < hi
        invariant
            lo <= i <= hi <= v.len(),
            s@ == v@.subrange(lo as int, i as int),
        decreases hi - i,
    {
        push_char(&mut s, v[i]);
        assert(v@.subrange(lo as int, i + 1) =~= v@.subrange(lo as int, i as int).push(v@[i as int]));
        i += 1;
    }
    s
}

/// Moves `lo` past the characters of class `k` that start `v[lo..hi]`.
pub fn trim_start_range(v: &Vec<char>, lo: usize, hi: usize, k: CharClass) -> (r: usize)
    requires
        lo <= hi <= v.len(),
    ensures
        lo <= r <= hi,
        v@.subrange(r as int, hi as int) == trim_start_spec(v@.subrange(lo as int, hi as int), k),
{
    let mut i = lo;
    while i < hi && k.test(v[i])
        invariant
            lo <= i <= hi <= v.len(),
            trim_start_spec(v@.subrange(i as int, hi as int), k) == trim_start_spec(
                v@.subrange(lo as int, hi as int),
                k,
            ),
        decreases hi - i,
    {
        assert(v@.subrange(i as int, hi as int).drop_first() =~= v@.subrange(i + 1, hi as int));
        i += 1;
    }
    i
}

/// Moves `hi` before the characters of class `k` that end `v[lo..hi]`.
pub fn trim_end_range(v: &Vec<char>, lo: usize, hi: usize, k: CharClass) -> (r: usize)
    requires
        lo <= hi <= v.len(),
    ensures
        lo <= r <= hi,
        v@.subrange(lo as int, r as int) == trim_end_spec(v@.subrange(lo as int, hi as int), k),
{
    let mut j = hi;
    while j > lo && k.test(v[j - 1])
        invariant
            lo <= j <= hi <= v.len(),
            trim_end_spec(v@.subrange(lo as int, j as int), k) == trim_end_spec(
                v@.subrange(lo as int, hi as int),
                k,
            ),
        decreases j - lo,
    {
        assert(v@.subrange(lo as int, j as int).drop_last() =~= v@.subrange(lo as int, j - 1));
        j -= 1;
    }
    j
}

/// The bounds of `v[lo..hi]` trimmed at both ends by class `k`.
pub fn trim_range(v: &Vec<char>, lo: usize, hi: usize, k: CharClass) -> (r: (usize, usize))
    requires
        lo <= hi <= v.len(),
    ensures
        lo <= r.0 <= r.1 <= hi,
        v@.subrange(r.0 as int, r.1 as int) == trim_spec(v@.subrange(lo as int, hi as int), k),
{
    let a = trim_start_range(v, lo, hi, k);
    let b = trim_end_range(v, a, hi, k);
    (a, b)
}

/// ASCII upper case of `s` (`str::to_ascii_uppercase`).
pub fn to_ascii_upper(s: &str) -> (r: String)
    ensures
        r@ == to_upper_spec(s@),
{
    let v = chars_of(s);
    let mut r = String::new();
    let mut i: usize = 0;
    while i < v.len()
        invariant
            i <= v.len(),
            v@ == s@,
            r@ == to_upper_spec(v@.take(i as int)),
        decreases v.len() - i,
    {
        let c = v[i];
        let u = if 'a' <= c && c <= 'z' {
            ((c as u8) - 32) as char
        } else {
            c
        };
        assert(u == upper_char(c));
        push_char(&mut r, u);
        assert(to_upper_spec(v@.take(i + 1)) =~= to_upper_spec(v@.take(i as int)).push(
            upper_char(c),
        ));
        i += 1;
    }
    assert(v@.take(v.len() as int) =~= v@);
    r
}

/// Whether `needle` occurs in `hay` (`str::contains`).
pub fn contains(hay: &str, needle: &str) -> (b: bool)
    ensures
        b == contains_spec(hay@, needle@),
{
    let h = chars_of(hay);
    let n = chars_of(needle);
    if n.len() > h.len() {
        return false;
    }
    let mut i: usize = 0;
    while i <= h.len() - n.len()
        invariant
            h@ == hay@,
            n@ == needle@,
            n.len() <= h.len(),
            i <= h.len() - n.len() + 1,
            forall|k: int|
                0 <= k < i ==> #[trigger] h@.subrange(k, k + n.len()) != n@,
        decreases h.len() - i,
    {
        let mut j: usize = 0;
        while j < n.len() && h[i + j] == n[j]
            invariant
                i + n.len() <= h.len(),
                j <= n.len(),
                forall|m: int| 0 <= m < j ==> h@[i + m] == n@[m],
            decreases n.len() - j,
        {
            j += 1;
        }
        if j == n.len() {
            assert(h@.subrange(i as int, i + n.len()) =~= n@);
            return true;
        }
        assert(h@.subrange(i as int, i + n.len())[j as int] != n@[j as int]);
        i += 1;
    }
    false
}


/// `s` without leading and trailing whitespace (`str::trim`).
pub fn trim(s: &str) -> (r: String)
    ensures
        r@ == trim_spec(s@, CharClass::Whitespace),
{
    let v = chars_of(s);
    let (a, b) = trim_range(&v, 0, v.len(), CharClass::Whitespace);
    assert(v@.subrange(0, v.len() as int) =~= s@);
    string_from(&v, a, b)
}


/// Among ASCII characters, whitespace is exactly the space and the controls
/// tab, line feed, vertical tab, form feed and carriage return.
pub proof fn lemma_ascii_whitespace(c: char)
    ensures
        (c as int) < 128 ==> (is_white(c) <==> (c == ' ' || ('\t' <= c && c <= '\r'))),
{
}

proof fn lemma_trim_start_cut(s: Seq<char>, k: CharClass) -> (a: int)
    ensures
        0 <= a <= s.len(),
        trim_start_spec(s, k) == s.subrange(a, s.len() as int),
        forall|i: int| 0 <= i < a ==> k.holds(#[trigger] s[i]),
        a < s.len() ==> !k.holds(s[a]),
    decreases s.len(),
{
    if s.len() > 0 && k.holds(s[0]) {
        let a1 = lemma_trim_start_cut(s.drop_first(), k);
        assert(s.drop_first().subrange(a1, s.drop_first().len() as int) =~= s.subrange(
            a1 + 1,
            s.len() as int,
        ));
        assert forall|i: int| 0 <= i < a1 + 1 implies k.holds(#[trigger] s[i]) by {
            if i > 0 {
                assert(s[i] == s.drop_first()[i - 1]);
            }
        }
        if a1 + 1 < s.len() {
            assert(s[a1 + 1] == s.drop_first()[a1]);
        }
        a1 + 1
    } else {
        assert(s.subrange(0, s.len() as int) =~= s);
        0
    }
}

proof fn lemma_trim_end_cut(s: Seq<char>, k: CharClass) -> (b: int)
    ensures
        0 <= b <= s.len(),
        trim_end_spec(s, k) == s.subrange(0, b),
        forall|i: int| b <= i < s.len() ==> k.holds(#[trigger] s[i]),
        b > 0 ==> !k.holds(s[b - 1]),
    decreases s.len(),
{
    if s.len() > 0 && k.holds(s.last()) {
        let b1 = lemma_trim_end_cut(s.drop_last(), k);
        assert(s.drop_last().subrange(0, b1) =~= s.subrange(0, b1));
        assert forall|i: int| b1 <= i < s.len() implies k.holds(#[trigger] s[i]) by {
            if i < s.len() - 1 {
                assert(s[i] == s.drop_last()[i]);
            }
        }
        if b1 > 0 {
            assert(s[b1 - 1] == s.drop_last()[b1 - 1]);
        }
        b1
    } else {
        assert(s.subrange(0, s.len() as int) =~= s);
        s.len() as int
    }
}

/// Trimming cuts only characters of the class, and only at the ends: the
/// result is the part of `s` between a prefix and a suffix made of such
/// characters, and it neither starts nor ends with one.
pub proof fn lemma_trim_cuts_only_ends(s: Seq<char>, k: CharClass)
    ensures
        exists|a: int, b: int|
            #![trigger s.subrange(a, b)]
            0 <= a <= b <= s.len() && trim_spec(s, k) == s.subrange(a, b) && (forall|i: int|
                0 <= i < a ==> k.holds(#[trigger] s[i])) && (forall|i: int|
                b <= i < s.len() ==> k.holds(#[trigger] s[i])),
        trim_spec(s, k).len() > 0 ==> !k.holds(trim_spec(s, k)[0]) && !k.holds(
            trim_spec(s, k).last(),
        ),
{
    let a = lemma_trim_start_cut(s, k);
    let t = trim_start_spec(s, k);
    let b1 = lemma_trim_end_cut(t, k);
    let b = a + b1;
    assert(t.subrange(0, b1) =~= s.subrange(a, b));
    assert forall|i: int| b <= i < s.len() implies k.holds(#[trigger] s[i]) by {
        assert(s[i] == t[i - a]);
    }
    if b1 > 0 {
        assert(trim_spec(s, k)[0] == s[a]);
    }
}

/// ASCII upper case keeps the length, turns each lower-case letter into its
/// capital, leaves every other character as it is, and changes nothing a
/// second time.
pub proof fn lemma_upper_case(s: Seq<char>)
    ensures
        to_upper_spec(s).len() == s.len(),
        forall|i: int|
            0 <= i < s.len() ==> (#[trigger] to_upper_spec(s)[i] as int) == (if 'a' <= s[i]
                && s[i] <= 'z' {
                (s[i] as int) - 32
            } else {
                s[i] as int
            }),
        to_upper_spec(to_upper_spec(s)) == to_upper_spec(s),
{
    assert forall|i: int| 0 <= i < s.len() implies upper_char(upper_char(#[trigger] s[i]))
        == upper_char(s[i]) by {
        let c = s[i];
        if 'a' <= c && c <= 'z' {
            let u = ((c as int) - 32) as char;
            assert(u as int == (c as int) - 32);
        }
    }
    assert forall|i: int| 0 <= i < s.len() implies (#[trigger] to_upper_spec(s)[i] as int) == (
    if 'a' <= s[i] && s[i] <= 'z' {
        (s[i] as int) - 32
    } else {
        s[i] as int
    }) by {
        let c = s[i];
        if 'a' <= c && c <= 'z' {
            assert((((c as int) - 32) as char) as int == (c as int) - 32);
        }
    }
    assert(to_upper_spec(to_upper_spec(s)) =~= to_upper_spec(s));
}

/// A string contains every piece it is made of, and the empty string.
pub proof fn lemma_contains_parts(a: Seq<char>, n: Seq<char>, b: Seq<char>)
    ensures
        contains_spec(a + n + b, n),
        contains_spec(a, Seq::<char>::empty()),
{
    let h = a + n + b;
    assert(h.subrange(a.len() as int, (a.len() + n.len()) as int) =~= n);
    let e = Seq::<char>::empty();
    assert(a.subrange(0int, 0int + e.len()) =~= e);
}
} // verus!
