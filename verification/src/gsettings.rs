//! The gsettings notation for string arrays, `['a', 'b']` (or `@as []`
//! when empty): reading it the way the installer does, writing it, and the
//! proof that what is written reads back unchanged.

use vstd::prelude::*;

use crate::command::seq_views;
use crate::text::{
    chars_of, string_from, trim_end_range, trim_range, trim_spec, trim_start_range,
    trim_start_spec, trim_end_spec, CharClass, push_char,
};

verus! {

/// `s` without every leading repetition of `@as`, the type annotation that
/// gsettings prints in front of an empty array.
pub open spec fn strip_as_spec(s: Seq<char>) -> Seq<char>
    decreases s.len(),
{
    if s.len() >= 3 && s[0] == '@' && s[1] == 'a' && s[2] == 's' {
        strip_as_spec(s.skip(3))
    } else {
        s
    }
}

/// What lies between the brackets of a printed string array.
pub open spec fn list_body_spec(raw: Seq<char>) -> Seq<char> {
    let ws = CharClass::Whitespace;
    let s = trim_spec(strip_as_spec(trim_spec(raw, ws)), ws);
    trim_end_spec(trim_start_spec(s, CharClass::Exactly('[')), CharClass::Exactly(']'))
}

/// `s` cut at every `sep` (`str::split` with a character): one piece more
/// than there are separators.
pub open spec fn split_spec(s: Seq<char>, sep: char) -> Seq<Seq<char>>
    decreases s.len(),
{
    if s.len() == 0 {
        seq![Seq::<char>::empty()]
    } else {
        let r = split_spec(s.drop_last(), sep);
        if s.last() == sep {
            r.push(Seq::<char>::empty())
        } else {
            r.update(r.len() - 1, r.last().push(s.last()))
        }
    }
}

/// One array element with surrounding blanks and quotes taken off.
pub open spec fn clean_item_spec(p: Seq<char>) -> Seq<char> {
    trim_spec(
        trim_spec(trim_spec(p, CharClass::Whitespace), CharClass::Exactly('\'')),
        CharClass::Exactly('"'),
    )
}

/// The cleaned pieces that are not empty, in order.
pub open spec fn keep_items_spec(ps: Seq<Seq<char>>) -> Seq<Seq<char>>
    decreases ps.len(),
{
    if ps.len() == 0 {
        Seq::empty()
    } else {
        let r = keep_items_spec(ps.drop_last());
        let c = clean_item_spec(ps.last());
        if c.len() > 0 {
            r.push(c)
        } else {
            r
        }
    }
}

/// The strings of a gsettings string array such as `['a', 'b']` or `@as []`.
pub open spec fn parse_string_array_spec(raw: Seq<char>) -> Seq<Seq<char>> {
    keep_items_spec(split_spec(list_body_spec(raw), ','))
}

pub open spec fn quoted_spec(e: Seq<char>) -> Seq<char> {
    seq!['\''] + e + seq!['\'']
}

/// The quoted entries separated by `, `.
pub open spec fn join_spec(es: Seq<Seq<char>>) -> Seq<char>
    decreases es.len(),
{
    if es.len() == 0 {
        Seq::empty()
    } else if es.len() == 1 {
        quoted_spec(es[0])
    } else {
        join_spec(es.drop_last()) + seq![',', ' '] + quoted_spec(es.last())
    }
}

/// A string array in the notation gsettings accepts: `['a', 'b']`.
pub open spec fn format_string_array_spec(es: Seq<Seq<char>>) -> Seq<char> {
    seq!['['] + join_spec(es) + seq![']']
}

proof fn lemma_split_push(s: Seq<char>, c: char, sep: char)
    ensures
        split_spec(s.push(c), sep) == (if c == sep {
            split_spec(s, sep).push(Seq::<char>::empty())
        } else {
            split_spec(s, sep).update(
                split_spec(s, sep).len() - 1,
                split_spec(s, sep).last().push(c),
            )
        }),
{
    assert(s.push(c).drop_last() =~= s);
}

/// Cleans the piece `v[lo..hi]` and appends it to `items` unless it is empty.
fn push_item(v: &Vec<char>, lo: usize, hi: usize, items: &mut Vec<String>)
    requires
        lo <= hi <= v.len(),
    ensures
        seq_views(final(items)@) == (if clean_item_spec(v@.subrange(lo as int, hi as int)).len() > 0 {
            seq_views(old(items)@).push(clean_item_spec(v@.subrange(lo as int, hi as int)))
        } else {
            seq_views(old(items)@)
        }),
{
    let (a, b) = trim_range(v, lo, hi, CharClass::Whitespace);
    let (a, b) = trim_range(v, a, b, CharClass::Exactly('\''));
    let (a, b) = trim_range(v, a, b, CharClass::Exactly('"'));
    if a < b {
        let s = string_from(v, a, b);
        items.push(s);
        assert(seq_views(items@) =~= seq_views(old(items)@).push(s@));
    }
}

/// Moves `lo` past every leading `@as` of `v[lo..hi]`.
fn strip_as_range(v: &Vec<char>, lo: usize, hi: usize) -> (r: usize)
    requires
        lo <= hi <= v.len(),
    ensures
        lo <= r <= hi,
        v@.subrange(r as int, hi as int) == strip_as_spec(v@.subrange(lo as int, hi as int)),
{
    let mut i = lo;
    while hi - i >= 3 && v[i] == '@' && v[i + 1] == 'a' && v[i + 2] == 's'
        invariant
            lo <= i <= hi <= v.len(),
            strip_as_spec(v@.subrange(i as int, hi as int)) == strip_as_spec(
                v@.subrange(lo as int, hi as int),
            ),
        decreases hi - i,
    {
        assert(v@.subrange(i as int, hi as int).skip(3) =~= v@.subrange(i + 3, hi as int));
        i += 3;
    }
    i
}

/// Parse gsettings string-array output like `['a', 'b']` or `@as []`.
pub fn parse_string_array(raw: &str) -> (items: Vec<String>)
    ensures
        seq_views(items@) == parse_string_array_spec(raw@),
{
    let v = chars_of(raw);
    let ws = CharClass::Whitespace;
    let (a, b) = trim_range(&v, 0, v.len(), ws);
    let a = strip_as_range(&v, a, b);
    let (a, b) = trim_range(&v, a, b, ws);
    let a = trim_start_range(&v, a, b, CharClass::Exactly('['));
    let b = trim_end_range(&v, a, b, CharClass::Exactly(']'));
    assert(v@.subrange(0, v.len() as int) =~= raw@);
    assert(v@.subrange(a as int, b as int) == list_body_spec(raw@));

    let mut items: Vec<String> = Vec::new();
    let ghost mut pieces: Seq<Seq<char>> = Seq::empty();
    let mut start = a;
    let mut i = a;
    assert(v@.subrange(a as int, a as int) =~= Seq::<char>::empty());
    assert(seq_views(items@) =~= Seq::<Seq<char>>::empty());
    while i < b
        invariant
            a <= start <= i <= b <= v.len(),
            split_spec(v@.subrange(a as int, i as int), ',') == pieces.push(
                v@.subrange(start as int, i as int),
            ),
            seq_views(items@) == keep_items_spec(pieces),
        decreases b - i,
    {
        let c = v[i];
        proof {
            lemma_split_push(v@.subrange(a as int, i as int), c, ',');
            assert(v@.subrange(a as int, i + 1) =~= v@.subrange(a as int, i as int).push(c));
        }
        if c == ',' {
            push_item(&v, start, i, &mut items);
            proof {
                let piece = v@.subrange(start as int, i as int);
                assert(pieces.push(piece).drop_last() =~= pieces);
                pieces = pieces.push(piece);
                assert(v@.subrange(i + 1, i + 1) =~= Seq::<char>::empty());
            }
            start = i + 1;
        } else {
            proof {
                assert(v@.subrange(start as int, i + 1) =~= v@.subrange(start as int, i as int).push(c));
            }
        }
        i += 1;
    }
    push_item(&v, start, b, &mut items);
    proof {
        let piece = v@.subrange(start as int, b as int);
        assert(pieces.push(piece).drop_last() =~= pieces);
    }
    items
}

/// `es` with `p` appended unless it is already there.
pub open spec fn with_entry_spec(es: Seq<Seq<char>>, p: Seq<char>) -> Seq<Seq<char>> {
    if es.contains(p) {
        es
    } else {
        es.push(p)
    }
}

/// An entry that survives a trip through the array notation: not empty, no
/// comma, and no quote at either end.
pub open spec fn plain_entry(e: Seq<char>) -> bool {
    &&& e.len() > 0
    &&& !e.contains(',')
    &&& e[0] != '\'' && e[0] != '"'
    &&& e.last() != '\'' && e.last() != '"'
}

/// Format entries as a gsettings string array: `['a', 'b']`.
pub fn format_string_array(entries: &Vec<String>) -> (s: String)
    ensures
        s@ == format_string_array_spec(seq_views(entries@)),
{
    let ghost es = seq_views(entries@);
    let mut s = String::new();
    push_char(&mut s, '[');
    let mut i: usize = 0;
    assert(es.take(0) =~= Seq::<Seq<char>>::empty());
    assert(s@ =~= seq!['['] + join_spec(es.take(0)));
    while i < entries.len()
        invariant
            i <= entries.len(),
            es == seq_views(entries@),
            s@ == seq!['['] + join_spec(es.take(i as int)),
        decreases entries.len() - i,
    {
        let ghost before = s@;
        if i > 0 {
            push_char(&mut s, ',');
            push_char(&mut s, ' ');
        }
        push_char(&mut s, '\'');
        let e: &str = entries[i].as_str();
        let ec = chars_of(e);
        let mut j: usize = 0;
        let ghost mid = s@;
        while j < ec.len()
            invariant
                j <= ec.len(),
                s@ == mid + ec@.take(j as int),
            decreases ec.len() - j,
        {
            push_char(&mut s, ec[j]);
            assert(ec@.take(j + 1) =~= ec@.take(j as int).push(ec@[j as int]));
            j += 1;
        }
        push_char(&mut s, '\'');
        proof {
            assert(ec@.take(ec.len() as int) =~= es[i as int]);
            assert(es.take(i + 1).drop_last() =~= es.take(i as int));
            if i == 0 {
                assert(s@ =~= seq!['['] + join_spec(es.take(1)));
            } else {
                assert(s@ =~= seq!['['] + join_spec(es.take(i + 1)));
            }
        }
        i += 1;
    }
    push_char(&mut s, ']');
    assert(es.take(entries.len() as int) =~= es);
    s
}

/// Appends `p` to `entries` unless it is already there.
pub fn add_entry(entries: &mut Vec<String>, p: &str)
    ensures
        seq_views(final(entries)@) == with_entry_spec(seq_views(old(entries)@), p@),
{
    let ghost es = seq_views(entries@);
    let ps = p.to_owned();
    let mut i: usize = 0;
    while i < entries.len()
        invariant
            i <= entries.len(),
            entries@ == old(entries)@,
            es == seq_views(entries@),
            ps@ == p@,
            forall|k: int| 0 <= k < i ==> es[k] != p@,
        decreases entries.len() - i,
    {
        if entries[i] == ps {
            assert(es[i as int] == p@);
            assert(es.contains(p@));
            return;
        }
        i += 1;
    }
    assert(!es.contains(p@));
    entries.push(ps);
    assert(seq_views(entries@) =~= es.push(p@));
}

proof fn lemma_split_no_sep(y: Seq<char>, sep: char)
    requires
        !y.contains(sep),
    ensures
        split_spec(y, sep) == seq![y],
    decreases y.len(),
{
    if y.len() > 0 {
        assert(!y.drop_last().contains(sep)) by {
            if y.drop_last().contains(sep) {
                let k = choose|k: int| 0 <= k < y.drop_last().len() && y.drop_last()[k] == sep;
                assert(y[k] == sep);
            }
        }
        lemma_split_no_sep(y.drop_last(), sep);
        assert(y[y.len() - 1] != sep);
        assert(y.drop_last().push(y.last()) =~= y);
    } else {
        assert(y =~= Seq::<char>::empty());
    }
}

proof fn lemma_split_append(x: Seq<char>, y: Seq<char>, sep: char)
    requires
        !y.contains(sep),
    ensures
        split_spec(x + seq![sep] + y, sep) == split_spec(x, sep).push(y),
    decreases y.len(),
{
    let z = x + seq![sep] + y;
    if y.len() == 0 {
        assert(z.drop_last() =~= x);
        assert(y =~= Seq::<char>::empty());
    } else {
        assert(!y.drop_last().contains(sep)) by {
            if y.drop_last().contains(sep) {
                let k = choose|k: int| 0 <= k < y.drop_last().len() && y.drop_last()[k] == sep;
                assert(y[k] == sep);
            }
        }
        lemma_split_append(x, y.drop_last(), sep);
        assert(z.drop_last() =~= x + seq![sep] + y.drop_last());
        assert(y[y.len() - 1] != sep);
        assert(y.drop_last().push(y.last()) =~= y);
        assert(split_spec(x, sep).push(y.drop_last()).update(
            split_spec(x, sep).len() as int,
            y,
        ) =~= split_spec(x, sep).push(y));
    }
}

/// The pieces that cutting a formatted array body at its commas yields.
pub open spec fn pieces_spec(es: Seq<Seq<char>>) -> Seq<Seq<char>>
    decreases es.len(),
{
    if es.len() == 0 {
        Seq::empty()
    } else if es.len() == 1 {
        seq![quoted_spec(es[0])]
    } else {
        pieces_spec(es.drop_last()).push(seq![' '] + quoted_spec(es.last()))
    }
}

proof fn lemma_quoted_no_comma(e: Seq<char>)
    requires
        plain_entry(e),
    ensures
        !quoted_spec(e).contains(','),
        !(seq![' '] + quoted_spec(e)).contains(','),
{
    let q = quoted_spec(e);
    if q.contains(',') {
        let k = choose|k: int| 0 <= k < q.len() && q[k] == ',';
        assert(e[k - 1] == ',');
    }
    let r = seq![' '] + q;
    if r.contains(',') {
        let k = choose|k: int| 0 <= k < r.len() && r[k] == ',';
        assert(q[k - 1] == ',');
    }
}

proof fn lemma_split_join(es: Seq<Seq<char>>)
    requires
        es.len() > 0,
        forall|i: int| 0 <= i < es.len() ==> plain_entry(#[trigger] es[i]),
    ensures
        split_spec(join_spec(es), ',') == pieces_spec(es),
    decreases es.len(),
{
    if es.len() == 1 {
        lemma_quoted_no_comma(es[0]);
        lemma_split_no_sep(quoted_spec(es[0]), ',');
    } else {
        let ep = es.drop_last();
        assert forall|i: int| 0 <= i < ep.len() implies plain_entry(#[trigger] ep[i]) by {
            assert(ep[i] == es[i]);
        }
        lemma_split_join(ep);
        let y = seq![' '] + quoted_spec(es.last());
        assert(plain_entry(es[es.len() - 1]));
        lemma_quoted_no_comma(es.last());
        lemma_split_append(join_spec(ep), y, ',');
        assert(join_spec(es) =~= join_spec(ep) + seq![','] + y);
    }
}

proof fn lemma_clean_quoted(e: Seq<char>)
    requires
        plain_entry(e),
    ensures
        clean_item_spec(quoted_spec(e)) == e,
        clean_item_spec(seq![' '] + quoted_spec(e)) == e,
{
    let q = quoted_spec(e);
    let ws = CharClass::Whitespace;
    let sq = CharClass::Exactly('\'');
    let dq = CharClass::Exactly('"');
    assert(trim_start_spec(q, ws) == q);
    assert(trim_end_spec(q, ws) == q);
    assert((seq![' '] + q).drop_first() =~= q);
    assert(trim_start_spec(seq![' '] + q, ws) == q);
    assert(q.drop_first() =~= e + seq!['\'']);
    assert((e + seq!['\''])[0] == e[0]);
    assert(trim_start_spec(e + seq!['\''], sq) == e + seq!['\'']);
    assert(trim_start_spec(q, sq) == e + seq!['\'']);
    assert((e + seq!['\'']).drop_last() =~= e);
    assert(e[e.len() - 1] == e.last());
    assert(trim_end_spec(e, sq) == e);
    assert(trim_end_spec(e + seq!['\''], sq) == e);
    assert(trim_start_spec(e, dq) == e);
    assert(trim_end_spec(e, dq) == e);
}

proof fn lemma_keep_pieces(es: Seq<Seq<char>>)
    requires
        forall|i: int| 0 <= i < es.len() ==> plain_entry(#[trigger] es[i]),
    ensures
        keep_items_spec(pieces_spec(es)) == es,
    decreases es.len(),
{
    if es.len() == 0 {
        assert(es =~= Seq::<Seq<char>>::empty());
    } else if es.len() == 1 {
        assert(plain_entry(es[0]));
        lemma_clean_quoted(es[0]);
        let ps = pieces_spec(es);
        assert(ps.drop_last() =~= Seq::<Seq<char>>::empty());
        assert(keep_items_spec(ps.drop_last()) == Seq::<Seq<char>>::empty());
        assert(ps.last() == quoted_spec(es[0]));
        assert(keep_items_spec(ps) == seq![es[0]]);
        assert(es =~= seq![es[0]]);
    } else {
        let ep = es.drop_last();
        assert forall|i: int| 0 <= i < ep.len() implies plain_entry(#[trigger] ep[i]) by {
            assert(ep[i] == es[i]);
        }
        lemma_keep_pieces(ep);
        assert(plain_entry(es[es.len() - 1]));
        lemma_clean_quoted(es.last());
        let ps = pieces_spec(es);
        assert(ps == pieces_spec(ep).push(seq![' '] + quoted_spec(es.last())));
        assert(ps.drop_last() =~= pieces_spec(ep));
        assert(ps.last() == seq![' '] + quoted_spec(es.last()));
        assert(keep_items_spec(ps) == ep.push(es.last()));
        assert(ep.push(es.last()) =~= es);
    }
}

proof fn lemma_join_ends(es: Seq<Seq<char>>)
    requires
        es.len() > 0,
    ensures
        join_spec(es).len() >= 2,
        join_spec(es)[0] == '\'',
        join_spec(es).last() == '\'',
    decreases es.len(),
{
    if es.len() > 1 {
        lemma_join_ends(es.drop_last());
    }
}

proof fn lemma_body_of_format(es: Seq<Seq<char>>)
    ensures
        list_body_spec(format_string_array_spec(es)) == join_spec(es),
{
    let f = format_string_array_spec(es);
    let j = join_spec(es);
    let ws = CharClass::Whitespace;
    assert(f[0] == '[');
    assert(f.last() == ']');
    assert(trim_start_spec(f, ws) == f);
    assert(trim_end_spec(f, ws) == f);
    assert(strip_as_spec(f) == f);
    assert(f.drop_first() =~= j + seq![']']);
    assert((j + seq![']']).drop_last() =~= j);
    if es.len() == 0 {
        assert(j =~= Seq::<char>::empty());
        assert((j + seq![']'])[0] == ']');
        assert(trim_start_spec(j + seq![']'], CharClass::Exactly('[')) == j + seq![']']);
        assert(trim_end_spec(j, CharClass::Exactly(']')) == j);
    } else {
        lemma_join_ends(es);
        assert((j + seq![']'])[0] == j[0]);
        assert(trim_start_spec(j + seq![']'], CharClass::Exactly('[')) == j + seq![']']);
        assert(j[j.len() - 1] == j.last());
        assert(trim_end_spec(j, CharClass::Exactly(']')) == j);
    }
}

/// Reading back a formatted string array gives the entries that were
/// formatted, for entries that the notation can carry.
pub proof fn lemma_parse_format_round_trip(es: Seq<Seq<char>>)
    requires
        forall|i: int| 0 <= i < es.len() ==> plain_entry(#[trigger] es[i]),
    ensures
        parse_string_array_spec(format_string_array_spec(es)) == es,
{
    lemma_body_of_format(es);
    if es.len() == 0 {
        assert(join_spec(es) =~= Seq::<char>::empty());
        let ps = split_spec(Seq::<char>::empty(), ',');
        assert(ps == seq![Seq::<char>::empty()]);
        assert(ps.drop_last() =~= Seq::<Seq<char>>::empty());
        assert(keep_items_spec(ps.drop_last()) == Seq::<Seq<char>>::empty());
        assert(clean_item_spec(Seq::<char>::empty()) =~= Seq::<char>::empty());
        assert(keep_items_spec(ps) == Seq::<Seq<char>>::empty());
        assert(es =~= Seq::<Seq<char>>::empty());
    } else {
        lemma_split_join(es);
        lemma_keep_pieces(es);
    }
}

proof fn lemma_split_pieces_lack_sep(s: Seq<char>, sep: char)
    ensures
        forall|i: int|
            0 <= i < split_spec(s, sep).len() ==> !(#[trigger] split_spec(s, sep)[i]).contains(sep),
        split_spec(s, sep).len() >= 1,
    decreases s.len(),
{
    if s.len() > 0 {
        let r = split_spec(s.drop_last(), sep);
        lemma_split_pieces_lack_sep(s.drop_last(), sep);
        let t = split_spec(s, sep);
        if s.last() != sep {
            assert forall|i: int| 0 <= i < t.len() implies !(#[trigger] t[i]).contains(sep) by {
                if i == r.len() - 1 {
                    let piece = r.last().push(s.last());
                    assert(t[i] == piece);
                    if piece.contains(sep) {
                        let k = choose|k: int| 0 <= k < piece.len() && piece[k] == sep;
                        if k < r.last().len() {
                            assert(r[r.len() - 1][k] == sep);
                            assert(r[r.len() - 1].contains(sep));
                        }
                    }
                } else {
                    assert(t[i] == r[i]);
                }
            }
        } else {
            assert forall|i: int| 0 <= i < t.len() implies !(#[trigger] t[i]).contains(sep) by {
                if i < r.len() {
                    assert(t[i] == r[i]);
                } else {
                    assert(t[i] =~= Seq::<char>::empty());
                }
            }
        }
    }
}

proof fn lemma_trim_within(s: Seq<char>, k: CharClass)
    ensures
        forall|c: char| trim_spec(s, k).contains(c) ==> s.contains(c),
    decreases s.len(),
{
    lemma_trim_start_within(s, k);
    lemma_trim_end_within(trim_start_spec(s, k), k);
}

proof fn lemma_trim_start_within(s: Seq<char>, k: CharClass)
    ensures
        forall|c: char| trim_start_spec(s, k).contains(c) ==> s.contains(c),
    decreases s.len(),
{
    if s.len() > 0 && k.holds(s[0]) {
        lemma_trim_start_within(s.drop_first(), k);
        assert forall|c: char| s.drop_first().contains(c) implies s.contains(c) by {
            let i = choose|i: int| 0 <= i < s.drop_first().len() && s.drop_first()[i] == c;
            assert(s[i + 1] == c);
        }
    }
}

proof fn lemma_trim_end_within(s: Seq<char>, k: CharClass)
    ensures
        forall|c: char| trim_end_spec(s, k).contains(c) ==> s.contains(c),
    decreases s.len(),
{
    if s.len() > 0 && k.holds(s.last()) {
        lemma_trim_end_within(s.drop_last(), k);
        assert forall|c: char| s.drop_last().contains(c) implies s.contains(c) by {
            let i = choose|i: int| 0 <= i < s.drop_last().len() && s.drop_last()[i] == c;
            assert(s[i] == c);
        }
    }
}

proof fn lemma_keep_items_clean(ps: Seq<Seq<char>>)
    requires
        forall|i: int| 0 <= i < ps.len() ==> !(#[trigger] ps[i]).contains(','),
    ensures
        forall|i: int|
            0 <= i < keep_items_spec(ps).len() ==> (#[trigger] keep_items_spec(ps)[i]).len() > 0
                && !keep_items_spec(ps)[i].contains(','),
    decreases ps.len(),
{
    if ps.len() > 0 {
        let pd = ps.drop_last();
        assert forall|i: int| 0 <= i < pd.len() implies !(#[trigger] pd[i]).contains(',') by {
            assert(pd[i] == ps[i]);
        }
        lemma_keep_items_clean(pd);
        let p = ps.last();
        assert(!ps[ps.len() - 1].contains(','));
        let a = trim_spec(p, CharClass::Whitespace);
        let b = trim_spec(a, CharClass::Exactly('\''));
        lemma_trim_within(p, CharClass::Whitespace);
        lemma_trim_within(a, CharClass::Exactly('\''));
        lemma_trim_within(b, CharClass::Exactly('"'));
        let c = clean_item_spec(p);
        assert(!c.contains(','));
        let r = keep_items_spec(pd);
        let kp = keep_items_spec(ps);
        assert forall|i: int| 0 <= i < kp.len() implies (#[trigger] kp[i]).len() > 0 && !kp[i].contains(',') by {
            if i < r.len() {
                assert(kp[i] == r[i]);
            } else {
                assert(kp[i] == c);
            }
        }
    }
}

/// Every string the parser returns is non-empty and holds no comma.
pub proof fn lemma_parsed_items_nonempty(raw: Seq<char>)
    ensures
        forall|i: int|
            0 <= i < parse_string_array_spec(raw).len() ==> (#[trigger] parse_string_array_spec(
                raw,
            )[i]).len() > 0 && !parse_string_array_spec(raw)[i].contains(','),
{
    lemma_split_pieces_lack_sep(list_body_spec(raw), ',');
    lemma_keep_items_clean(split_spec(list_body_spec(raw), ','));
}

/// An item reads as its text whether it is quoted with `'` or `"` and
/// padded with blanks.
pub proof fn lemma_item_quotes(e: Seq<char>)
    requires
        plain_entry(e),
    ensures
        clean_item_spec(seq![' '] + quoted_spec(e) + seq![' ']) == e,
        clean_item_spec(seq![' ', '"'] + e + seq!['"', ' ']) == e,
{
    let ws = CharClass::Whitespace;
    let sq = CharClass::Exactly('\'');
    let dq = CharClass::Exactly('"');
    let q = quoted_spec(e);
    let p = seq![' '] + q + seq![' '];
    assert(p.drop_first() =~= q + seq![' ']);
    assert((q + seq![' '])[0] == '\'');
    assert(p[0] == ' ');
    assert(trim_start_spec(p, ws) == trim_start_spec(p.drop_first(), ws));
    assert(trim_start_spec(q + seq![' '], ws) == q + seq![' ']);
    assert(trim_start_spec(p, ws) == q + seq![' ']);
    assert((q + seq![' ']).drop_last() =~= q);
    assert(q.last() == '\'');
    assert((q + seq![' ']).last() == ' ');
    assert(trim_end_spec(q + seq![' '], ws) == trim_end_spec(q, ws));
    assert(trim_end_spec(q, ws) == q);
    assert(trim_end_spec(q + seq![' '], ws) == q);
    assert(trim_spec(p, ws) == q);
    lemma_clean_quoted(e);
    let d = seq!['"'] + e + seq!['"'];
    let pd = seq![' ', '"'] + e + seq!['"', ' '];
    assert(pd.drop_first() =~= d + seq![' ']);
    assert((d + seq![' '])[0] == '"');
    assert(pd[0] == ' ');
    assert(trim_start_spec(pd, ws) == trim_start_spec(pd.drop_first(), ws));
    assert(trim_start_spec(d + seq![' '], ws) == d + seq![' ']);
    assert(trim_start_spec(pd, ws) == d + seq![' ']);
    assert((d + seq![' ']).drop_last() =~= d);
    assert(d.last() == '"');
    assert((d + seq![' ']).last() == ' ');
    assert(trim_end_spec(d + seq![' '], ws) == trim_end_spec(d, ws));
    assert(trim_end_spec(d, ws) == d);
    assert(trim_end_spec(d + seq![' '], ws) == d);
    assert(trim_start_spec(d, sq) == d);
    assert(trim_end_spec(d, sq) == d);
    assert(d.drop_first() =~= e + seq!['"']);
    assert((e + seq!['"'])[0] == e[0]);
    assert(trim_start_spec(e + seq!['"'], dq) == e + seq!['"']);
    assert(trim_start_spec(d, dq) == e + seq!['"']);
    assert((e + seq!['"']).drop_last() =~= e);
    assert(e[e.len() - 1] == e.last());
    assert(trim_end_spec(e, dq) == e);
}

/// The `@as` that gsettings prints in front of an array (with blanks around
/// it) does not change what is read.
pub proof fn lemma_parse_after_type_annotation(es: Seq<Seq<char>>)
    requires
        forall|i: int| 0 <= i < es.len() ==> plain_entry(#[trigger] es[i]),
    ensures
        parse_string_array_spec(seq![' ', '@', 'a', 's', ' '] + format_string_array_spec(es) + seq![' ']) == es,
{
    let f = format_string_array_spec(es);
    let raw = seq![' ', '@', 'a', 's', ' '] + f + seq![' '];
    let ws = CharClass::Whitespace;
    let inner = seq!['@', 'a', 's', ' '] + f;
    assert(raw.drop_first() =~= inner + seq![' ']);
    assert((inner + seq![' '])[0] == '@');
    assert(raw[0] == ' ');
    assert(trim_start_spec(raw, ws) == trim_start_spec(raw.drop_first(), ws));
    assert(trim_start_spec(inner + seq![' '], ws) == inner + seq![' ']);
    assert(trim_start_spec(raw, ws) == inner + seq![' ']);
    assert((inner + seq![' ']).drop_last() =~= inner);
    assert(f.last() == ']');
    assert(inner.last() == ']');
    assert((inner + seq![' ']).last() == ' ');
    assert(trim_end_spec(inner + seq![' '], ws) == trim_end_spec(inner, ws));
    assert(trim_end_spec(inner, ws) == inner);
    assert(trim_end_spec(inner + seq![' '], ws) == inner);
    assert(inner.skip(3) =~= seq![' '] + f);
    assert((seq![' '] + f)[0] == ' ');
    assert(strip_as_spec(inner) == strip_as_spec(seq![' '] + f));
    assert(strip_as_spec(seq![' '] + f) == seq![' '] + f);
    assert((seq![' '] + f).drop_first() =~= f);
    assert(f[0] == '[');
    assert(trim_start_spec(seq![' '] + f, ws) == trim_start_spec(f, ws));
    assert(trim_start_spec(seq![' '] + f, ws) == f);
    assert(trim_end_spec(f, ws) == f);
    assert(trim_start_spec(f, ws) == f);
    assert(list_body_spec(raw) == list_body_spec(f));
    lemma_parse_format_round_trip(es);
}
} // verus!
