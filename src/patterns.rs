//! The shapes in which product links carry a marketplace and an item.
use vstd::prelude::*;
use crate::destination::{canonical, canonical_url, Marketplace};
use crate::error::{outcome_view, Error, ErrorView, Outcome};
use crate::source_url::{query_value, SourceUrl, UrlView};
use crate::text::{chars_of, is_digit, is_number, is_number_chars, occurs_at, occurs_in};

verus! {

/// A closed table from discriminator values to marketplaces.
pub type Table = Seq<(Seq<char>, Marketplace)>;

/// The marketplace of the first entry whose value is `v`.
pub open spec fn lookup(t: Table, v: Seq<char>) -> Option<Marketplace>
    decreases t.len(),
{
    if t.len() == 0 {
        None
    } else if t[0].0 == v {
        Some(t[0].1)
    } else {
        lookup(t.drop_first(), v)
    }
}

pub open spec fn table_view(t: Seq<(&str, Marketplace)>) -> Table {
    t.map_values(|e: (&str, Marketplace)| (e.0@, e.1))
}

/// Resolution from two query fields: the item id under `id_key`, and under
/// `disc_key` a value that `table` maps to a marketplace. A missing or empty
/// id, a missing value or one the table does not hold makes the link
/// non-convertible.
pub open spec fn by_query(u: UrlView, id_key: Seq<char>, disc_key: Seq<char>, t: Table) -> Outcome {
    match (query_value(u.query, disc_key), query_value(u.query, id_key)) {
        (Some(d), Some(id)) => match lookup(t, d) {
            Some(m) if id.len() > 0 => Ok(canonical_url(m, id)),
            _ => Err(ErrorView::NonConvertableUrl(u.text)),
        },
        _ => Err(ErrorView::NonConvertableUrl(u.text)),
    }
}

/// Looks `v` up in `table`.
pub fn lookup_exec(table: &Vec<(&str, Marketplace)>, v: &str) -> (r: Option<Marketplace>)
    ensures
        r == lookup(table_view(table@), v@),
{
    let ghost t = table_view(table@);
    let mut i: usize = 0;
    assert(t.subrange(0, t.len() as int) =~= t);
    while i < table.len()
        invariant
            t == table_view(table@),
            0 <= i <= table@.len(),
            lookup(t, v@) == lookup(t.subrange(i as int, t.len() as int), v@),
        decreases table@.len() - i,
    {
        let ghost rest = t.subrange(i as int, t.len() as int);
        assert(rest.drop_first() =~= t.subrange(i + 1, t.len() as int));
        if crate::text::same_text(table[i].0, v) {
            return Some(table[i].1);
        }
        i = i + 1;
    }
    None
}

/// Resolves `url` from its query fields, as [`by_query`] says.
pub fn resolve_by_query(
    url: &SourceUrl,
    id_key: &str,
    disc_key: &str,
    table: &Vec<(&str, Marketplace)>,
) -> (r: Result<String, Error>)
    ensures
        outcome_view(r) == by_query(url@, id_key@, disc_key@, table_view(table@)),
{
    match (url.query_value(disc_key), url.query_value(id_key)) {
        (Some(d), Some(id)) => match lookup_exec(table, d) {
            Some(m) => {
                if id.unicode_len() > 0 {
                    Ok(canonical(m, id))
                } else {
                    Err(Error::non_convertable(url.serialization.as_str()))
                }
            },
            None => Err(Error::non_convertable(url.serialization.as_str())),
        },
        _ => Err(Error::non_convertable(url.serialization.as_str())),
    }
}

} // verus!

verus! {

/// The number between `pre` and `suf` where `s` is exactly `pre`, a
/// non-empty run of digits, and `suf`.
pub open spec fn affix_number(s: Seq<char>, pre: Seq<char>, suf: Seq<char>) -> Option<Seq<char>> {
    if pre.len() + suf.len() <= s.len() && occurs_at(s, pre, 0) && occurs_at(
        s,
        suf,
        s.len() - suf.len(),
    ) && is_number(s.subrange(pre.len() as int, s.len() - suf.len())) {
        Some(s.subrange(pre.len() as int, s.len() - suf.len()))
    } else {
        None
    }
}

/// Matches `s` against `pre`, digits, `suf`, and returns the digits.
pub fn affix_number_exec<'a>(s: &'a str, pre: &str, suf: &str) -> (r: Option<&'a str>)
    ensures
        match r {
            Some(d) => affix_number(s@, pre@, suf@) == Some(d@),
            None => affix_number(s@, pre@, suf@) is None,
        },
{
    let x = chars_of(s);
    let p = chars_of(pre);
    let q = chars_of(suf);
    if p.len() > x.len() || q.len() > x.len() - p.len() {
        return None;
    }
    let from = p.len();
    let to = x.len() - q.len();
    if occurs_in(&x, &p, 0) && occurs_in(&x, &q, to) && is_number_chars(&x, from, to) {
        Some(s.substring_char(from, to))
    } else {
        None
    }
}

/// The segments of `s` between `/` separators, empty ones left out, with
/// `cur` the characters of an unfinished segment before `s`.
pub open spec fn segments_after(s: Seq<char>, cur: Seq<char>) -> Seq<Seq<char>>
    decreases s.len(),
{
    if s.len() == 0 {
        if cur.len() > 0 { seq![cur] } else { seq![] }
    } else if s[0] == '/' {
        (if cur.len() > 0 { seq![cur] } else { seq![] }) + segments_after(s.drop_first(), seq![])
    } else {
        segments_after(s.drop_first(), cur.push(s[0]))
    }
}

/// The non-empty segments of a path, in order.
pub open spec fn path_segments(s: Seq<char>) -> Seq<Seq<char>> {
    segments_after(s, seq![])
}

pub open spec fn strs_view(v: Seq<&str>) -> Seq<Seq<char>> {
    v.map_values(|t: &str| t@)
}

/// Splits a path into its non-empty segments.
pub fn split_segments<'a>(s: &'a str) -> (r: Vec<&'a str>)
    ensures
        strs_view(r@) == path_segments(s@),
{
    let x = chars_of(s);
    let n = x.len();
    let mut acc: Vec<&'a str> = Vec::new();
    let mut start: usize = 0;
    let mut i: usize = 0;
    assert(x@.subrange(0, n as int) =~= x@);
    assert(x@.subrange(0, 0) =~= Seq::<char>::empty());
    while i < n
        invariant
            x@ == s@,
            n == x@.len(),
            start <= i <= n,
            path_segments(s@) == strs_view(acc@) + segments_after(
                x@.subrange(i as int, n as int),
                x@.subrange(start as int, i as int),
            ),
        decreases n - i,
    {
        let ghost rest = x@.subrange(i as int, n as int);
        let ghost cur = x@.subrange(start as int, i as int);
        assert(rest.drop_first() =~= x@.subrange(i + 1, n as int));
        if x[i] == '/' {
            if start < i {
                let ghost prev = acc@;
                let seg = s.substring_char(start, i);
                acc.push(seg);
                assert(strs_view(acc@) =~= strs_view(prev) + seq![cur]);
            }
            assert(x@.subrange(i + 1, i + 1) =~= Seq::<char>::empty());
            start = i + 1;
        } else {
            assert(cur.push(x@[i as int]) =~= x@.subrange(start as int, i + 1));
        }
        i = i + 1;
    }
    let ghost cur = x@.subrange(start as int, n as int);
    if start < n {
        let ghost prev = acc@;
        let seg = s.substring_char(start, n);
        acc.push(seg);
        assert(strs_view(acc@) =~= strs_view(prev) + seq![cur]);
    }
    assert(x@.subrange(n as int, n as int) =~= Seq::<char>::empty());
    assert(strs_view(acc@) =~= path_segments(s@));
    acc
}

} // verus!

verus! {

/// The end of the run of digits that starts at `from`.
pub open spec fn digits_end(s: Seq<char>, from: int) -> int
    decreases s.len() - from,
{
    if from < 0 || from >= s.len() || !is_digit(s[from]) {
        from
    } else {
        digits_end(s, from + 1)
    }
}

/// Whether marker `m` occurs at `p` with a digit right after it.
pub open spec fn marked_at(s: Seq<char>, m: Seq<char>, p: int) -> bool {
    occurs_at(s, m, p) && p + m.len() < s.len() && is_digit(s[p + m.len()])
}

/// The first of the markers `ms[k..]` marked at `p`.
pub open spec fn marker_from(s: Seq<char>, ms: Seq<Seq<char>>, p: int, k: int) -> Option<int>
    decreases ms.len() - k,
{
    if k < 0 || k >= ms.len() {
        None
    } else if marked_at(s, ms[k], p) {
        Some(k)
    } else {
        marker_from(s, ms, p, k + 1)
    }
}

/// The leftmost position from `p` on where one of the markers is followed by
/// a digit, with the first such marker there.
pub open spec fn first_marked(s: Seq<char>, ms: Seq<Seq<char>>, p: int) -> Option<(int, int)>
    decreases s.len() - p,
{
    if p < 0 || p >= s.len() {
        None
    } else {
        match marker_from(s, ms, p, 0) {
            Some(k) => Some((p, k)),
            None => first_marked(s, ms, p + 1),
        }
    }
}

/// The leftmost place where one of the markers is followed by digits: the
/// index of the marker, and all the digits that follow it.
pub open spec fn marked_number(s: Seq<char>, ms: Seq<Seq<char>>) -> Option<(int, Seq<char>)> {
    match first_marked(s, ms, 0) {
        Some((p, k)) => Some((k, s.subrange(p + ms[k].len(), digits_end(s, p + ms[k].len())))),
        None => None,
    }
}

fn digits_end_exec(x: &Vec<char>, from: usize) -> (r: usize)
    requires
        from <= x@.len(),
    ensures
        r == digits_end(x@, from as int),
        from <= r <= x@.len(),
{
    let mut i = from;
    while i < x.len() && '0' <= x[i] && x[i] <= '9'
        invariant
            from <= i <= x@.len(),
            digits_end(x@, from as int) == digits_end(x@, i as int),
        decreases x@.len() - i,
    {
        i = i + 1;
    }
    i
}

/// Finds the leftmost marker followed by digits, as [`marked_number`] says.
pub fn find_marked_number<'a>(s: &'a str, markers: &Vec<&str>) -> (r: Option<(usize, &'a str)>)
    ensures
        match r {
            Some((k, d)) => marked_number(s@, strs_view(markers@)) == Some((k as int, d@)),
            None => marked_number(s@, strs_view(markers@)) is None,
        },
{
    let ghost ms = strs_view(markers@);
    let x = chars_of(s);
    let n = x.len();
    let mut mv: Vec<Vec<char>> = Vec::new();
    let mut j: usize = 0;
    while j < markers.len()
        invariant
            ms == strs_view(markers@),
            j <= markers@.len(),
            mv@.len() == j,
            forall|t: int| 0 <= t < j ==> (#[trigger] mv@[t])@ == ms[t],
        decreases markers@.len() - j,
    {
        mv.push(chars_of(markers[j]));
        j = j + 1;
    }
    let mut p: usize = 0;
    while p < n
        invariant
            x@ == s@,
            n == x@.len(),
            p <= n,
            ms == strs_view(markers@),
            ms.len() == mv@.len(),
            forall|t: int| 0 <= t < mv@.len() ==> (#[trigger] mv@[t])@ == ms[t],
            first_marked(x@, ms, 0) == first_marked(x@, ms, p as int),
        decreases n - p,
    {
        let mut k: usize = 0;
        while k < mv.len()
            invariant
                x@ == s@,
                n == x@.len(),
                p < n,
                ms.len() == mv@.len(),
                forall|t: int| 0 <= t < mv@.len() ==> (#[trigger] mv@[t])@ == ms[t],
                k <= mv@.len(),
                ms == strs_view(markers@),
                first_marked(x@, ms, 0) == first_marked(x@, ms, p as int),
                marker_from(x@, ms, p as int, 0) == marker_from(x@, ms, p as int, k as int),
            decreases mv@.len() - k,
        {
            let m = &mv[k];
            if occurs_in(&x, m, p) && p + m.len() < n && '0' <= x[p + m.len()] && x[p + m.len()]
                <= '9' {
                let from = p + m.len();
                assert(marked_at(x@, ms[k as int], p as int));
                assert(marker_from(x@, ms, p as int, k as int) == Some(k as int));
                assert(first_marked(x@, ms, p as int) == Some((p as int, k as int)));
                let to = digits_end_exec(&x, from);
                let d = s.substring_char(from, to);
                return Some((k, d));
            }
            k = k + 1;
        }
        p = p + 1;
    }
    None
}

} // verus!
