//! Char-level text scanning: searching, trimming and splitting, stated over
//! `Seq<char>` and carried out on a `Vec<char>` between two indices.
use vstd::prelude::*;

verus! {

/// Whether `c` has the Unicode `White_Space` property, which is what
/// `char::is_whitespace` and `str::trim` go by.
pub open spec fn is_white(c: char) -> bool {
    ||| '\u{9}' <= c <= '\u{d}'
    ||| c == ' '
    ||| c == '\u{85}'
    ||| c == '\u{a0}'
    ||| c == '\u{1680}'
    ||| '\u{2000}' <= c <= '\u{200a}'
    ||| c == '\u{2028}'
    ||| c == '\u{2029}'
    ||| c == '\u{202f}'
    ||| c == '\u{205f}'
    ||| c == '\u{3000}'
}

/// `p` occurs in `s` starting at index `i`.
pub open spec fn occurs_at(s: Seq<char>, p: Seq<char>, i: int) -> bool {
    0 <= i && i + p.len() <= s.len() && s.subrange(i, i + p.len()) == p
}

/// The first index at or after `k` where `p` occurs in `s`.
pub open spec fn find_from(s: Seq<char>, p: Seq<char>, k: int) -> Option<int>
    decreases s.len() + 1 - k,
{
    if k < 0 || k + p.len() > s.len() {
        None
    } else if occurs_at(s, p, k) {
        Some(k)
    } else {
        find_from(s, p, k + 1)
    }
}

/// The first index where `p` occurs in `s`.
pub open spec fn find(s: Seq<char>, p: Seq<char>) -> Option<int> {
    find_from(s, p, 0)
}

/// `p` occurs somewhere in `s`.
pub open spec fn contains(s: Seq<char>, p: Seq<char>) -> bool {
    find(s, p) is Some
}

/// The last index below `k` that holds `c`.
pub open spec fn rfind_below(s: Seq<char>, c: char, k: int) -> Option<int>
    decreases k,
{
    if k <= 0 {
        None
    } else if s[k - 1] == c {
        Some(k - 1)
    } else {
        rfind_below(s, c, k - 1)
    }
}

/// The last index of `s` that holds `c`.
pub open spec fn rfind(s: Seq<char>, c: char) -> Option<int> {
    rfind_below(s, c, s.len() as int)
}

/// The first index at or after `k` that holds a whitespace char.
pub open spec fn find_white_from(s: Seq<char>, k: int) -> Option<int>
    decreases s.len() - k,
{
    if k < 0 || k >= s.len() {
        None
    } else if is_white(s[k]) {
        Some(k)
    } else {
        find_white_from(s, k + 1)
    }
}

/// The first index of `s` that holds a whitespace char.
pub open spec fn find_white(s: Seq<char>) -> Option<int> {
    find_white_from(s, 0)
}

/// `s` without its leading whitespace.
pub open spec fn trim_start(s: Seq<char>) -> Seq<char>
    decreases s.len(),
{
    if s.len() > 0 && is_white(s[0]) {
        trim_start(s.drop_first())
    } else {
        s
    }
}

/// `s` without its trailing whitespace.
pub open spec fn trim_end(s: Seq<char>) -> Seq<char>
    decreases s.len(),
{
    if s.len() > 0 && is_white(s.last()) {
        trim_end(s.drop_last())
    } else {
        s
    }
}

/// `s` without leading and trailing whitespace.
pub open spec fn trim(s: Seq<char>) -> Seq<char> {
    trim_end(trim_start(s))
}

/// The pieces of `s` between occurrences of `c`, in order: one more piece
/// than there are occurrences, empty pieces included.
pub open spec fn split(s: Seq<char>, c: char) -> Seq<Seq<char>>
    decreases s.len(),
{
    if s.len() == 0 {
        seq![Seq::empty()]
    } else {
        let rest = split(s.drop_last(), c);
        if s.last() == c {
            rest.push(Seq::empty())
        } else {
            rest.update(rest.len() - 1, rest.last().push(s.last()))
        }
    }
}

/// The views of a sequence of strings.
pub open spec fn views(v: Seq<String>) -> Seq<Seq<char>> {
    v.map_values(|s: String| s@)
}

/// The chars that a sequence of index ranges covers in `s`.
pub open spec fn pieces(s: Seq<char>, r: Seq<(usize, usize)>) -> Seq<Seq<char>> {
    r.map_values(|p: (usize, usize)| s.subrange(p.0 as int, p.1 as int))
}

/// `r` is the index `o` into a subrange that starts at `lo`, taken as an
/// index into the whole.
pub open spec fn found_at(o: Option<int>, lo: usize, r: Option<usize>) -> bool {
    match o {
        Some(i) => r matches Some(j) && j == lo + i,
        None => r is None,
    }
}

/// A found occurrence lies at or after the start and really is there.
pub proof fn lemma_find_from_found(s: Seq<char>, p: Seq<char>, k: int)
    ensures
        find_from(s, p, k) matches Some(i) ==> k <= i && occurs_at(s, p, i),
    decreases s.len() + 1 - k,
{
    if !(k < 0 || k + p.len() > s.len()) && !occurs_at(s, p, k) {
        lemma_find_from_found(s, p, k + 1);
    }
}

/// A found index lies below the bound and holds the char.
pub proof fn lemma_rfind_below_found(s: Seq<char>, c: char, k: int)
    ensures
        rfind_below(s, c, k) matches Some(i) ==> 0 <= i < k && s[i] == c,
    decreases k,
{
    if k > 0 && s[k - 1] != c {
        lemma_rfind_below_found(s, c, k - 1);
    }
}

/// A found index lies in range and holds whitespace.
pub proof fn lemma_find_white_from_found(s: Seq<char>, k: int)
    ensures
        find_white_from(s, k) matches Some(i) ==> k <= i < s.len() && is_white(s[i]),
    decreases s.len() - k,
{
    if 0 <= k < s.len() && !is_white(s[k]) {
        lemma_find_white_from_found(s, k + 1);
    }
}

/// Splitting always gives at least one piece.
pub proof fn lemma_split_nonempty(s: Seq<char>, c: char)
    ensures
        split(s, c).len() >= 1,
    decreases s.len(),
{
    if s.len() > 0 {
        lemma_split_nonempty(s.drop_last(), c);
    }
}

/// The chars of `s`, in order.
pub fn chars_of(s: &str) -> (r: Vec<char>)
    ensures
        r@ == s@,
{
    let mut out: Vec<char> = Vec::new();
    for c in it: s.chars()
        invariant
            out@ == it.seq().take(it.index() as int),
    {
        out.push(c);
    }
    assert(out@ == s@);
    out
}

/// Whether `c` is whitespace.
pub fn is_white_char(c: char) -> (r: bool)
    ensures
        r == is_white(c),
{
    ('\u{9}' <= c && c <= '\u{d}') || c == ' ' || c == '\u{85}' || c == '\u{a0}' || c
        == '\u{1680}' || ('\u{2000}' <= c && c <= '\u{200a}') || c == '\u{2028}' || c
        == '\u{2029}' || c == '\u{202f}' || c == '\u{205f}' || c == '\u{3000}'
}

/// Whether `p` occurs in `v` at index `i`.
fn occurs_in_at(v: &Vec<char>, hi: usize, p: &Vec<char>, i: usize) -> (r: bool)
    requires
        hi <= v.len(),
        i + p.len() <= hi,
    ensures
        r == (v@.subrange(i as int, i + p.len()) == p@),
{
    let mut j: usize = 0;
    while j < p.len()
        invariant
            j <= p.len(),
            i + p.len() <= hi <= v.len(),
            forall|m: int| 0 <= m < j ==> v@[i + m] == p@[m],
        decreases p.len() - j,
    {
        if v[i + j] != p[j] {
            assert(v@.subrange(i as int, i + p.len())[j as int] != p@[j as int]);
            return false;
        }
        j += 1;
    }
    assert(v@.subrange(i as int, i + p.len()) =~= p@);
    true
}

/// The first place in `v[lo..hi]` where `p` occurs, as an index into `v`.
pub fn find_in(v: &Vec<char>, lo: usize, hi: usize, p: &Vec<char>) -> (r: Option<usize>)
    requires
        lo <= hi <= v.len(),
    ensures
        found_at(find(v@.subrange(lo as int, hi as int), p@), lo, r),
        r matches Some(j) ==> lo <= j && j + p.len() <= hi && v@.subrange(j as int, j + p.len())
            == p@,
{
    proof {
        lemma_find_from_found(v@.subrange(lo as int, hi as int), p@, 0);
    }
    let ghost s = v@.subrange(lo as int, hi as int);
    if p.len() > hi - lo {
        return None;
    }
    let last: usize = hi - lo - p.len();
    let mut k: usize = 0;
    loop
        invariant
            lo <= hi <= v.len(),
            s == v@.subrange(lo as int, hi as int),
            last == hi - lo - p.len(),
            k <= last,
            find(s, p@) == find_from(s, p@, k as int),
        decreases last - k,
    {
        let hit = occurs_in_at(v, hi, p, lo + k);
        assert(s.subrange(k as int, k + p.len()) =~= v@.subrange(lo + k, lo + k + p.len()));
        if hit {
            return Some(lo + k);
        }
        if k == last {
            assert(find_from(s, p@, k + 1) == None::<int>);
            return None;
        }
        k += 1;
    }
}

/// The first place in `v[lo..hi]` that holds `c`, as an index into `v`.
pub fn find_char_in(v: &Vec<char>, lo: usize, hi: usize, c: char) -> (r: Option<usize>)
    requires
        lo <= hi <= v.len(),
    ensures
        found_at(find(v@.subrange(lo as int, hi as int), seq![c]), lo, r),
        r matches Some(j) ==> lo <= j < hi && v@[j as int] == c,
{
    let p = vec![c];
    assert(p@ =~= seq![c]);
    let r = find_in(v, lo, hi, &p);
    if let Some(j) = r {
        assert(v@.subrange(j as int, j + 1)[0] == v@[j as int]);
    }
    r
}

/// The last place in `v[lo..hi]` that holds `c`, as an index into `v`.
pub fn rfind_char_in(v: &Vec<char>, lo: usize, hi: usize, c: char) -> (r: Option<usize>)
    requires
        lo <= hi <= v.len(),
    ensures
        found_at(rfind(v@.subrange(lo as int, hi as int), c), lo, r),
        r matches Some(j) ==> lo <= j < hi && v@[j as int] == c,
{
    proof {
        lemma_rfind_below_found(v@.subrange(lo as int, hi as int), c, hi - lo);
    }
    let ghost s = v@.subrange(lo as int, hi as int);
    let mut k: usize = hi - lo;
    while k > 0
        invariant
            lo <= hi <= v.len(),
            s == v@.subrange(lo as int, hi as int),
            k <= hi - lo,
            rfind(s, c) == rfind_below(s, c, k as int),
        decreases k,
    {
        if v[lo + k - 1] == c {
            return Some(lo + k - 1);
        }
        k -= 1;
    }
    None
}

/// The first place in `v[lo..hi]` that holds whitespace, as an index into `v`.
pub fn find_white_in(v: &Vec<char>, lo: usize, hi: usize) -> (r: Option<usize>)
    requires
        lo <= hi <= v.len(),
    ensures
        found_at(find_white(v@.subrange(lo as int, hi as int)), lo, r),
        r matches Some(j) ==> lo <= j < hi && is_white(v@[j as int]),
{
    proof {
        lemma_find_white_from_found(v@.subrange(lo as int, hi as int), 0);
    }
    let ghost s = v@.subrange(lo as int, hi as int);
    let mut k: usize = 0;
    while k < hi - lo
        invariant
            lo <= hi <= v.len(),
            s == v@.subrange(lo as int, hi as int),
            k <= hi - lo,
            find_white(s) == find_white_from(s, k as int),
        decreases hi - lo - k,
    {
        if is_white_char(v[lo + k]) {
            return Some(lo + k);
        }
        k += 1;
    }
    None
}

/// The bounds of `v[lo..hi]` with leading and trailing whitespace left out.
pub fn trim_range(v: &Vec<char>, lo: usize, hi: usize) -> (r: (usize, usize))
    requires
        lo <= hi <= v.len(),
    ensures
        lo <= r.0 <= r.1 <= hi,
        v@.subrange(r.0 as int, r.1 as int) == trim(v@.subrange(lo as int, hi as int)),
{
    let mut a: usize = lo;
    while a < hi && is_white_char(v[a])
        invariant
            lo <= a <= hi <= v.len(),
            trim_start(v@.subrange(lo as int, hi as int)) == trim_start(
                v@.subrange(a as int, hi as int),
            ),
        decreases hi - a,
    {
        assert(v@.subrange(a as int, hi as int).drop_first() =~= v@.subrange(a + 1, hi as int));
        a += 1;
    }
    let mut b: usize = hi;
    while b > a && is_white_char(v[b - 1])
        invariant
            lo <= a <= b <= hi <= v.len(),
            trim_end(v@.subrange(a as int, hi as int)) == trim_end(v@.subrange(a as int, b as int)),
        decreases b,
    {
        assert(v@.subrange(a as int, b as int).drop_last() =~= v@.subrange(a as int, b - 1));
        b -= 1;
    }
    (a, b)
}

/// Whether `a` and `b` hold the same chars.
pub fn same_text(a: &str, b: &str) -> (r: bool)
    ensures
        r == (a@ == b@),
{
    let x = chars_of(a);
    let y = chars_of(b);
    if x.len() != y.len() {
        return false;
    }
    let mut i: usize = 0;
    while i < x.len()
        invariant
            x@ == a@,
            y@ == b@,
            x.len() == y.len(),
            i <= x.len(),
            forall|m: int| 0 <= m < i ==> x@[m] == y@[m],
        decreases x.len() - i,
    {
        if x[i] != y[i] {
            assert(a@[i as int] != b@[i as int]);
            return false;
        }
        i += 1;
    }
    assert(x@ =~= y@);
    true
}

/// The chars of `s[a..b]` as a new string.
pub fn substring(s: &str, a: usize, b: usize) -> (r: String)
    requires
        a <= b <= s@.len(),
    ensures
        r@ == s@.subrange(a as int, b as int),
{
    s.substring_char(a, b).to_owned()
}

/// The index ranges of the pieces of `v[lo..hi]` between occurrences of `c`.
pub fn split_ranges(v: &Vec<char>, lo: usize, hi: usize, c: char) -> (r: Vec<(usize, usize)>)
    requires
        lo <= hi <= v.len(),
    ensures
        pieces(v@, r@) == split(v@.subrange(lo as int, hi as int), c),
        forall|i: int| 0 <= i < r.len() ==> lo <= #[trigger] r@[i].0 <= r@[i].1 <= hi,
{
    let mut out: Vec<(usize, usize)> = Vec::new();
    let mut start: usize = lo;
    let mut i: usize = lo;
    assert(v@.subrange(lo as int, lo as int) =~= Seq::<char>::empty());
    assert(pieces(v@, out@) =~= Seq::<Seq<char>>::empty());
    assert(pieces(v@, out@).push(v@.subrange(lo as int, lo as int)) =~= seq![Seq::empty()]);
    while i < hi
        invariant
            lo <= start <= i <= hi <= v.len(),
            pieces(v@, out@).push(v@.subrange(start as int, i as int)) == split(
                v@.subrange(lo as int, i as int),
                c,
            ),
            forall|m: int| 0 <= m < out.len() ==> lo <= #[trigger] out@[m].0 <= out@[m].1 <= hi,
        decreases hi - i,
    {
        let ghost prev = v@.subrange(lo as int, i as int);
        let ghost next = v@.subrange(lo as int, i + 1);
        assert(next.drop_last() =~= prev);
        assert(next.last() == v@[i as int]);
        proof {
            lemma_split_nonempty(prev, c);
        }
        if v[i] == c {
            let ghost before = out@;
            out.push((start, i));
            assert(pieces(v@, out@) =~= pieces(v@, before).push(
                v@.subrange(start as int, i as int),
            ));
            start = i + 1;
            assert(v@.subrange(start as int, i + 1) =~= Seq::<char>::empty());
        } else {
            assert(v@.subrange(start as int, i + 1) =~= v@.subrange(start as int, i as int).push(
                v@[i as int],
            ));
        }
        i += 1;
    }
    out.push((start, hi));
    out
}

} // verus!
