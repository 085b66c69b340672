//! Small text utilities: splitting at a character, trimming.
use vstd::prelude::*;

verus! {

/// The views of a list of strings.
pub open spec fn views(v: Seq<String>) -> Seq<Seq<char>> {
    v.map_values(|s: String| s@)
}

/// Splits `s` at each `sep`: the pieces finished so far and the piece that
/// is still open at the end of `s`.
pub open spec fn split_open(s: Seq<char>, sep: char) -> (Seq<Seq<char>>, Seq<char>)
    decreases s.len(),
{
    if s.len() == 0 {
        (seq![], seq![])
    } else {
        let prev = split_open(s.drop_last(), sep);
        if s.last() == sep {
            (prev.0.push(prev.1), seq![])
        } else {
            (prev.0, prev.1.push(s.last()))
        }
    }
}

/// All pieces of `s` between the `sep` characters, empty ones included.
pub open spec fn split_all(s: Seq<char>, sep: char) -> Seq<Seq<char>> {
    let p = split_open(s, sep);
    p.0.push(p.1)
}

/// The lines of a text: the pieces between `'\n'` characters, with a last
/// piece only when the text does not end in a newline.
pub open spec fn text_lines(s: Seq<char>) -> Seq<Seq<char>> {
    let p = split_open(s, '\n');
    if p.1.len() == 0 {
        p.0
    } else {
        p.0.push(p.1)
    }
}

/// `s` without the characters `c` at its start.
pub open spec fn trim_start(s: Seq<char>, c: char) -> Seq<char>
    decreases s.len(),
{
    if s.len() > 0 && s[0] == c {
        trim_start(s.drop_first(), c)
    } else {
        s
    }
}

/// `s` without the characters `c` at its end.
pub open spec fn trim_end(s: Seq<char>, c: char) -> Seq<char>
    decreases s.len(),
{
    if s.len() > 0 && s.last() == c {
        trim_end(s.drop_last(), c)
    } else {
        s
    }
}

/// `s` with every leading copy of `p` removed.
pub open spec fn strip_prefix_all(s: Seq<char>, p: Seq<char>) -> Seq<char>
    decreases s.len(),
{
    if p.len() > 0 && s.len() >= p.len() && s.take(p.len() as int) == p {
        strip_prefix_all(s.skip(p.len() as int), p)
    } else {
        s
    }
}

/// `s` with every trailing copy of `p` removed.
pub open spec fn strip_suffix_all(s: Seq<char>, p: Seq<char>) -> Seq<char>
    decreases s.len(),
{
    if p.len() > 0 && s.len() >= p.len() && s.skip(s.len() - p.len()) == p {
        strip_suffix_all(s.take(s.len() - p.len()), p)
    } else {
        s
    }
}

/// Splits `s` at each `sep`; `n` pieces come from `n - 1` separators.
pub fn split_char(s: &str, sep: char) -> (r: Vec<String>)
    ensures
        views(r@) == split_all(s@, sep),
{
    let mut pieces: Vec<String> = Vec::new();
    let mut start: usize = 0;
    let mut pos: usize = 0;
    let n: usize = s.unicode_len();
    for c in it: s.chars()
        invariant
            n == s@.len(),
            it.seq() == s@,
            pos == it.index(),
            start <= pos,
            split_open(s@.take(pos as int), sep).1 == s@.subrange(start as int, pos as int),
            views(pieces@) == split_open(s@.take(pos as int), sep).0,
    {
        assert(pos < n);
        assert(s@.take(pos + 1).drop_last() == s@.take(pos as int));
        if c == sep {
            let piece = s.substring_char(start, pos);
            pieces.push(piece.to_string());
            start = pos + 1;
        }
        pos = pos + 1;
        assert(views(pieces@) == split_open(s@.take(pos as int), sep).0);
    }
    assert(s@.take(pos as int) == s@);
    let last = s.substring_char(start, pos);
    pieces.push(last.to_string());
    assert(views(pieces@) =~= split_all(s@, sep));
    pieces
}

/// The lines of `s`, as a line-oriented reader of an ignore file yields them.
pub fn split_lines(s: &str) -> (r: Vec<String>)
    ensures
        views(r@) == text_lines(s@),
{
    let mut lines = split_char(s, '\n');
    let ghost all = lines@;
    let ghost p = split_open(s@, '\n');
    assert(views(all).len() == p.0.len() + 1);
    let k = lines.len();
    assert(lines@[k - 1]@ == views(all)[k - 1]);
    if lines[k - 1].unicode_len() == 0 {
        lines.pop();
        assert(views(lines@) =~= views(all).drop_last());
        assert(views(all).drop_last() =~= p.0);
    }
    lines
}

/// `s` without the characters `c` at its start and its end.
pub fn trim_char<'a>(s: &'a str, c: char) -> (r: &'a str)
    ensures
        r@ == trim_end(trim_start(s@, c), c),
{
    let n: usize = s.unicode_len();
    let mut i: usize = 0;
    assert(s@.skip(0) =~= s@);
    while i < n && s.get_char(i) == c
        invariant
            n == s@.len(),
            i <= n,
            trim_start(s@, c) == trim_start(s@.skip(i as int), c),
        decreases n - i,
    {
        assert(s@.skip(i as int).drop_first() =~= s@.skip(i + 1));
        i = i + 1;
    }
    let mut j: usize = n;
    assert(trim_start(s@, c) == s@.subrange(i as int, n as int)) by {
        assert(s@.skip(i as int) =~= s@.subrange(i as int, n as int));
    }
    while j > i && s.get_char(j - 1) == c
        invariant
            n == s@.len(),
            i <= j <= n,
            trim_end(trim_start(s@, c), c) == trim_end(s@.subrange(i as int, j as int), c),
        decreases j,
    {
        assert(s@.subrange(i as int, j as int).drop_last() =~= s@.subrange(i as int, j - 1));
        j = j - 1;
    }
    s.substring_char(i, j)
}

/// `s` without the characters `c` at its start.
pub fn trim_start_char<'a>(s: &'a str, c: char) -> (r: &'a str)
    ensures
        r@ == trim_start(s@, c),
{
    let n: usize = s.unicode_len();
    let mut i: usize = 0;
    assert(s@.skip(0) =~= s@);
    while i < n && s.get_char(i) == c
        invariant
            n == s@.len(),
            i <= n,
            trim_start(s@, c) == trim_start(s@.skip(i as int), c),
        decreases n - i,
    {
        assert(s@.skip(i as int).drop_first() =~= s@.skip(i + 1));
        i = i + 1;
    }
    assert(s@.skip(i as int) =~= s@.subrange(i as int, n as int));
    s.substring_char(i, n)
}

/// `s` without one trailing carriage return.
pub open spec fn drop_cr(s: Seq<char>) -> Seq<char> {
    if s.len() > 0 && s.last() == '\r' {
        s.drop_last()
    } else {
        s
    }
}

/// `s` without one trailing carriage return.
pub fn drop_cr_of<'a>(s: &'a str) -> (r: &'a str)
    ensures
        r@ == drop_cr(s@),
{
    let n: usize = s.unicode_len();
    if n > 0 && s.get_char(n - 1) == '\r' {
        s.substring_char(0, n - 1)
    } else {
        s
    }
}

/// `s` with every trailing copy of `p` removed.
pub fn strip_suffix_all_of<'a>(s: &'a str, p: &str) -> (r: &'a str)
    ensures
        r@ == strip_suffix_all(s@, p@),
{
    let m: usize = p.unicode_len();
    let n: usize = s.unicode_len();
    let mut j: usize = n;
    if m == 0 {
        return s;
    }
    assert(s@.take(n as int) =~= s@);
    while j >= m && ends_with_at(s, j, p, m)
        invariant
            n == s@.len(),
            m == p@.len(),
            m > 0,
            j <= n,
            strip_suffix_all(s@, p@) == strip_suffix_all(s@.take(j as int), p@),
        decreases j,
    {
        assert(s@.take(j as int).take(j - m) =~= s@.take(j - m));
        j = j - m;
    }
    assert(s@.take(j as int) =~= s@.subrange(0, j as int));
    s.substring_char(0, j)
}

/// `s` with every leading copy of `p` removed.
pub fn strip_prefix_all_of<'a>(s: &'a str, p: &str) -> (r: &'a str)
    ensures
        r@ == strip_prefix_all(s@, p@),
{
    let m: usize = p.unicode_len();
    let n: usize = s.unicode_len();
    let mut i: usize = 0;
    if m == 0 {
        return s;
    }
    assert(s@.skip(0) =~= s@);
    while m <= n - i && starts_with_at(s, i, p, m)
        invariant
            n == s@.len(),
            m == p@.len(),
            m > 0,
            i <= n,
            strip_prefix_all(s@, p@) == strip_prefix_all(s@.skip(i as int), p@),
        decreases n - i,
    {
        assert(s@.skip(i as int).skip(m as int) =~= s@.skip(i + m));
        i = i + m;
    }
    assert(s@.skip(i as int) =~= s@.subrange(i as int, n as int));
    s.substring_char(i, n)
}

/// Whether the `j` first characters of `s` end with `p` (of length `m`).
fn ends_with_at(s: &str, j: usize, p: &str, m: usize) -> (r: bool)
    requires
        m == p@.len(),
        m <= j <= s@.len(),
    ensures
        r == (s@.take(j as int).skip(j - m) == p@),
{
    let mut k: usize = 0;
    while k < m
        invariant
            m == p@.len(),
            m <= j <= s@.len(),
            k <= m,
            forall|t: int| 0 <= t < k ==> s@[j - m + t] == p@[t],
        decreases m - k,
    {
        if s.get_char(j - m + k) != p.get_char(k) {
            assert(s@.take(j as int).skip(j - m)[k as int] != p@[k as int]);
            return false;
        }
        k = k + 1;
    }
    assert(s@.take(j as int).skip(j - m) =~= p@);
    true
}

/// Whether `s` holds `p` (of length `m`) from its `i`-th character on.
pub(crate) fn starts_with_at(s: &str, i: usize, p: &str, m: usize) -> (r: bool)
    requires
        m == p@.len(),
        i + m <= s@.len() <= usize::MAX,
    ensures
        r == (s@.skip(i as int).take(m as int) == p@),
{
    let mut k: usize = 0;
    while k < m
        invariant
            m == p@.len(),
            i + m <= s@.len() <= usize::MAX,
            k <= m,
            forall|t: int| 0 <= t < k ==> s@[i + t] == p@[t],
        decreases m - k,
    {
        if s.get_char(i + k) != p.get_char(k) {
            assert(s@.skip(i as int).take(m as int)[k as int] != p@[k as int]);
            return false;
        }
        k = k + 1;
    }
    assert(s@.skip(i as int).take(m as int) =~= p@);
    true
}

} // verus!
