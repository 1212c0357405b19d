//! Character-level text utilities with specifications over `Seq<char>`.

use vstd::prelude::*;

verus! {

/// Appends one character to a string.
/// Calls `String::push`, which appends the character at the end.
#[verifier::external_body]
pub(crate) fn push_char(s: &mut String, c: char)
    ensures
        final(s)@ == old(s)@.push(c),
{
    s.push(c);
}

/// The characters of a string slice, in order.
pub fn chars_of(s: &str) -> (r: Vec<char>)
    ensures
        r@ == s@,
{
    let n = s.unicode_len();
    let mut r: Vec<char> = Vec::new();
    let mut i: usize = 0;
    while i < n
        invariant
            n == s@.len(),
            i <= n,
            r@ == s@.subrange(0, i as int),
        decreases n - i,
    {
        let c = s.get_char(i);
        r.push(c);
        assert(r@ =~= s@.subrange(0, i + 1));
        i = i + 1;
    }
    assert(r@ =~= s@);
    r
}

/// A string holding exactly the given characters.
pub fn string_of(v: &Vec<char>) -> (r: String)
    ensures
        r@ == v@,
{
    let mut r = String::new();
    let mut i: usize = 0;
    while i < v.len()
        invariant
            i <= v.len(),
            r@ == v@.subrange(0, i as int),
        decreases v.len() - i,
    {
        push_char(&mut r, v[i]);
        assert(r@ =~= v@.subrange(0, i + 1));
        i = i + 1;
    }
    assert(r@ =~= v@);
    r
}

/// Whether `c` is an ASCII letter or digit.
pub open spec fn is_ascii_alphanumeric(c: char) -> bool {
    ('0' <= c && c <= '9') || ('a' <= c && c <= 'z') || ('A' <= c && c <= 'Z')
}

/// Whether `c` is a Unicode `White_Space` character.
pub open spec fn is_whitespace(c: char) -> bool {
    ||| ('\u{9}' <= c && c <= '\u{d}')
    ||| c == ' '
    ||| c == '\u{85}'
    ||| c == '\u{a0}'
    ||| c == '\u{1680}'
    ||| ('\u{2000}' <= c && c <= '\u{200a}')
    ||| c == '\u{2028}'
    ||| c == '\u{2029}'
    ||| c == '\u{202f}'
    ||| c == '\u{205f}'
    ||| c == '\u{3000}'
}

pub fn char_is_ascii_alphanumeric(c: char) -> (r: bool)
    ensures
        r == is_ascii_alphanumeric(c),
{
    ('0' <= c && c <= '9') || ('a' <= c && c <= 'z') || ('A' <= c && c <= 'Z')
}

pub fn char_is_whitespace(c: char) -> (r: bool)
    ensures
        r == is_whitespace(c),
{
    ('\u{9}' <= c && c <= '\u{d}') || c == ' ' || c == '\u{85}' || c == '\u{a0}' || c
        == '\u{1680}' || ('\u{2000}' <= c && c <= '\u{200a}') || c == '\u{2028}' || c
        == '\u{2029}' || c == '\u{202f}' || c == '\u{205f}' || c == '\u{3000}'
}

/// `s` without its leading whitespace.
pub open spec fn trim_start(s: Seq<char>) -> Seq<char>
    decreases s.len(),
{
    if s.len() > 0 && is_whitespace(s[0]) {
        trim_start(s.drop_first())
    } else {
        s
    }
}

/// `s` without its trailing whitespace.
pub open spec fn trim_end(s: Seq<char>) -> Seq<char>
    decreases s.len(),
{
    if s.len() > 0 && is_whitespace(s.last()) {
        trim_end(s.drop_last())
    } else {
        s
    }
}

/// `s` without leading and trailing whitespace.
pub open spec fn trim(s: Seq<char>) -> Seq<char> {
    trim_end(trim_start(s))
}

proof fn lemma_trim_start_skip(s: Seq<char>, i: int)
    requires
        0 <= i <= s.len(),
        forall|j: int| 0 <= j < i ==> is_whitespace(#[trigger] s[j]),
    ensures
        trim_start(s) == trim_start(s.subrange(i, s.len() as int)),
    decreases i,
{
    if i > 0 {
        assert(s.drop_first() =~= s.subrange(1, s.len() as int));
        lemma_trim_start_skip(s.drop_first(), i - 1);
        assert(s.drop_first().subrange(i - 1, s.drop_first().len() as int) =~= s.subrange(
            i,
            s.len() as int,
        ));
    } else {
        assert(s.subrange(0, s.len() as int) =~= s);
    }
}

proof fn lemma_trim_end_cut(s: Seq<char>, k: int)
    requires
        0 <= k <= s.len(),
        forall|j: int| k <= j < s.len() ==> is_whitespace(#[trigger] s[j]),
    ensures
        trim_end(s) == trim_end(s.subrange(0, k)),
    decreases s.len() - k,
{
    if k < s.len() {
        lemma_trim_end_cut(s.drop_last(), k);
        assert(s.drop_last().subrange(0, k) =~= s.subrange(0, k));
    } else {
        assert(s.subrange(0, k) =~= s);
    }
}

/// The characters of `s` without leading and trailing whitespace.
pub fn trim_chars(s: &Vec<char>) -> (r: Vec<char>)
    ensures
        r@ == trim(s@),
{
    let n = s.len();
    let mut start: usize = 0;
    while start < n && char_is_whitespace(s[start])
        invariant
            n == s.len(),
            start <= n,
            forall|j: int| 0 <= j < start ==> is_whitespace(#[trigger] s@[j]),
        decreases n - start,
    {
        start = start + 1;
    }
    proof {
        lemma_trim_start_skip(s@, start as int);
    }
    let ghost t = s@.subrange(start as int, n as int);
    assert(t.len() == 0 || !is_whitespace(t[0]));
    assert(trim_start(t) == t);
    let mut end: usize = n;
    while end > start && char_is_whitespace(s[end - 1])
        invariant
            n == s.len(),
            start <= end <= n,
            forall|j: int| end <= j < n ==> is_whitespace(#[trigger] s@[j]),
        decreases end,
    {
        end = end - 1;
    }
    proof {
        lemma_trim_end_cut(t, end - start);
        assert(t.subrange(0, end - start) =~= s@.subrange(start as int, end as int));
        let u = s@.subrange(start as int, end as int);
        assert(u.len() == 0 || !is_whitespace(u.last()));
        assert(trim_end(u) == u);
    }
    slice_chars(s, start, end)
}

/// The characters of `s` from index `from` up to, not including, `to`.
pub fn slice_chars(s: &Vec<char>, from: usize, to: usize) -> (r: Vec<char>)
    requires
        from <= to <= s.len(),
    ensures
        r@ == s@.subrange(from as int, to as int),
{
    let mut r: Vec<char> = Vec::new();
    let mut i: usize = from;
    while i < to
        invariant
            from <= i <= to <= s.len(),
            r@ == s@.subrange(from as int, i as int),
        decreases to - i,
    {
        r.push(s[i]);
        assert(r@ =~= s@.subrange(from as int, i + 1));
        i = i + 1;
    }
    r
}

/// Whether `p` occurs in `s` at index `i`.
pub open spec fn occurs_at(s: Seq<char>, p: Seq<char>, i: int) -> bool {
    0 <= i && i + p.len() <= s.len() && s.subrange(i, i + p.len()) == p
}

/// The first index at or after `i` where `p` occurs in `s`.
pub open spec fn find_from(s: Seq<char>, p: Seq<char>, i: int) -> Option<int>
    decreases s.len() + 1 - i,
{
    if i < 0 || i + p.len() > s.len() {
        None
    } else if occurs_at(s, p, i) {
        Some(i)
    } else {
        find_from(s, p, i + 1)
    }
}

/// The first index where `p` occurs in `s`, as `str::find` reports it.
pub open spec fn find(s: Seq<char>, p: Seq<char>) -> Option<int> {
    find_from(s, p, 0)
}

/// What a search result tells: where the match is and that no earlier one exists.
pub proof fn lemma_find_from(s: Seq<char>, p: Seq<char>, i: int)
    ensures
        find_from(s, p, i) matches Some(k) ==> i <= k && occurs_at(s, p, k) && forall|j: int|
            i <= j < k ==> !occurs_at(s, p, j),
        find_from(s, p, i) is None && 0 <= i ==> forall|j: int| i <= j ==> !occurs_at(s, p, j),
    decreases s.len() + 1 - i,
{
    if i < 0 || i + p.len() > s.len() {
    } else if occurs_at(s, p, i) {
    } else {
        lemma_find_from(s, p, i + 1);
    }
}

/// The first occurrence found from `i` is at `q` when `p` occurs at `q` and
/// nowhere between `i` and `q`.
pub proof fn lemma_find_from_is(s: Seq<char>, p: Seq<char>, i: int, q: int)
    requires
        0 <= i <= q,
        occurs_at(s, p, q),
        forall|j: int| i <= j < q ==> !occurs_at(s, p, j),
    ensures
        find_from(s, p, i) == Some(q),
    decreases q - i,
{
    if i < q {
        lemma_find_from_is(s, p, i + 1, q);
    }
}

/// No occurrence is found from `i` when `p` occurs nowhere from `i` on.
pub proof fn lemma_find_from_none(s: Seq<char>, p: Seq<char>, i: int)
    requires
        0 <= i,
        forall|j: int| i <= j ==> !occurs_at(s, p, j),
    ensures
        find_from(s, p, i) is None,
    decreases s.len() + 1 - i,
{
    if i + p.len() <= s.len() {
        lemma_find_from_none(s, p, i + 1);
    }
}

/// Whether `c` occurs nowhere in `s`.
pub open spec fn lacks_char(s: Seq<char>, c: char) -> bool {
    forall|i: int| 0 <= i < s.len() ==> s[i] != c
}

/// An occurrence at `j` begins with the pattern's first two characters.
pub proof fn lemma_occurs_at_head(s: Seq<char>, p: Seq<char>, j: int)
    requires
        p.len() >= 2,
        occurs_at(s, p, j),
    ensures
        s[j] == p[0],
        s[j + 1] == p[1],
{
    assert(s.subrange(j, j + p.len())[0] == p[0]);
    assert(s.subrange(j, j + p.len())[1] == p[1]);
}

/// Whether `s` holds `a` at `j` and `b` just after it.
pub open spec fn pair_at(s: Seq<char>, j: int, a: char, b: char) -> bool {
    s[j] == a && s[j + 1] == b
}

/// The first occurrence from `from` of a pattern of two or more characters is at
/// `q` when it occurs there and no earlier position holds its first two characters.
pub proof fn lemma_find_from_at(s: Seq<char>, p: Seq<char>, from: int, q: int)
    requires
        0 <= from <= q,
        p.len() >= 2,
        q + p.len() <= s.len(),
        s.subrange(q, q + p.len()) == p,
        forall|j: int| from <= j < q ==> !#[trigger] pair_at(s, j, p[0], p[1]),
    ensures
        find_from(s, p, from) == Some(q),
{
    assert forall|j: int| from <= j < q implies !occurs_at(s, p, j) by {
        if occurs_at(s, p, j) {
            lemma_occurs_at_head(s, p, j);
            assert(pair_at(s, j, p[0], p[1]));
        }
    }
    lemma_find_from_is(s, p, from, q);
}

/// The first occurrence from `from` of the character `c` is at `q` when `s`
/// holds `c` there and nowhere between.
pub proof fn lemma_find_char_from_at(s: Seq<char>, c: char, from: int, q: int)
    requires
        0 <= from <= q < s.len(),
        s[q] == c,
        forall|j: int| from <= j < q ==> s[j] != c,
    ensures
        find_from(s, seq![c], from) == Some(q),
{
    assert(s.subrange(q, q + 1) =~= seq![c]);
    assert forall|j: int| from <= j < q implies !occurs_at(s, seq![c], j) by {
        if occurs_at(s, seq![c], j) {
            assert(s.subrange(j, j + 1)[0] == s[j]);
        }
    }
    lemma_find_from_is(s, seq![c], from, q);
}

/// Whether `p` occurs in `s` at index `i`, computed.
fn chars_occur_at(s: &Vec<char>, p: &Vec<char>, i: usize) -> (r: bool)
    requires
        i + p.len() <= s.len(),
    ensures
        r == occurs_at(s@, p@, i as int),
{
    let mut k: usize = 0;
    while k < p.len()
        invariant
            i + p.len() <= s.len(),
            k <= p.len(),
            forall|j: int| 0 <= j < k ==> s@[i + j] == p@[j],
        decreases p.len() - k,
    {
        if s[i + k] != p[k] {
            assert(s@.subrange(i as int, i + p.len())[k as int] != p@[k as int]);
            return false;
        }
        k = k + 1;
    }
    assert(s@.subrange(i as int, i + p.len()) =~= p@);
    true
}

/// The first index at or after `from` where `p` occurs in `s`.
pub fn find_chars_from(s: &Vec<char>, p: &Vec<char>, from: usize) -> (r: Option<usize>)
    ensures
        match r {
            Some(k) => find_from(s@, p@, from as int) == Some(k as int) && from <= k && k + p.len()
                <= s.len(),
            None => find_from(s@, p@, from as int) is None,
        },
{
    proof {
        lemma_find_from(s@, p@, from as int);
    }
    let mut i: usize = from;
    if p.len() > s.len() {
        assert(find_from(s@, p@, from as int) is None);
        return None;
    }
    let last = s.len() - p.len();
    if i > last {
        assert(find_from(s@, p@, from as int) is None);
        return None;
    }
    loop
        invariant
            last + p.len() == s.len(),
            from <= i <= last,
            find_from(s@, p@, from as int) == find_from(s@, p@, i as int),
        decreases last - i,
    {
        if chars_occur_at(s, p, i) {
            return Some(i);
        }
        if i == last {
            assert(find_from(s@, p@, i + 1) is None);
            return None;
        }
        i = i + 1;
    }
}

/// The first index where `p` occurs in `s`.
pub fn find_chars(s: &Vec<char>, p: &Vec<char>) -> (r: Option<usize>)
    ensures
        match r {
            Some(k) => find(s@, p@) == Some(k as int) && k + p.len() <= s.len(),
            None => find(s@, p@) is None,
        },
{
    find_chars_from(s, p, 0)
}

/// The decimal digit for `d`.
pub open spec fn digit_char(d: nat) -> char {
    if d == 0 {
        '0'
    } else if d == 1 {
        '1'
    } else if d == 2 {
        '2'
    } else if d == 3 {
        '3'
    } else if d == 4 {
        '4'
    } else if d == 5 {
        '5'
    } else if d == 6 {
        '6'
    } else if d == 7 {
        '7'
    } else if d == 8 {
        '8'
    } else {
        '9'
    }
}

/// The decimal notation of `n`, as `to_string` writes it.
pub open spec fn decimal(n: nat) -> Seq<char>
    decreases n,
{
    if n < 10 {
        seq![digit_char(n)]
    } else {
        decimal(n / 10).push(digit_char(n % 10))
    }
}

/// Decimal digits hold no `<`.
pub proof fn lemma_decimal_lacks_lt(n: nat)
    ensures
        lacks_char(decimal(n), '<'),
    decreases n,
{
    if n >= 10 {
        lemma_decimal_lacks_lt(n / 10);
    }
}

fn digit(d: u64) -> (c: char)
    requires
        d < 10,
    ensures
        c == digit_char(d as nat),
{
    if d == 0 {
        '0'
    } else if d == 1 {
        '1'
    } else if d == 2 {
        '2'
    } else if d == 3 {
        '3'
    } else if d == 4 {
        '4'
    } else if d == 5 {
        '5'
    } else if d == 6 {
        '6'
    } else if d == 7 {
        '7'
    } else if d == 8 {
        '8'
    } else {
        '9'
    }
}

/// Appends the decimal notation of `n` to `out`.
pub fn push_decimal(out: &mut Vec<char>, n: u64)
    ensures
        final(out)@ == old(out)@ + decimal(n as nat),
    decreases n,
{
    if n >= 10 {
        push_decimal(out, n / 10);
    }
    out.push(digit(n % 10));
    assert(final(out)@ =~= old(out)@ + decimal(n as nat));
}

/// Appends the characters of `s` to `out`.
pub fn push_str(out: &mut Vec<char>, s: &str)
    ensures
        final(out)@ == old(out)@ + s@,
{
    let n = s.unicode_len();
    let mut i: usize = 0;
    let ghost start = out@;
    while i < n
        invariant
            n == s@.len(),
            i <= n,
            out@ == start + s@.subrange(0, i as int),
        decreases n - i,
    {
        out.push(s.get_char(i));
        assert(out@ =~= start + s@.subrange(0, i + 1));
        i = i + 1;
    }
    assert(s@.subrange(0, n as int) =~= s@);
}

/// Appends `v` to `out`.
pub fn push_chars(out: &mut Vec<char>, v: &Vec<char>)
    ensures
        final(out)@ == old(out)@ + v@,
{
    let mut i: usize = 0;
    let ghost start = out@;
    while i < v.len()
        invariant
            i <= v.len(),
            out@ == start + v@.subrange(0, i as int),
        decreases v.len() - i,
    {
        out.push(v[i]);
        assert(out@ =~= start + v@.subrange(0, i + 1));
        i = i + 1;
    }
    assert(v@.subrange(0, v.len() as int) =~= v@);
}

/// The view of an optional string.
pub open spec fn opt_view(o: Option<String>) -> Option<Seq<char>> {
    match o {
        Some(s) => Some(s@),
        None => None,
    }
}

/// Where the last path component of `p` starts: just after its last `/`, or 0.
pub open spec fn component_start(p: Seq<char>) -> int
    decreases p.len(),
{
    if p.len() == 0 {
        0
    } else if p.last() == '/' {
        p.len() as int
    } else {
        component_start(p.drop_last())
    }
}

/// The final component of a Unix path, as `Path::file_name` gives it: trailing
/// separators and `.` components are passed over; a path that ends in `..`, or
/// has no component left, has none.
pub open spec fn file_name(p: Seq<char>) -> Option<Seq<char>>
    decreases p.len(),
{
    if p.len() == 0 {
        None
    } else if p.last() == '/' {
        file_name(p.drop_last())
    } else {
        let start = component_start(p);
        let c = p.subrange(start, p.len() as int);
        if c == seq!['.'] {
            if 0 <= start < p.len() {
                file_name(p.subrange(0, start))
            } else {
                None
            }
        } else if c == seq!['.', '.'] {
            None
        } else {
            Some(c)
        }
    }
}

proof fn lemma_component_start_bounds(p: Seq<char>)
    ensures
        0 <= component_start(p) <= p.len(),
        p.len() > 0 && p.last() != '/' ==> component_start(p) < p.len(),
        component_start(p) > 0 ==> p[component_start(p) - 1] == '/',
        forall|i: int| component_start(p) <= i < p.len() ==> p[i] != '/',
    decreases p.len(),
{
    if p.len() > 0 && p.last() != '/' {
        lemma_component_start_bounds(p.drop_last());
        assert forall|i: int| component_start(p) <= i < p.len() implies p[i] != '/' by {
            if i < p.len() - 1 {
                assert(p.drop_last()[i] == p[i]);
            }
        }
    }
}

/// A name without separators that follows a separator (or starts the path) is
/// where the last component starts.
proof fn lemma_component_start_after_separator(q: Seq<char>, c: Seq<char>)
    requires
        q.len() == 0 || q.last() == '/',
        forall|i: int| 0 <= i < c.len() ==> c[i] != '/',
    ensures
        component_start(q + c) == q.len(),
    decreases c.len(),
{
    if c.len() > 0 {
        assert((q + c).drop_last() =~= q + c.drop_last());
        lemma_component_start_after_separator(q, c.drop_last());
    } else {
        assert(q + c =~= q);
    }
}

/// A plain name (not empty, no `/`, neither `.` nor `..`) placed after a
/// separator, or alone, is the file name of the path.
pub proof fn lemma_file_name_of_plain_name(q: Seq<char>, c: Seq<char>)
    requires
        q.len() == 0 || q.last() == '/',
        c.len() > 0,
        forall|i: int| 0 <= i < c.len() ==> c[i] != '/',
        c != seq!['.'],
        c != seq!['.', '.'],
    ensures
        file_name(q + c) == Some(c),
{
    lemma_component_start_after_separator(q, c);
    let p = q + c;
    assert(p.last() == c[c.len() - 1]);
    assert(p.subrange(q.len() as int, p.len() as int) =~= c);
}

/// The final component of the Unix path `p`, as `Path::file_name` gives it.
pub fn path_file_name(p: &Vec<char>) -> (r: Option<Vec<char>>)
    ensures
        match r {
            Some(v) => file_name(p@) == Some(v@),
            None => file_name(p@) is None,
        },
{
    let mut end: usize = p.len();
    assert(p@.subrange(0, end as int) =~= p@);
    loop
        invariant
            end <= p.len(),
            file_name(p@) == file_name(p@.subrange(0, end as int)),
        decreases end,
    {
        let ghost end0 = end;
        while end > 0 && p[end - 1] == '/'
            invariant
                end <= end0 <= p.len(),
                file_name(p@) == file_name(p@.subrange(0, end as int)),
            decreases end,
        {
            assert(p@.subrange(0, end as int).drop_last() =~= p@.subrange(0, end - 1));
            end = end - 1;
        }
        if end == 0 {
            return None;
        }
        let ghost q = p@.subrange(0, end as int);
        let mut start: usize = end;
        while start > 0 && p[start - 1] != '/'
            invariant
                start <= end <= end0 <= p.len(),
                end > 0,
                q == p@.subrange(0, end as int),
                q.last() != '/',
                component_start(q) == component_start(p@.subrange(0, start as int)),
            decreases start,
        {
            assert(p@.subrange(0, start as int).drop_last() =~= p@.subrange(0, start - 1));
            start = start - 1;
        }
        proof {
            lemma_component_start_bounds(q);
            assert(component_start(q) == start);
        }
        let comp = slice_chars(p, start, end);
        proof {
            assert(comp@ =~= q.subrange(start as int, q.len() as int));
        }
        if comp.len() == 1 && comp[0] == '.' {
            proof {
                assert(comp@ =~= seq!['.']);
                assert(q.subrange(0, start as int) =~= p@.subrange(0, start as int));
            }
            end = start;
        } else if comp.len() == 2 && comp[0] == '.' && comp[1] == '.' {
            proof {
                assert(comp@ =~= seq!['.', '.']);
            }
            return None;
        } else {
            proof {
                assert(comp@ != seq!['.']);
                assert(comp@ != seq!['.', '.']);
            }
            return Some(comp);
        }
    }
}

} // verus!
