use vstd::prelude::*;
use vstd::string::*;

verus! {

/// The Unicode `White_Space` set, which is what `char::is_whitespace` tests.
pub open spec fn is_space(c: char) -> bool {
    let u = c as u32;
    (0x9 <= u && u <= 0xd) || u == 0x20 || u == 0x85 || u == 0xa0 || u == 0x1680 || (0x2000
        <= u && u <= 0x200a) || u == 0x2028 || u == 0x2029 || u == 0x202f || u == 0x205f || u
        == 0x3000
}

pub open spec fn trim_start(s: Seq<char>) -> Seq<char>
    decreases s.len(),
{
    if s.len() > 0 && is_space(s[0]) {
        trim_start(s.drop_first())
    } else {
        s
    }
}

pub open spec fn trim_end(s: Seq<char>) -> Seq<char>
    decreases s.len(),
{
    if s.len() > 0 && is_space(s.last()) {
        trim_end(s.drop_last())
    } else {
        s
    }
}

/// `s` without its leading and trailing white space.
pub open spec fn trimmed(s: Seq<char>) -> Seq<char> {
    trim_end(trim_start(s))
}

pub open spec fn has_prefix(s: Seq<char>, p: Seq<char>) -> bool {
    p.len() <= s.len() && s.subrange(0, p.len() as int) == p
}

pub open spec fn occurs_at(s: Seq<char>, p: Seq<char>, k: int) -> bool {
    0 <= k && k + p.len() <= s.len() && s.subrange(k, k + p.len()) == p
}

pub open spec fn has_infix(s: Seq<char>, p: Seq<char>) -> bool {
    exists|k: int| occurs_at(s, p, k)
}

/// The first position at or after `i` that holds `c`, or the length of `s` if none does.
pub open spec fn next_index(s: Seq<char>, c: char, i: int) -> int
    decreases s.len() - i,
{
    if i >= s.len() || s[i] == c {
        i
    } else {
        next_index(s, c, i + 1)
    }
}

pub proof fn lemma_next_index(s: Seq<char>, c: char, i: int)
    ensures
        i <= next_index(s, c, i),
        i <= s.len() ==> next_index(s, c, i) <= s.len(),
        0 <= i ==> forall|k: int| i <= k < next_index(s, c, i) ==> s[k] != c,
        0 <= i && next_index(s, c, i) < s.len() ==> s[next_index(s, c, i)] == c,
    decreases s.len() - i,
{
    if i < s.len() && s[i] != c {
        lemma_next_index(s, c, i + 1);
    }
}

pub fn is_space_char(c: char) -> (r: bool)
    ensures
        r == is_space(c),
{
    let u = c as u32;
    (0x9 <= u && u <= 0xd) || u == 0x20 || u == 0x85 || u == 0xa0 || u == 0x1680 || (0x2000
        <= u && u <= 0x200a) || u == 0x2028 || u == 0x2029 || u == 0x202f || u == 0x205f || u
        == 0x3000
}

/// Removes the leading and trailing white space of `s`.
pub fn trim(s: &str) -> (r: &str)
    ensures
        r@ == trimmed(s@),
{
    let n = s.unicode_len();
    let mut i: usize = 0;
    assert(s@.subrange(0, n as int) =~= s@);
    while i < n && is_space_char(s.get_char(i))
        invariant
            i <= n,
            n == s@.len(),
            trim_start(s@) == trim_start(s@.subrange(i as int, n as int)),
        decreases n - i,
    {
        assert(s@.subrange(i as int, n as int).drop_first() =~= s@.subrange(i + 1, n as int));
        i += 1;
    }
    assert(trim_start(s@.subrange(i as int, n as int)) == s@.subrange(i as int, n as int));
    let mut j: usize = n;
    while j > i && is_space_char(s.get_char(j - 1))
        invariant
            i <= j <= n,
            n == s@.len(),
            trimmed(s@) == trim_end(s@.subrange(i as int, j as int)),
        decreases j - i,
    {
        assert(s@.subrange(i as int, j as int).drop_last() =~= s@.subrange(i as int, j - 1));
        j -= 1;
    }
    s.substring_char(i, j)
}

/// Whether `p` stands in `s` at position `k`.
pub fn matches_at(s: &str, p: &str, k: usize) -> (r: bool)
    ensures
        r == occurs_at(s@, p@, k as int),
{
    let n = s.unicode_len();
    let m = p.unicode_len();
    if k > n || m > n - k {
        return false;
    }
    let mut t: usize = 0;
    while t < m
        invariant
            k + m <= n,
            n == s@.len(),
            m == p@.len(),
            t <= m,
            forall|u: int| 0 <= u < t ==> s@[k + u] == p@[u],
        decreases m - t,
    {
        if s.get_char(k + t) != p.get_char(t) {
            assert(s@.subrange(k as int, k + m)[t as int] != p@[t as int]);
            return false;
        }
        t += 1;
    }
    assert(s@.subrange(k as int, k + m) =~= p@);
    true
}

pub fn starts_with(s: &str, p: &str) -> (r: bool)
    ensures
        r == has_prefix(s@, p@),
{
    matches_at(s, p, 0)
}

pub fn contains(s: &str, p: &str) -> (r: bool)
    ensures
        r == has_infix(s@, p@),
{
    let n = s.unicode_len();
    let mut k: usize = 0;
    while k < n
        invariant
            k <= n,
            n == s@.len(),
            forall|u: int| 0 <= u < k ==> !occurs_at(s@, p@, u),
        decreases n - k,
    {
        if matches_at(s, p, k) {
            return true;
        }
        k += 1;
    }
    if matches_at(s, p, n) {
        return true;
    }
    assert forall|u: int| !occurs_at(s@, p@, u) by {
        if 0 <= u && u + p@.len() <= s@.len() {
            assert(u <= n);
        }
    }
    false
}

/// Whether `a` and `b` hold the same characters.
pub fn same_text(a: &str, b: &str) -> (r: bool)
    ensures
        r == (a@ == b@),
{
    if a.unicode_len() != b.unicode_len() {
        return false;
    }
    assert(a@ =~= a@.subrange(0, b@.len() as int));
    matches_at(a, b, 0)
}

/// The part of `s` after its first `m` characters.
pub fn skip_chars(s: &str, m: usize) -> (r: &str)
    requires
        m <= s@.len(),
    ensures
        r@ == s@.subrange(m as int, s@.len() as int),
{
    let n = s.unicode_len();
    s.substring_char(m, n)
}

/// The end of the line that starts at `i`: the next newline, or the end of `s`.
pub fn line_end_at(s: &str, n: usize, i: usize) -> (e: usize)
    requires
        n == s@.len(),
        i <= n,
    ensures
        e as int == next_index(s@, '\n', i as int),
        i <= e <= n,
{
    proof {
        lemma_next_index(s@, '\n', i as int);
    }
    let mut e: usize = i;
    while e < n && s.get_char(e) != '\n'
        invariant
            i <= e <= n,
            n == s@.len(),
            next_index(s@, '\n', e as int) == next_index(s@, '\n', i as int),
        decreases n - e,
    {
        e += 1;
    }
    e
}

/// The parts, with `sep` between each two.
pub open spec fn joined(parts: Seq<Seq<char>>, sep: Seq<char>) -> Seq<char>
    decreases parts.len(),
{
    if parts.len() == 0 {
        Seq::empty()
    } else if parts.len() == 1 {
        parts[0]
    } else {
        joined(parts.drop_last(), sep) + sep + parts.last()
    }
}

/// The parts, with `sep` between each two.
pub fn join(parts: &Vec<String>, sep: &str) -> (r: String)
    ensures
        r@ == joined(parts.deep_view(), sep@),
{
    let mut out = String::new();
    let mut k: usize = 0;
    while k < parts.len()
        invariant
            k <= parts.len(),
            out@ == joined(parts.deep_view().take(k as int), sep@),
        decreases parts.len() - k,
    {
        let ghost all = parts.deep_view();
        assert(all.take(k + 1).drop_last() =~= all.take(k as int));
        if k > 0 {
            out.append(sep);
        } else {
            assert(Seq::<char>::empty() + parts[0 as int]@ =~= parts[0 as int]@);
        }
        out.append(parts[k].as_str());
        k += 1;
    }
    assert(parts.deep_view().take(k as int) =~= parts.deep_view());
    out
}

} // verus!
