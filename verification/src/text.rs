//! Text primitives of the console protocol, stated over sequences of characters.

use vstd::prelude::*;

verus! {

/// Whether `c` has the Unicode property `White_Space`.
pub open spec fn is_whitespace(c: char) -> bool {
    let n = c as u32;
    ||| 0x09 <= n <= 0x0D
    ||| n == 0x20
    ||| n == 0x85
    ||| n == 0xA0
    ||| n == 0x1680
    ||| 0x2000 <= n <= 0x200A
    ||| n == 0x2028
    ||| n == 0x2029
    ||| n == 0x202F
    ||| n == 0x205F
    ||| n == 0x3000
}

/// `s` without its leading whitespace.
pub open spec fn trim_start(s: Seq<char>) -> Seq<char>
    decreases s.len(),
{
    if s.len() > 0 && is_whitespace(s[0]) {
        trim_start(s.drop_first())
    } else {
        s
    }
}

/// `s` without its trailing whitespace.
pub open spec fn trim_end(s: Seq<char>) -> Seq<char>
    decreases s.len(),
{
    if s.len() > 0 && is_whitespace(s.last()) {
        trim_end(s.drop_last())
    } else {
        s
    }
}

/// `s` without the whitespace that surrounds it.
pub open spec fn trim(s: Seq<char>) -> Seq<char> {
    trim_end(trim_start(s))
}

/// How often `c` occurs in `s`.
pub open spec fn count(s: Seq<char>, c: char) -> nat
    decreases s.len(),
{
    if s.len() == 0 {
        0
    } else {
        count(s.drop_last(), c) + if s.last() == c {
            1nat
        } else {
            0nat
        }
    }
}

/// The index of the first `x` in `s`, or the length of `s` where there is none.
pub open spec fn position<T>(s: Seq<T>, x: T) -> nat
    decreases s.len(),
{
    if s.len() == 0 || s[0] == x {
        0
    } else {
        1 + position(s.drop_first(), x)
    }
}

/// Whether `needle` occurs in `s` as a contiguous run.
pub open spec fn occurs_in(needle: Seq<char>, s: Seq<char>) -> bool {
    exists|i: int| occurs_at(needle, s, i)
}

/// Whether `needle` occurs in `s` starting at index `i`.
pub open spec fn occurs_at(needle: Seq<char>, s: Seq<char>, i: int) -> bool {
    0 <= i && i + needle.len() <= s.len() && s.subrange(i, i + needle.len()) == needle
}

/// How many whitespace characters `s` begins with.
pub open spec fn leading(s: Seq<char>) -> nat
    decreases s.len(),
{
    if s.len() > 0 && is_whitespace(s[0]) {
        1 + leading(s.drop_first())
    } else {
        0
    }
}

/// How many whitespace characters `s` ends with.
pub open spec fn trailing(s: Seq<char>) -> nat
    decreases s.len(),
{
    if s.len() > 0 && is_whitespace(s.last()) {
        1 + trailing(s.drop_last())
    } else {
        0
    }
}

/// `trim_start` drops the leading whitespace, all of it and nothing else.
pub proof fn lemma_trim_start(s: Seq<char>)
    ensures
        leading(s) <= s.len(),
        trim_start(s) == s.skip(leading(s) as int),
        forall|i: int| 0 <= i < leading(s) ==> is_whitespace(s[i]),
        leading(s) < s.len() ==> !is_whitespace(s[leading(s) as int]),
    decreases s.len(),
{
    if s.len() > 0 && is_whitespace(s[0]) {
        let rest = s.drop_first();
        lemma_trim_start(rest);
        assert(rest.skip(leading(rest) as int) == s.skip(leading(s) as int));
        assert forall|i: int| 0 <= i < leading(s) implies is_whitespace(s[i]) by {
            if i > 0 {
                assert(s[i] == rest[i - 1]);
            }
        }
        if leading(s) < s.len() {
            assert(s[leading(s) as int] == rest[leading(rest) as int]);
        }
    } else {
        assert(s.skip(0) == s);
    }
}

/// `trim_end` drops the trailing whitespace, all of it and nothing else.
pub proof fn lemma_trim_end(s: Seq<char>)
    ensures
        trailing(s) <= s.len(),
        trim_end(s) == s.take(s.len() - trailing(s)),
        forall|i: int| s.len() - trailing(s) <= i < s.len() ==> is_whitespace(s[i]),
        trailing(s) < s.len() ==> !is_whitespace(s[s.len() - trailing(s) - 1]),
    decreases s.len(),
{
    if s.len() > 0 && is_whitespace(s.last()) {
        let rest = s.drop_last();
        lemma_trim_end(rest);
        assert(rest.take(rest.len() - trailing(rest)) == s.take(s.len() - trailing(s)));
        assert forall|i: int| s.len() - trailing(s) <= i < s.len() implies is_whitespace(
            s[i],
        ) by {
            if i < s.len() - 1 {
                assert(s[i] == rest[i]);
            }
        }
        if trailing(s) < s.len() {
            assert(s[s.len() - trailing(s) - 1] == rest[rest.len() - trailing(rest) - 1]);
        }
    } else {
        assert(s.take(s.len() as int) == s);
    }
}

/// The leading whitespace of `s` is its first `k` characters when these are
/// whitespace and the next one is not.
pub proof fn lemma_leading(s: Seq<char>, k: int)
    requires
        0 <= k <= s.len(),
        forall|i: int| 0 <= i < k ==> is_whitespace(s[i]),
        k < s.len() ==> !is_whitespace(s[k]),
    ensures
        leading(s) == k,
    decreases s.len(),
{
    if k > 0 {
        lemma_leading(s.drop_first(), k - 1);
    }
}

/// The trailing whitespace of `s` is its last `k` characters when these are
/// whitespace and the one before them is not.
pub proof fn lemma_trailing(s: Seq<char>, k: int)
    requires
        0 <= k <= s.len(),
        forall|i: int| s.len() - k <= i < s.len() ==> is_whitespace(s[i]),
        k < s.len() ==> !is_whitespace(s[s.len() - k - 1]),
    ensures
        trailing(s) == k,
    decreases s.len(),
{
    if k > 0 {
        lemma_trailing(s.drop_last(), k - 1);
    }
}

/// `count` adds up over the parts of a sequence.
pub proof fn lemma_count_concat(a: Seq<char>, b: Seq<char>, c: char)
    ensures
        count(a + b, c) == count(a, c) + count(b, c),
    decreases b.len(),
{
    if b.len() == 0 {
        assert(a + b == a);
    } else {
        assert((a + b).drop_last() == a + b.drop_last());
        lemma_count_concat(a, b.drop_last(), c);
    }
}

/// A sequence without `c` counts none.
pub proof fn lemma_count_none(s: Seq<char>, c: char)
    requires
        forall|i: int| 0 <= i < s.len() ==> s[i] != c,
    ensures
        count(s, c) == 0,
    decreases s.len(),
{
    if s.len() > 0 {
        lemma_count_none(s.drop_last(), c);
    }
}

/// A sequence that counts no `c` holds none.
pub proof fn lemma_count_absent(s: Seq<char>, c: char)
    requires
        count(s, c) == 0,
    ensures
        forall|i: int| 0 <= i < s.len() ==> s[i] != c,
    decreases s.len(),
{
    if s.len() > 0 {
        lemma_count_absent(s.drop_last(), c);
        assert forall|i: int| 0 <= i < s.len() implies s[i] != c by {
            if i < s.len() - 1 {
                assert(s[i] == s.drop_last()[i]);
            }
        }
    }
}

/// Trimming keeps every character that is no whitespace.
pub proof fn lemma_count_trim(s: Seq<char>, c: char)
    requires
        !is_whitespace(c),
    ensures
        count(trim(s), c) == count(s, c),
{
    let t = trim_start(s);
    lemma_trim_start(s);
    lemma_trim_end(t);
    let head = s.take(leading(s) as int);
    let tail = t.skip(t.len() - trailing(t));
    assert(s == head + t);
    assert(t == trim(s) + tail);
    lemma_count_none(head, c);
    lemma_count_none(tail, c);
    lemma_count_concat(head, t, c);
    lemma_count_concat(trim(s), tail, c);
}

/// Decides `is_whitespace`.
pub fn whitespace(c: char) -> (r: bool)
    ensures
        r == is_whitespace(c),
{
    let n: u32 = c as u32;
    (0x09 <= n && n <= 0x0D) || n == 0x20 || n == 0x85 || n == 0xA0 || n == 0x1680 || (0x2000 <= n
        && n <= 0x200A) || n == 0x2028 || n == 0x2029 || n == 0x202F || n == 0x205F || n == 0x3000
}

/// The characters of `s`, in order.
pub fn characters(s: &str) -> (r: Vec<char>)
    ensures
        r@ == s@,
{
    let mut r: Vec<char> = Vec::new();
    for c in it: s.chars()
        invariant
            it.seq() == s@,
            r@ == it.seq().take(it.index() as int),
    {
        r.push(c);
    }
    r
}

/// The bounds of `trim` applied to the part of `s` between `from` and `to`.
pub fn trim_bounds(s: &Vec<char>, from: usize, to: usize) -> (r: (usize, usize))
    requires
        from <= to <= s.len(),
    ensures
        from <= r.0 <= r.1 <= to,
        r.0 == from + leading(s@.subrange(from as int, to as int)),
        s@.subrange(r.0 as int, r.1 as int) == trim(s@.subrange(from as int, to as int)),
{
    let ghost part = s@.subrange(from as int, to as int);
    let mut a: usize = from;
    while a < to && whitespace(s[a])
        invariant
            from <= a <= to <= s.len(),
            part == s@.subrange(from as int, to as int),
            forall|k: int| 0 <= k < a - from ==> is_whitespace(part[k]),
            trim_start(part) == trim_start(s@.subrange(a as int, to as int)),
        decreases to - a,
    {
        assert(s@.subrange(a as int, to as int).drop_first() == s@.subrange(a + 1, to as int));
        a += 1;
    }
    proof {
        lemma_leading(part, a - from);
    }
    let mut b: usize = to;
    while b > a && whitespace(s[b - 1])
        invariant
            a <= b <= to <= s.len(),
            trim_end(s@.subrange(a as int, to as int)) == trim_end(s@.subrange(a as int, b as int)),
        decreases b - a,
    {
        assert(s@.subrange(a as int, b as int).drop_last() == s@.subrange(a as int, b - 1));
        b -= 1;
    }
    (a, b)
}

/// Whether the part of `s` between `from` and `to` ends with `suffix`.
pub fn ends_with(s: &Vec<char>, from: usize, to: usize, suffix: &Vec<char>) -> (r: bool)
    requires
        from <= to <= s.len(),
    ensures
        r == suffix@.is_suffix_of(s@.subrange(from as int, to as int)),
{
    let n: usize = suffix.len();
    if n > to - from {
        return false;
    }
    let start: usize = to - n;
    let ghost part = s@.subrange(from as int, to as int);
    let ghost tail = part.subrange(part.len() - n, part.len() as int);
    let mut i: usize = 0;
    while i < n
        invariant
            i <= n,
            n == suffix.len(),
            start + n == to,
            from <= start,
            to <= s.len(),
            part == s@.subrange(from as int, to as int),
            tail == part.subrange(part.len() - n, part.len() as int),
            forall|k: int| 0 <= k < i ==> suffix@[k] == tail[k],
        decreases n - i,
    {
        if s[start + i] != suffix[i] {
            assert(tail[i as int] != suffix@[i as int]);
            return false;
        }
        i += 1;
    }
    assert(suffix@ =~= tail);
    true
}

/// Whether `needle` occurs in `s`.
pub fn contains(s: &Vec<char>, needle: &Vec<char>) -> (r: bool)
    ensures
        r == occurs_in(needle@, s@),
{
    let n: usize = needle.len();
    if n > s.len() {
        assert(forall|i: int| !occurs_at(needle@, s@, i));
        return false;
    }
    let last: usize = s.len() - n;
    let mut i: usize = 0;
    while i <= last
        invariant
            i <= last + 1,
            n == needle.len(),
            last + n == s.len(),
            forall|k: int| 0 <= k < i ==> !occurs_at(needle@, s@, k),
        decreases last + 1 - i,
    {
        let mut j: usize = 0;
        while j < n && s[i + j] == needle[j]
            invariant
                j <= n,
                n == needle.len(),
                i + n <= s.len(),
                forall|k: int| 0 <= k < j ==> s@[i + k] == needle@[k],
            decreases n - j,
        {
            j += 1;
        }
        if j == n {
            assert(s@.subrange(i as int, i + n) =~= needle@);
            assert(occurs_at(needle@, s@, i as int));
            return true;
        }
        assert(s@.subrange(i as int, i + n)[j as int] != needle@[j as int]);
        i += 1;
    }
    assert(forall|k: int| !occurs_at(needle@, s@, k));
    false
}

/// What one more character at the end adds to `count`.
pub proof fn lemma_count_push(s: Seq<char>, x: char, c: char)
    ensures
        count(s.push(x), c) == count(s, c) + if x == c {
            1nat
        } else {
            0nat
        },
{
    assert(s.push(x).drop_last() == s);
}

/// The first `x` in `s` stands at `i` when no earlier element is `x`.
pub proof fn lemma_position<T>(s: Seq<T>, x: T, i: int)
    requires
        0 <= i <= s.len(),
        forall|k: int| 0 <= k < i ==> s[k] != x,
        i < s.len() ==> s[i] == x,
    ensures
        position(s, x) == i,
    decreases s.len(),
{
    if i > 0 {
        lemma_position(s.drop_first(), x, i - 1);
    }
}

/// The first `x` does stand at `position`, where there is one.
pub proof fn lemma_position_found<T>(s: Seq<T>, x: T)
    ensures
        position(s, x) <= s.len(),
        forall|k: int| 0 <= k < position(s, x) ==> s[k] != x,
        position(s, x) < s.len() ==> s[position(s, x) as int] == x,
    decreases s.len(),
{
    if s.len() > 0 && s[0] != x {
        let rest = s.drop_first();
        lemma_position_found(rest, x);
        assert forall|k: int| 0 <= k < position(s, x) implies s[k] != x by {
            if k > 0 {
                assert(s[k] == rest[k - 1]);
            }
        }
        if position(s, x) < s.len() {
            assert(s[position(s, x) as int] == rest[position(rest, x) as int]);
        }
    }
}

/// Counts `c` between `from` and `to`, and finds its first occurrence there.
pub fn scan(s: &Vec<char>, from: usize, to: usize, c: char) -> (r: (usize, usize))
    requires
        from <= to <= s.len(),
    ensures
        r.0 == count(s@.subrange(from as int, to as int), c),
        r.1 == from + position(s@.subrange(from as int, to as int), c),
        from <= r.1 <= to,
        r.0 > 0 <==> r.1 < to,
{
    let ghost part = s@.subrange(from as int, to as int);
    let mut n: usize = 0;
    let mut first: usize = to;
    let mut i: usize = from;
    while i < to
        invariant
            from <= i <= to <= s.len(),
            part == s@.subrange(from as int, to as int),
            n == count(part.take(i - from), c),
            n <= i - from,
            n == 0 ==> first == to && forall|k: int| 0 <= k < i - from ==> part[k] != c,
            n > 0 ==> from <= first < i && part[first - from] == c && forall|k: int|
                0 <= k < first - from ==> part[k] != c,
        decreases to - i,
    {
        proof {
            assert(part.take(i - from + 1) == part.take(i - from).push(part[i - from]));
            lemma_count_push(part.take(i - from), part[i - from], c);
        }
        if s[i] == c {
            if n == 0 {
                first = i;
            }
            n += 1;
        }
        i += 1;
    }
    proof {
        assert(part.take(to - from) == part);
        lemma_position(part, c, first - from);
    }
    (n, first)
}

} // verus!
