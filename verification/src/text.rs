//! Whitespace and trimming of text, as sequences of characters.

use vstd::prelude::*;
use vstd::string::*;

verus! {

/// The characters that count as blank space around an input: the Unicode
/// characters with the property `White_Space`.
pub open spec fn is_whitespace(c: char) -> bool {
    let u = c as u32;
    ||| 0x09 <= u <= 0x0D
    ||| u == 0x20
    ||| u == 0x85
    ||| u == 0xA0
    ||| u == 0x1680
    ||| 0x2000 <= u <= 0x200A
    ||| u == 0x2028
    ||| u == 0x2029
    ||| u == 0x202F
    ||| u == 0x205F
    ||| u == 0x3000
}

/// `s` without its leading whitespace.
pub open spec fn trim_start(s: Seq<char>) -> Seq<char>
    decreases s.len(),
{
    if s.len() > 0 && is_whitespace(s.first()) {
        trim_start(s.drop_first())
    } else {
        s
    }
}

/// `s` without its trailing whitespace.
pub open spec fn trim_end(s: Seq<char>) -> Seq<char>
    decreases s.len(),
{
    if s.len() > 0 && is_whitespace(s.last()) {
        trim_end(s.drop_last())
    } else {
        s
    }
}

/// `s` without its leading and trailing whitespace.
pub open spec fn trimmed(s: Seq<char>) -> Seq<char> {
    trim_end(trim_start(s))
}

/// Whether `t` is the stretch of `s` from position `a` up to `b`, with
/// nothing but whitespace before and after it, and with a character that is
/// not whitespace at either end.
pub open spec fn is_core_at(t: Seq<char>, s: Seq<char>, a: int, b: int) -> bool {
    &&& 0 <= a <= b <= s.len()
    &&& t == s.subrange(a, b)
    &&& forall|k: int| 0 <= k < a ==> is_whitespace(s[k])
    &&& forall|k: int| b <= k < s.len() ==> is_whitespace(s[k])
    &&& a < b ==> !is_whitespace(s[a]) && !is_whitespace(s[b - 1])
}

/// Whether `t` is `s` cut down to the stretch between its first and its last
/// character that is not whitespace.
pub open spec fn is_core_of(t: Seq<char>, s: Seq<char>) -> bool {
    exists|a: int, b: int| is_core_at(t, s, a, b)
}

/// Leading whitespace can be skipped before `trim_start` is applied.
proof fn lemma_trim_start_skips(s: Seq<char>, k: int)
    requires
        0 <= k <= s.len(),
        forall|j: int| 0 <= j < k ==> is_whitespace(s[j]),
    ensures
        trim_start(s) == trim_start(s.subrange(k, s.len() as int)),
    decreases k,
{
    if k == 0 {
        assert(s.subrange(0, s.len() as int) =~= s);
    } else {
        let rest = s.drop_first();
        lemma_trim_start_skips(rest, k - 1);
        assert(rest.subrange(k - 1, rest.len() as int) =~= s.subrange(k, s.len() as int));
    }
}

/// Trailing whitespace can be cut off before `trim_end` is applied.
proof fn lemma_trim_end_skips(s: Seq<char>, k: int)
    requires
        0 <= k <= s.len(),
        forall|j: int| k <= j < s.len() ==> is_whitespace(s[j]),
    ensures
        trim_end(s) == trim_end(s.subrange(0, k)),
    decreases s.len() - k,
{
    if k == s.len() {
        assert(s.subrange(0, k) =~= s);
    } else {
        let rest = s.drop_last();
        lemma_trim_end_skips(rest, k);
        assert(rest.subrange(0, k) =~= s.subrange(0, k));
    }
}

/// Where the text that `trim_start` keeps begins.
proof fn lemma_trim_start_bound(s: Seq<char>) -> (a: int)
    ensures
        0 <= a <= s.len(),
        trim_start(s) == s.subrange(a, s.len() as int),
        forall|k: int| 0 <= k < a ==> is_whitespace(s[k]),
        a < s.len() ==> !is_whitespace(s[a]),
    decreases s.len(),
{
    if s.len() > 0 && is_whitespace(s.first()) {
        let rest = s.drop_first();
        let a = lemma_trim_start_bound(rest);
        assert forall|k: int| 0 <= k < a + 1 implies is_whitespace(s[k]) by {
            if k > 0 {
                assert(s[k] == rest[k - 1]);
            }
        }
        a + 1
    } else {
        0
    }
}

/// Where the text that `trim_end` keeps ends.
proof fn lemma_trim_end_bound(s: Seq<char>) -> (b: int)
    ensures
        0 <= b <= s.len(),
        trim_end(s) == s.subrange(0, b),
        forall|k: int| b <= k < s.len() ==> is_whitespace(s[k]),
        0 < b ==> !is_whitespace(s[b - 1]),
    decreases s.len(),
{
    if s.len() > 0 && is_whitespace(s.last()) {
        let rest = s.drop_last();
        let b = lemma_trim_end_bound(rest);
        assert forall|k: int| b <= k < s.len() implies is_whitespace(s[k]) by {
            if k < rest.len() {
                assert(s[k] == rest[k]);
            }
        }
        b
    } else {
        s.len() as int
    }
}

/// Trimming cuts `s` down to the stretch between its first and its last
/// character that is not whitespace, and to nothing where it has none.
pub proof fn lemma_trimmed_is_core(s: Seq<char>)
    ensures
        is_core_of(trimmed(s), s),
{
    let a = lemma_trim_start_bound(s);
    let tail = s.subrange(a, s.len() as int);
    let b = lemma_trim_end_bound(tail);
    assert(tail.subrange(0, b) =~= s.subrange(a, a + b));
    assert forall|k: int| a + b <= k < s.len() implies is_whitespace(s[k]) by {
        assert(s[k] == tail[k - a]);
    }
    assert(is_core_at(trimmed(s), s, a, a + b));
}

/// A text has one core only: what `is_core_of` says of the trimmed text,
/// it says of no other.
pub proof fn lemma_core_is_unique(t1: Seq<char>, t2: Seq<char>, s: Seq<char>)
    requires
        is_core_of(t1, s),
        is_core_of(t2, s),
    ensures
        t1 == t2,
{
    let (a1, b1) = choose|a: int, b: int| is_core_at(t1, s, a, b);
    let (a2, b2) = choose|a: int, b: int| is_core_at(t2, s, a, b);
    assert(a1 < b1 && a2 < b2 ==> a1 == a2 && b1 == b2);
}

/// Whether `c` is whitespace.
pub fn is_space(c: char) -> (b: bool)
    ensures
        b == is_whitespace(c),
{
    let u: u32 = c as u32;
    (0x09 <= u && u <= 0x0D) || u == 0x20 || u == 0x85 || u == 0xA0 || u == 0x1680 || (0x2000 <= u
        && u <= 0x200A) || u == 0x2028 || u == 0x2029 || u == 0x202F || u == 0x205F || u == 0x3000
}

/// `s` without its leading and trailing whitespace.
pub fn trim(s: &str) -> (r: String)
    ensures
        r@ == trimmed(s@),
{
    let n: usize = s.unicode_len();
    let mut start: usize = 0;
    while start < n && is_space(s.get_char(start))
        invariant
            start <= n,
            n == s@.len(),
            forall|j: int| 0 <= j < start ==> is_whitespace(s@[j]),
        decreases n - start,
    {
        start += 1;
    }
    let ghost tail = s@.subrange(start as int, n as int);
    let mut end: usize = n;
    while end > start && is_space(s.get_char(end - 1))
        invariant
            start <= end <= n,
            n == s@.len(),
            forall|j: int| end <= j < n ==> is_whitespace(s@[j]),
        decreases end - start,
    {
        end -= 1;
    }
    proof {
        lemma_trim_start_skips(s@, start as int);
        lemma_trim_end_skips(tail, end - start);
    }
    String::from_str(s.substring_char(start, end))
}

} // verus!
