//! Character-level text operations: whitespace, trimming, prefixes and
//! suffixes, stated over `Seq<char>` and computed on index ranges of a
//! character vector.

use vstd::prelude::*;
use vstd::std_specs::iter::IteratorSpec;
use vstd::string::StringExecFns;

verus! {

/// Whether `c` has the Unicode property `White_Space`.
pub open spec fn is_whitespace(c: char) -> bool {
    let u = c as u32;
    ||| 0x09 <= u <= 0x0D
    ||| u == 0x20
    ||| u == 0x85
    ||| u == 0xA0
    ||| u == 0x1680
    ||| 0x2000 <= u <= 0x200A
    ||| u == 0x2028
    ||| u == 0x2029
    ||| u == 0x202F
    ||| u == 0x205F
    ||| u == 0x3000
}

/// `s` without its leading whitespace.
pub open spec fn trim_start(s: Seq<char>) -> Seq<char>
    decreases s.len(),
{
    if s.len() > 0 && is_whitespace(s.first()) {
        trim_start(s.drop_first())
    } else {
        s
    }
}

/// `s` without its trailing whitespace.
pub open spec fn trim_end(s: Seq<char>) -> Seq<char>
    decreases s.len(),
{
    if s.len() > 0 && is_whitespace(s.last()) {
        trim_end(s.drop_last())
    } else {
        s
    }
}

/// `s` without its leading and trailing whitespace.
pub open spec fn trim(s: Seq<char>) -> Seq<char> {
    trim_end(trim_start(s))
}

/// Whether `s` neither starts nor ends with whitespace.
pub open spec fn is_trimmed(s: Seq<char>) -> bool {
    s.len() > 0 ==> !is_whitespace(s.first()) && !is_whitespace(s.last())
}

/// The part of `s` that follows its first occurrence of `c`, or `s` itself
/// where `c` does not occur.
pub open spec fn after_first(s: Seq<char>, c: char) -> Seq<char> {
    match tail_after(s, c) {
        Some(rest) => rest,
        None => s,
    }
}

/// The part of `s` that follows its first occurrence of `c`, if there is one.
pub open spec fn tail_after(s: Seq<char>, c: char) -> Option<Seq<char>>
    decreases s.len(),
{
    if s.len() == 0 {
        None
    } else if s.first() == c {
        Some(s.drop_first())
    } else {
        tail_after(s.drop_first(), c)
    }
}

/// `s` without the suffix `suffix`, or `s` itself where it does not end
/// with `suffix`.
pub open spec fn strip_suffix(s: Seq<char>, suffix: Seq<char>) -> Seq<char> {
    if suffix.is_suffix_of(s) {
        s.subrange(0, s.len() - suffix.len())
    } else {
        s
    }
}

/// Whether every character of `s` is whitespace.
pub open spec fn all_whitespace(s: Seq<char>) -> bool {
    forall|i: int| 0 <= i < s.len() ==> is_whitespace(#[trigger] s[i])
}

/// Leading whitespace does not change what `trim_start` gives.
pub proof fn lemma_trim_start_skips(blank: Seq<char>, s: Seq<char>)
    requires
        all_whitespace(blank),
    ensures
        trim_start(blank + s) == trim_start(s),
    decreases blank.len(),
{
    if blank.len() == 0 {
        assert(blank + s == s);
    } else {
        assert((blank + s).first() == blank[0]);
        assert((blank + s).drop_first() == blank.drop_first() + s);
        lemma_trim_start_skips(blank.drop_first(), s);
    }
}

/// Trailing whitespace does not change what `trim_end` gives.
pub proof fn lemma_trim_end_skips(s: Seq<char>, blank: Seq<char>)
    requires
        all_whitespace(blank),
    ensures
        trim_end(s + blank) == trim_end(s),
    decreases blank.len(),
{
    if blank.len() == 0 {
        assert(s + blank == s);
    } else {
        assert((s + blank).last() == blank.last());
        assert((s + blank).drop_last() == s + blank.drop_last());
        lemma_trim_end_skips(s, blank.drop_last());
    }
}

/// What `trim_start` gives is a suffix of the text, and is empty or
/// starts with a character that is no whitespace.
pub proof fn lemma_trim_start_result(s: Seq<char>)
    ensures
        trim_start(s).len() <= s.len(),
        trim_start(s) == s.skip(s.len() - trim_start(s).len()),
        trim_start(s).len() > 0 ==> !is_whitespace(trim_start(s).first()),
    decreases s.len(),
{
    if s.len() > 0 && is_whitespace(s.first()) {
        lemma_trim_start_result(s.drop_first());
        let r = trim_start(s.drop_first());
        assert(s.drop_first().skip(s.drop_first().len() - r.len()) == s.skip(s.len() - r.len()));
    } else {
        assert(s.skip(0) == s);
    }
}

/// What `trim_end` gives is a prefix of the text, and is empty or ends
/// with a character that is no whitespace; it keeps every character up to
/// one that is no whitespace.
pub proof fn lemma_trim_end_result(s: Seq<char>)
    ensures
        trim_end(s).len() <= s.len(),
        trim_end(s) == s.take(trim_end(s).len() as int),
        trim_end(s).len() > 0 ==> !is_whitespace(trim_end(s).last()),
        forall|k: int| 0 <= k < s.len() && !is_whitespace(s[k]) ==> k < trim_end(s).len(),
    decreases s.len(),
{
    if s.len() > 0 && is_whitespace(s.last()) {
        lemma_trim_end_result(s.drop_last());
        let r = trim_end(s.drop_last());
        assert(s.drop_last().take(r.len() as int) == s.take(r.len() as int));
        assert forall|k: int| 0 <= k < s.len() && !is_whitespace(s[k]) implies k < r.len() by {
            assert(s.drop_last()[k] == s[k]);
        }
    } else {
        assert(s.take(s.len() as int) == s);
    }
}

/// A trimmed text neither starts nor ends with whitespace.
pub proof fn lemma_trim_is_trimmed(s: Seq<char>)
    ensures
        is_trimmed(trim(s)),
{
    let t = trim_start(s);
    lemma_trim_start_result(s);
    lemma_trim_end_result(t);
}

/// Trimming takes the whitespace around a text that neither starts nor
/// ends with whitespace, and nothing else.
pub proof fn lemma_trim_framed(before: Seq<char>, s: Seq<char>, after: Seq<char>)
    requires
        all_whitespace(before),
        all_whitespace(after),
        is_trimmed(s),
    ensures
        trim(before + s + after) == s,
{
    assert(before + s + after == before + (s + after));
    lemma_trim_start_skips(before, s + after);
    if s.len() == 0 {
        assert(s + after == after + s);
        lemma_trim_start_skips(after, s);
    } else {
        assert((s + after).first() == s.first());
        lemma_trim_end_skips(s, after);
    }
}

/// Where `c` does not occur in `head`, what follows the first `c` in
/// `head`, `c`, `rest` is `rest`.
pub proof fn lemma_after_first(head: Seq<char>, c: char, rest: Seq<char>)
    requires
        forall|i: int| 0 <= i < head.len() ==> head[i] != c,
    ensures
        after_first(head + seq![c] + rest, c) == rest,
    decreases head.len(),
{
    let s = head + seq![c] + rest;
    if head.len() == 0 {
        assert(s.first() == c);
        assert(s.drop_first() == rest);
    } else {
        assert(s.first() == head[0]);
        assert(s.drop_first() == head.drop_first() + seq![c] + rest);
        lemma_after_first(head.drop_first(), c, rest);
    }
}

/// Whether `c` is whitespace.
pub fn char_is_whitespace(c: char) -> (r: bool)
    ensures
        r == is_whitespace(c),
{
    let u: u32 = c as u32;
    (0x09 <= u && u <= 0x0D) || u == 0x20 || u == 0x85 || u == 0xA0 || u == 0x1680 || (0x2000 <= u
        && u <= 0x200A) || u == 0x2028 || u == 0x2029 || u == 0x202F || u == 0x205F || u == 0x3000
}

/// The characters of `s`, in order.
pub fn chars_of(s: &str) -> (v: Vec<char>)
    ensures
        v@ == s@,
{
    broadcast use vstd::string::group_string_axioms;

    let mut v: Vec<char> = Vec::new();
    for c in it: s.chars()
        invariant
            it.seq() == s@,
            v@ == s@.take(it.index() as int),
    {
        v.push(c);
    }
    v
}

/// The start of what is left of `chars[lo..hi]` once its leading
/// whitespace is gone.
pub fn skip_whitespace(chars: &Vec<char>, lo: usize, hi: usize) -> (r: usize)
    requires
        lo <= hi <= chars@.len(),
    ensures
        lo <= r <= hi,
        chars@.subrange(r as int, hi as int) == trim_start(chars@.subrange(lo as int, hi as int)),
{
    let mut i: usize = lo;
    while i < hi && char_is_whitespace(chars[i])
        invariant
            lo <= i <= hi <= chars@.len(),
            trim_start(chars@.subrange(i as int, hi as int)) == trim_start(
                chars@.subrange(lo as int, hi as int),
            ),
        decreases hi - i,
    {
        assert(chars@.subrange(i as int, hi as int).drop_first() == chars@.subrange(
            i as int + 1,
            hi as int,
        ));
        i = i + 1;
    }
    i
}

/// The end of what is left of `chars[lo..hi]` once its trailing
/// whitespace is gone.
pub fn skip_whitespace_back(chars: &Vec<char>, lo: usize, hi: usize) -> (r: usize)
    requires
        lo <= hi <= chars@.len(),
    ensures
        lo <= r <= hi,
        chars@.subrange(lo as int, r as int) == trim_end(chars@.subrange(lo as int, hi as int)),
{
    let mut j: usize = hi;
    while lo < j && char_is_whitespace(chars[j - 1])
        invariant
            lo <= j <= hi <= chars@.len(),
            trim_end(chars@.subrange(lo as int, j as int)) == trim_end(
                chars@.subrange(lo as int, hi as int),
            ),
        decreases j - lo,
    {
        assert(chars@.subrange(lo as int, j as int).drop_last() == chars@.subrange(
            lo as int,
            j as int - 1,
        ));
        j = j - 1;
    }
    j
}

/// Whether `chars[lo..hi]` starts with `pattern`.
pub fn has_prefix(chars: &Vec<char>, lo: usize, hi: usize, pattern: &Vec<char>) -> (r: bool)
    requires
        lo <= hi <= chars@.len(),
    ensures
        r == pattern@.is_prefix_of(chars@.subrange(lo as int, hi as int)),
{
    let n = pattern.len();
    if n > hi - lo {
        return false;
    }
    let ghost window = chars@.subrange(lo as int, hi as int);
    let mut k: usize = 0;
    while k < n
        invariant
            lo <= hi <= chars@.len(),
            n == pattern@.len(),
            n <= hi - lo,
            k <= n,
            window == chars@.subrange(lo as int, hi as int),
            forall|i: int| 0 <= i < k ==> pattern@[i] == window[i],
        decreases n - k,
    {
        if pattern[k] != chars[lo + k] {
            assert(window.subrange(0, n as int)[k as int] != pattern@[k as int]);
            return false;
        }
        k = k + 1;
    }
    assert(pattern@ =~= window.subrange(0, n as int));
    true
}

/// Whether `chars[lo..hi]` ends with `pattern`.
pub fn has_suffix(chars: &Vec<char>, lo: usize, hi: usize, pattern: &Vec<char>) -> (r: bool)
    requires
        lo <= hi <= chars@.len(),
    ensures
        r == pattern@.is_suffix_of(chars@.subrange(lo as int, hi as int)),
{
    let n = pattern.len();
    if n > hi - lo {
        return false;
    }
    let start: usize = hi - n;
    let ghost window = chars@.subrange(lo as int, hi as int);
    let mut k: usize = 0;
    while k < n
        invariant
            lo <= start <= hi <= chars@.len(),
            n == pattern@.len(),
            start == hi - n,
            k <= n,
            window == chars@.subrange(lo as int, hi as int),
            forall|i: int| 0 <= i < k ==> pattern@[i] == window[window.len() - n + i],
        decreases n - k,
    {
        if pattern[k] != chars[start + k] {
            assert(window.subrange(window.len() - n, window.len() as int)[k as int]
                != pattern@[k as int]);
            return false;
        }
        k = k + 1;
    }
    assert(pattern@ =~= window.subrange(window.len() - n, window.len() as int));
    true
}

/// The start of what follows the first `c` in `chars[lo..hi]`, or `lo`
/// where `c` does not occur there.
pub fn skip_past_first(chars: &Vec<char>, lo: usize, hi: usize, c: char) -> (r: usize)
    requires
        lo <= hi <= chars@.len(),
    ensures
        lo <= r <= hi,
        chars@.subrange(r as int, hi as int) == after_first(chars@.subrange(lo as int, hi as int), c),
{
    let mut i: usize = lo;
    while i < hi
        invariant
            lo <= i <= hi <= chars@.len(),
            tail_after(chars@.subrange(i as int, hi as int), c) == tail_after(
                chars@.subrange(lo as int, hi as int),
                c,
            ),
        decreases hi - i,
    {
        assert(chars@.subrange(i as int, hi as int).drop_first() == chars@.subrange(
            i as int + 1,
            hi as int,
        ));
        if chars[i] == c {
            return i + 1;
        }
        i = i + 1;
    }
    lo
}

/// Whether two texts hold the same characters.
pub fn text_eq(a: &str, b: &str) -> (r: bool)
    ensures
        r == (a@ == b@),
{
    let x = chars_of(a);
    let y = chars_of(b);
    if x.len() != y.len() {
        return false;
    }
    let mut k: usize = 0;
    while k < x.len()
        invariant
            x@ == a@,
            y@ == b@,
            x@.len() == y@.len(),
            k <= x@.len(),
            forall|i: int| 0 <= i < k ==> x@[i] == y@[i],
        decreases x@.len() - k,
    {
        if x[k] != y[k] {
            return false;
        }
        k = k + 1;
    }
    assert(x@ =~= y@);
    true
}

/// `left` followed by `right`, as a new text.
pub fn append_text(left: &str, right: &str) -> (r: String)
    ensures
        r@ == left@ + right@,
{
    let mut out = String::from_str(left);
    out.append(right);
    out
}

} // verus!
