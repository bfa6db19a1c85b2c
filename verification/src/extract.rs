//! Recovering a JSON payload from a model reply that may be wrapped in a
//! Markdown code fence.

use crate::text::{
    after_first, all_whitespace, chars_of, has_prefix, has_suffix, is_trimmed, is_whitespace,
    lemma_after_first, lemma_trim_framed, lemma_trim_is_trimmed, skip_past_first,
    skip_whitespace, skip_whitespace_back, strip_suffix, trim,
};
use vstd::prelude::*;
use vstd::string::StrSliceExecFns;

verus! {

/// The fence token, three backticks.
pub open spec fn fence() -> Seq<char> {
    seq!['`', '`', '`']
}

/// The token that opens a fenced block tagged as JSON.
pub open spec fn json_fence() -> Seq<char> {
    seq!['`', '`', '`', 'j', 's', 'o', 'n']
}

/// What a fenced block holds, given the text `body` that follows its opening
/// token: `body` trimmed, without one closing fence token, trimmed again.
///
/// The first trim also takes a line break that follows the opening token.
pub open spec fn fenced_payload(body: Seq<char>) -> Seq<char> {
    trim(strip_suffix(trim(body), fence()))
}

/// The JSON candidate in `reply`.
///
/// With `t` the trimmed reply: where `t` opens with the JSON fence, the
/// payload of what follows that token; else where `t` opens with a fence,
/// the payload of what follows the first line break after it (which drops a
/// language tag on the opening line), or of all that follows the fence where
/// there is no line break; else `t` itself.
pub open spec fn extracted(reply: Seq<char>) -> Seq<char> {
    let t = trim(reply);
    if json_fence().is_prefix_of(t) {
        fenced_payload(t.skip(json_fence().len() as int))
    } else if fence().is_prefix_of(t) {
        fenced_payload(after_first(t.skip(fence().len() as int), '\n'))
    } else {
        t
    }
}

/// The bounds of the payload of a fenced block whose body is
/// `chars[lo..hi]`.
fn payload_bounds(chars: &Vec<char>, lo: usize, hi: usize) -> (r: (usize, usize))
    requires
        lo <= hi <= chars@.len(),
    ensures
        lo <= r.0 <= r.1 <= hi,
        chars@.subrange(r.0 as int, r.1 as int) == fenced_payload(
            chars@.subrange(lo as int, hi as int),
        ),
{
    let a = skip_whitespace(chars, lo, hi);
    let b = skip_whitespace_back(chars, a, hi);
    let ghost trimmed = chars@.subrange(a as int, b as int);
    assert(trimmed == trim(chars@.subrange(lo as int, hi as int)));
    let closing: Vec<char> = vec!['`', '`', '`'];
    assert(closing@ == fence());
    let end = if has_suffix(chars, a, b, &closing) {
        assert(trimmed.subrange(0, trimmed.len() - 3) == chars@.subrange(a as int, b as int - 3));
        b - 3
    } else {
        b
    };
    assert(chars@.subrange(a as int, end as int) == strip_suffix(trimmed, fence()));
    let start = skip_whitespace(chars, a, end);
    let stop = skip_whitespace_back(chars, start, end);
    (start, stop)
}

/// Extracts the JSON candidate from a model reply. Never fails: a reply
/// without a fence comes back trimmed.
pub fn extract_json_from_markdown(reply: &str) -> (candidate: String)
    ensures
        candidate@ == extracted(reply@),
{
    let chars = chars_of(reply);
    let n = chars.len();
    let lo = skip_whitespace(&chars, 0, n);
    let hi = skip_whitespace_back(&chars, lo, n);
    assert(chars@.subrange(0, n as int) == reply@);
    let ghost t = chars@.subrange(lo as int, hi as int);
    assert(t == trim(reply@));
    let json_open: Vec<char> = vec!['`', '`', '`', 'j', 's', 'o', 'n'];
    let open: Vec<char> = vec!['`', '`', '`'];
    assert(json_open@ == json_fence());
    assert(open@ == fence());
    let (start, stop) = if has_prefix(&chars, lo, hi, &json_open) {
        assert(t.skip(7) == chars@.subrange(lo as int + 7, hi as int));
        payload_bounds(&chars, lo + 7, hi)
    } else if has_prefix(&chars, lo, hi, &open) {
        assert(t.skip(3) == chars@.subrange(lo as int + 3, hi as int));
        let body = skip_past_first(&chars, lo + 3, hi, '\n');
        payload_bounds(&chars, body, hi)
    } else {
        (lo, hi)
    };
    assert(chars@.subrange(start as int, stop as int) == extracted(reply@));
    reply.substring_char(start, stop).to_owned()
}

/// The candidate neither starts nor ends with whitespace.
pub proof fn lemma_extracted_is_trimmed(reply: Seq<char>)
    ensures
        is_trimmed(extracted(reply)),
{
    let t = trim(reply);
    lemma_trim_is_trimmed(reply);
    if json_fence().is_prefix_of(t) {
        lemma_trim_is_trimmed(strip_suffix(trim(t.skip(json_fence().len() as int)), fence()));
    } else if fence().is_prefix_of(t) {
        lemma_trim_is_trimmed(
            strip_suffix(trim(after_first(t.skip(fence().len() as int), '\n')), fence()),
        );
    }
}

/// A text without a fence is its own candidate, whatever whitespace
/// surrounds it.
pub proof fn lemma_extract_raw(before: Seq<char>, payload: Seq<char>, after: Seq<char>)
    requires
        all_whitespace(before),
        all_whitespace(after),
        is_trimmed(payload),
        !fence().is_prefix_of(payload),
    ensures
        extracted(before + payload + after) == payload,
{
    lemma_trim_framed(before, payload, after);
    if json_fence().is_prefix_of(payload) {
        assert(payload.subrange(0, 7).subrange(0, 3) == payload.subrange(0, 3));
        assert(json_fence().subrange(0, 3) == fence());
    }
}

/// Extracting again changes nothing, for a candidate that does not
/// itself open with a fence.
pub proof fn lemma_extract_settles(reply: Seq<char>)
    requires
        !fence().is_prefix_of(extracted(reply)),
    ensures
        extracted(extracted(reply)) == extracted(reply),
{
    let candidate = extracted(reply);
    let empty = Seq::<char>::empty();
    lemma_extracted_is_trimmed(reply);
    assert(empty + candidate + empty == candidate);
    lemma_extract_raw(empty, candidate, empty);
}

/// The payload of a fenced block whose body is `payload` between two
/// runs of whitespace, followed by the closing fence, is `payload`.
proof fn lemma_payload_of_body(gap: Seq<char>, payload: Seq<char>, rest: Seq<char>)
    requires
        all_whitespace(gap),
        all_whitespace(rest),
        is_trimmed(payload),
    ensures
        fenced_payload(gap + payload + rest + fence()) == payload,
{
    let body = gap + payload + rest + fence();
    let empty = Seq::<char>::empty();
    assert(!is_whitespace('`'));
    if payload.len() == 0 {
        assert(all_whitespace(gap + rest));
        assert(body == (gap + rest) + fence() + empty);
        lemma_trim_framed(gap + rest, fence(), empty);
        assert(fence().subrange(0, 0) == empty);
        assert(empty + empty + empty == empty);
        lemma_trim_framed(empty, empty, empty);
    } else {
        let inner = payload + rest + fence();
        assert(inner.first() == payload.first());
        assert(inner.last() == '`');
        assert(body == gap + inner + empty);
        lemma_trim_framed(gap, inner, empty);
        assert(inner.subrange(inner.len() - 3, inner.len() as int) == fence());
        assert(inner.subrange(0, inner.len() - 3) == payload + rest);
        assert(payload + rest == empty + payload + rest);
        lemma_trim_framed(empty, payload, rest);
    }
}

/// A payload in a block fenced as JSON is the candidate: for a payload
/// that neither starts nor ends with whitespace, with any whitespace
/// around the block, after the opening token and before the closing
/// fence. So a line break after the opening token is dropped too.
pub proof fn lemma_extract_json_fence(
    before: Seq<char>,
    gap: Seq<char>,
    payload: Seq<char>,
    rest: Seq<char>,
    after: Seq<char>,
)
    requires
        all_whitespace(before),
        all_whitespace(gap),
        all_whitespace(rest),
        all_whitespace(after),
        is_trimmed(payload),
    ensures
        extracted(before + json_fence() + gap + payload + rest + fence() + after) == payload,
{
    let block = json_fence() + gap + payload + rest + fence();
    assert(!is_whitespace('`'));
    assert(block.first() == '`');
    assert(block.last() == '`');
    assert(before + json_fence() + gap + payload + rest + fence() + after == before + block
        + after);
    lemma_trim_framed(before, block, after);
    assert(block.subrange(0, 7) == json_fence());
    assert(block.skip(7) == gap + payload + rest + fence());
    lemma_payload_of_body(gap, payload, rest);
}

/// A payload in a fenced block with any other language tag, or with
/// none, is the candidate: the tag is what stands between the opening
/// fence and the first line break, and does not start with `json`.
pub proof fn lemma_extract_generic_fence(
    before: Seq<char>,
    tag: Seq<char>,
    gap: Seq<char>,
    payload: Seq<char>,
    rest: Seq<char>,
    after: Seq<char>,
)
    requires
        all_whitespace(before),
        all_whitespace(gap),
        all_whitespace(rest),
        all_whitespace(after),
        is_trimmed(payload),
        forall|i: int| 0 <= i < tag.len() ==> tag[i] != '\n',
        !seq!['j', 's', 'o', 'n'].is_prefix_of(tag),
    ensures
        extracted(
            before + fence() + tag + seq!['\n'] + gap + payload + rest + fence() + after,
        ) == payload,
{
    let body = gap + payload + rest + fence();
    let block = fence() + tag + seq!['\n'] + body;
    assert(!is_whitespace('`'));
    assert(block.first() == '`');
    assert(block.last() == '`');
    assert(before + fence() + tag + seq!['\n'] + gap + payload + rest + fence() + after
        == before + block + after);
    lemma_trim_framed(before, block, after);
    assert(block.subrange(0, 3) == fence());
    if json_fence().is_prefix_of(block) {
        let word = seq!['j', 's', 'o', 'n'];
        assert(block.subrange(0, 7) == json_fence());
        assert forall|i: int| 0 <= i < 4 implies tag.len() > i && tag[i] == word[i] by {
            assert(block.subrange(0, 7)[3 + i] == json_fence()[3 + i]);
            if tag.len() <= i {
                let k = 3 + tag.len() as int;
                assert(block[k] == '\n');
                assert(block.subrange(0, 7)[k] == json_fence()[k]);
            }
        }
        assert(tag.subrange(0, 4) == word);
    }
    assert(block.skip(3) == tag + seq!['\n'] + body);
    lemma_after_first(tag, '\n', body);
    lemma_payload_of_body(gap, payload, rest);
}

} // verus!
