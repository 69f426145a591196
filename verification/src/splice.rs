//! Putting a pair of markers around parts of a text.
//!
//! The parts are given as spans of byte offsets into the text's UTF-8
//! encoding, as a search over the encoded text reports them. The text
//! itself is modelled as its sequence of characters.

use vstd::prelude::*;
use vstd::string::StringSliceAdditionalSpecFns;
use vstd::utf8::*;

verus! {

/// The characters that the bytes `from..to` of the encoding of `text` spell.
pub open spec fn slice_of(text: Seq<char>, from: int, to: int) -> Seq<char> {
    decode_utf8(encode_utf8(text).subrange(from, to))
}

/// Whether `offset` lies between two characters of `text`, or at one of its ends.
pub open spec fn on_boundary(text: Seq<char>, offset: int) -> bool {
    0 <= offset <= encode_utf8(text).len() && is_char_boundary(encode_utf8(text), offset)
}

/// Whether `spans` can be cut out of `text` one after the other, starting
/// at `from`: each span runs from a boundary to a later or equal one,
/// none starts before `from`, and none starts before the one in front of
/// it has ended.
pub open spec fn spans_fit(text: Seq<char>, spans: Seq<(usize, usize)>, from: int) -> bool {
    &&& on_boundary(text, from)
    &&& forall|i: int|
        0 <= i < spans.len() ==> {
            &&& from <= (#[trigger] spans[i]).0 <= spans[i].1
            &&& on_boundary(text, spans[i].0 as int)
            &&& on_boundary(text, spans[i].1 as int)
        }
    &&& forall|i: int, j: int|
        0 <= i < j < spans.len() ==> (#[trigger] spans[i]).1 <= (#[trigger] spans[j]).0
}

/// The text from `from` on, with `open` put in front of each span and
/// `close` behind it. What lies between the spans stays as it is.
pub open spec fn spliced(
    text: Seq<char>,
    spans: Seq<(usize, usize)>,
    from: int,
    open: Seq<char>,
    close: Seq<char>,
) -> Seq<char>
    decreases spans.len(),
{
    if spans.len() == 0 {
        slice_of(text, from, encode_utf8(text).len() as int)
    } else {
        let (start, end) = spans.first();
        slice_of(text, from, start as int) + open + slice_of(text, start as int, end as int) + close
            + spliced(text, spans.drop_first(), end as int, open, close)
    }
}

/// The whole text with every span wrapped in `open` and `close`.
pub open spec fn wrapped(
    text: Seq<char>,
    spans: Seq<(usize, usize)>,
    open: Seq<char>,
    close: Seq<char>,
) -> Seq<char> {
    spliced(text, spans, 0, open, close)
}

/// A boundary of the whole is a boundary of each prefix that reaches it.
proof fn lemma_boundary_in_prefix(bytes: Seq<u8>, a: int, b: int)
    requires
        valid_utf8(bytes),
        0 <= a <= b <= bytes.len(),
        is_char_boundary(bytes, a),
        is_char_boundary(bytes, b),
    ensures
        valid_utf8(bytes.subrange(0, b)),
        is_char_boundary(bytes.subrange(0, b), a),
{
    let head = bytes.subrange(0, b);
    valid_utf8_split(bytes, b);
    if a == b {
        is_char_boundary_start_end_of_seq(head);
    } else {
        is_char_boundary_iff_not_is_continuation_byte(bytes, a);
        assert(head[a] == bytes[a]);
        is_char_boundary_iff_not_is_continuation_byte(head, a);
    }
}

/// The bytes between two boundaries are an encoding of their own.
proof fn lemma_between_boundaries(bytes: Seq<u8>, a: int, b: int)
    requires
        valid_utf8(bytes),
        0 <= a <= b <= bytes.len(),
        is_char_boundary(bytes, a),
        is_char_boundary(bytes, b),
    ensures
        valid_utf8(bytes.subrange(a, b)),
{
    let head = bytes.subrange(0, b);
    lemma_boundary_in_prefix(bytes, a, b);
    valid_utf8_split(head, a);
    assert(head.subrange(a, head.len() as int) =~= bytes.subrange(a, b));
}

/// Cutting at a boundary in the middle loses nothing: the characters of
/// `a..b` followed by those of `b..c` are those of `a..c`.
proof fn lemma_slices_join(text: Seq<char>, a: int, b: int, c: int)
    requires
        a <= b <= c,
        on_boundary(text, a),
        on_boundary(text, b),
        on_boundary(text, c),
    ensures
        slice_of(text, a, b) + slice_of(text, b, c) == slice_of(text, a, c),
{
    let bytes = encode_utf8(text);
    encode_utf8_valid_utf8(text);
    let whole = bytes.subrange(a, c);
    lemma_between_boundaries(bytes, a, c);
    assert(is_char_boundary(whole, b - a)) by {
        if b == a {
        } else if b == c {
            is_char_boundary_start_end_of_seq(whole);
        } else {
            is_char_boundary_iff_not_is_continuation_byte(bytes, b);
            assert(whole[b - a] == bytes[b]);
            is_char_boundary_iff_not_is_continuation_byte(whole, b - a);
        }
    }
    decode_utf8_split(whole, b - a);
    assert(whole.subrange(0, b - a) =~= bytes.subrange(a, b));
    assert(whole.subrange(b - a, whole.len() as int) =~= bytes.subrange(b, c));
}

/// The characters of all the bytes are the text.
proof fn lemma_slice_all(text: Seq<char>)
    ensures
        slice_of(text, 0, encode_utf8(text).len() as int) == text,
        on_boundary(text, 0),
        on_boundary(text, encode_utf8(text).len() as int),
{
    let bytes = encode_utf8(text);
    assert(bytes.subrange(0, bytes.len() as int) =~= bytes);
    encode_utf8_decode_utf8(text);
    encode_utf8_valid_utf8(text);
    is_char_boundary_start_end_of_seq(bytes);
}

/// When spans fit, those after the first fit from the end of the first.
proof fn lemma_fit_rest(text: Seq<char>, spans: Seq<(usize, usize)>, from: int)
    requires
        spans_fit(text, spans, from),
        spans.len() > 0,
    ensures
        from <= spans.first().0 <= spans.first().1,
        on_boundary(text, spans.first().0 as int),
        on_boundary(text, spans.first().1 as int),
        spans_fit(text, spans.drop_first(), spans.first().1 as int),
{
    let rest = spans.drop_first();
    let end = spans.first().1;
    assert(spans[0] == spans.first());
    assert forall|k: int| 0 <= k < rest.len() implies {
        &&& end <= (#[trigger] rest[k]).0 <= rest[k].1
        &&& on_boundary(text, rest[k].0 as int)
        &&& on_boundary(text, rest[k].1 as int)
    } by {
        assert(rest[k] == spans[k + 1]);
    }
    assert forall|k: int, l: int| 0 <= k < l < rest.len() implies (#[trigger] rest[k]).1 <= (
    #[trigger] rest[l]).0 by {
        assert(rest[k] == spans[k + 1]);
        assert(rest[l] == spans[l + 1]);
    }
}

/// The part of `text` between two byte offsets.
fn slice<'a>(text: &'a str, from: usize, to: usize) -> (part: &'a str)
    requires
        from <= to,
        on_boundary(text@, from as int),
        on_boundary(text@, to as int),
    ensures
        part@ == slice_of(text@, from as int, to as int),
{
    proof {
        encode_utf8_valid_utf8(text@);
        lemma_boundary_in_prefix(text.spec_bytes(), from as int, to as int);
    }
    let (head, _) = text.split_at(to);
    let (_, part) = head.split_at(from);
    proof {
        assert(part.spec_bytes() =~= text.spec_bytes().subrange(from as int, to as int));
        encode_utf8_decode_utf8(part@);
    }
    part
}

/// Tells whether `spans` can be cut out of `text` one after the other:
/// whether [`wrap_spans`] may be called on them.
pub fn spans_fit_text(text: &str, spans: &Vec<(usize, usize)>) -> (fit: bool)
    ensures
        fit == spans_fit(text@, spans@, 0),
{
    let mut last: usize = 0;
    let mut i: usize = 0;
    proof {
        lemma_slice_all(text@);
    }
    while i < spans.len()
        invariant
            i <= spans.len(),
            on_boundary(text@, 0),
            spans_fit(text@, spans@.take(i as int), 0),
            forall|j: int| 0 <= j < i ==> (#[trigger] spans@[j]).1 <= last,
            i > 0 ==> last == spans@[i - 1].1,
            i == 0 ==> last == 0,
        decreases spans.len() - i,
    {
        let (start, end) = spans[i];
        if start < last || end < start || !text.is_char_boundary(start) || !text.is_char_boundary(
            end,
        ) {
            proof {
                if start < last {
                    assert(spans@[i - 1].1 > spans@[i as int].0);
                }
                assert(!on_boundary(text@, start as int) || !on_boundary(text@, end as int)
                    || start < last || end < start);
            }
            return false;
        }
        proof {
            let head = spans@.take(i as int);
            let more = spans@.take(i as int + 1);
            assert(on_boundary(text@, start as int) && on_boundary(text@, end as int)) by {
                encode_utf8_valid_utf8(text@);
            }
            assert forall|j: int| 0 <= j < more.len() implies {
                &&& 0 <= (#[trigger] more[j]).0 <= more[j].1
                &&& on_boundary(text@, more[j].0 as int)
                &&& on_boundary(text@, more[j].1 as int)
            } by {
                if j < i {
                    assert(more[j] == head[j]);
                }
            }
            assert forall|j: int, l: int| 0 <= j < l < more.len() implies (#[trigger] more[j]).1
                <= (#[trigger] more[l]).0 by {
                if l < i {
                    assert(more[j] == head[j]);
                    assert(more[l] == head[l]);
                } else {
                    assert(more[j] == spans@[j]);
                }
            }
        }
        last = end;
        i += 1;
    }
    proof {
        assert(spans@.take(i as int) =~= spans@);
    }
    true
}

/// Wraps each of `spans` in `open` and `close` and leaves the rest of
/// `text` as it is.
///
/// The spans are byte offsets into `text`, in the order of the text, each
/// starting where the one before has ended or later, all on boundaries
/// between characters. [`spans_fit_text`] tells whether they are.
pub fn wrap_spans(text: &str, spans: &Vec<(usize, usize)>, open: &str, close: &str) -> (out: String)
    requires
        spans_fit(text@, spans@, 0),
    ensures
        out@ == wrapped(text@, spans@, open@, close@),
{
    let mut out = String::new();
    let mut last: usize = 0;
    let mut i: usize = 0;
    proof {
        assert(spans@.skip(0) =~= spans@);
    }
    while i < spans.len()
        invariant
            i <= spans.len(),
            spans_fit(text@, spans@, 0),
            spans_fit(text@, spans@.skip(i as int), last as int),
            out@ + spliced(text@, spans@.skip(i as int), last as int, open@, close@) == wrapped(
                text@,
                spans@,
                open@,
                close@,
            ),
        decreases spans.len() - i,
    {
        let ghost rest = spans@.skip(i as int);
        let ghost before = out@;
        let (start, end) = spans[i];
        proof {
            assert(rest.first() == spans@[i as int]);
            lemma_fit_rest(text@, rest, last as int);
        }
        out.append(slice(text, last, start));
        out.append(open);
        out.append(slice(text, start, end));
        out.append(close);
        proof {
            let next = spans@.skip(i as int + 1);
            assert(rest.drop_first() =~= next);
            lemma_fit_rest(text@, rest, last as int);
            assert(out@ + spliced(text@, next, end as int, open@, close@) =~= before + spliced(
                text@,
                rest,
                last as int,
                open@,
                close@,
            ));
        }
        last = end;
        i += 1;
    }
    proof {
        lemma_slice_all(text@);
        assert(spans@.skip(i as int).len() == 0);
    }
    let end_of_text: usize = text.as_bytes().len();
    out.append(slice(text, last, end_of_text));
    out
}

/// Without spans the text stays as it is.
pub proof fn nothing_to_wrap(text: Seq<char>, open: Seq<char>, close: Seq<char>)
    ensures
        wrapped(text, Seq::empty(), open, close) == text,
{
    lemma_slice_all(text);
}

/// What lies from `from` on, cut at the spans and put together again, is
/// what was there.
proof fn lemma_plain_splice(text: Seq<char>, spans: Seq<(usize, usize)>, from: int)
    requires
        spans_fit(text, spans, from),
    ensures
        spliced(text, spans, from, Seq::empty(), Seq::empty()) == slice_of(
            text,
            from,
            encode_utf8(text).len() as int,
        ),
    decreases spans.len(),
{
    let end_of_text = encode_utf8(text).len() as int;
    let none = Seq::<char>::empty();
    lemma_slice_all(text);
    if spans.len() > 0 {
        let (start, end) = spans.first();
        let rest = spans.drop_first();
        lemma_fit_rest(text, spans, from);
        lemma_plain_splice(text, rest, end as int);
        lemma_slices_join(text, from, start as int, end as int);
        lemma_slices_join(text, from, end as int, end_of_text);
        assert(spliced(text, spans, from, none, none) =~= slice_of(text, from, start as int)
            + slice_of(text, start as int, end as int) + slice_of(text, end as int, end_of_text));
    }
}

/// Wrapping adds the markers and nothing else: with empty markers the
/// text comes out unchanged, so no character of it is lost, doubled or
/// moved.
pub proof fn wrapping_keeps_text(text: Seq<char>, spans: Seq<(usize, usize)>)
    requires
        spans_fit(text, spans, 0),
    ensures
        wrapped(text, spans, Seq::empty(), Seq::empty()) == text,
{
    lemma_plain_splice(text, spans, 0);
    lemma_slice_all(text);
}

/// Each span adds one pair of markers to the length, whatever the spans.
proof fn lemma_spliced_len(
    text: Seq<char>,
    spans: Seq<(usize, usize)>,
    from: int,
    open: Seq<char>,
    close: Seq<char>,
)
    ensures
        spliced(text, spans, from, open, close).len() == spliced(
            text,
            spans,
            from,
            Seq::empty(),
            Seq::empty(),
        ).len() + spans.len() * (open.len() + close.len()),
    decreases spans.len(),
{
    if spans.len() > 0 {
        let (start, end) = spans.first();
        lemma_spliced_len(text, spans.drop_first(), end as int, open, close);
        assert(spans.len() * (open.len() + close.len()) == (spans.len() - 1) * (open.len()
            + close.len()) + (open.len() + close.len())) by (nonlinear_arith);
    }
}

/// Every span is wrapped exactly once: the result is longer than the text
/// by one pair of markers for each span.
pub proof fn wrapping_adds_one_pair_each(
    text: Seq<char>,
    spans: Seq<(usize, usize)>,
    open: Seq<char>,
    close: Seq<char>,
)
    requires
        spans_fit(text, spans, 0),
    ensures
        wrapped(text, spans, open, close).len() == text.len() + spans.len() * (open.len()
            + close.len()),
{
    lemma_spliced_len(text, spans, 0, open, close);
    wrapping_keeps_text(text, spans);
}

/// Where the span `k` comes out, counted in characters from the start of
/// what `spliced` returns: behind what lay in front of it in the text and
/// behind one pair of markers for each span before it.
pub open spec fn place_of(
    text: Seq<char>,
    spans: Seq<(usize, usize)>,
    from: int,
    open: Seq<char>,
    close: Seq<char>,
    k: int,
) -> int {
    slice_of(text, from, spans[k].0 as int).len() + k * (open.len() + close.len())
}

/// The span `k` stands between its markers at its place, counted from `from`.
proof fn lemma_span_in_place(
    text: Seq<char>,
    spans: Seq<(usize, usize)>,
    from: int,
    open: Seq<char>,
    close: Seq<char>,
    k: int,
)
    requires
        spans_fit(text, spans, from),
        0 <= k < spans.len(),
    ensures
        ({
            let out = spliced(text, spans, from, open, close);
            let part = slice_of(text, spans[k].0 as int, spans[k].1 as int);
            let at = place_of(text, spans, from, open, close, k);
            &&& 0 <= at
            &&& at + open.len() + part.len() + close.len() <= out.len()
            &&& out.subrange(at, at + open.len() + part.len() + close.len()) == open + part
                + close
        }),
    decreases k,
{
    let out = spliced(text, spans, from, open, close);
    let (start, end) = spans.first();
    let rest = spans.drop_first();
    let first = slice_of(text, start as int, end as int);
    let gap = slice_of(text, from, start as int);
    let tail = spliced(text, rest, end as int, open, close);
    lemma_fit_rest(text, spans, from);
    assert(out == gap + open + first + close + tail);
    if k == 0 {
        let at = gap.len() as int;
        assert(spans[0] == spans.first());
        assert(0 * (open.len() + close.len()) == 0);
        assert(place_of(text, spans, from, open, close, 0) == at);
        assert(out.subrange(at, at + open.len() + first.len() + close.len()) =~= open + first
            + close);
    } else {
        let part = slice_of(text, spans[k].0 as int, spans[k].1 as int);
        let width = open.len() + part.len() + close.len();
        let lead = gap + open + first + close;
        let inner = place_of(text, rest, end as int, open, close, k - 1);
        assert(rest[k - 1] == spans[k]);
        lemma_span_in_place(text, rest, end as int, open, close, k - 1);
        assert(spans[0].1 <= spans[k].0);
        lemma_slices_join(text, from, start as int, end as int);
        lemma_slices_join(text, from, end as int, spans[k].0 as int);
        assert(gap.len() + first.len() + slice_of(text, end as int, spans[k].0 as int).len()
            == slice_of(text, from, spans[k].0 as int).len());
        assert(k * (open.len() + close.len()) == (k - 1) * (open.len() + close.len()) + (open.len()
            + close.len())) by (nonlinear_arith);
        assert(out == lead + tail);
        let at = lead.len() + inner;
        assert(out.subrange(at, at + width) =~= tail.subrange(inner, inner + width));
        assert(place_of(text, spans, from, open, close, k) == at);
    }
}

/// Every span comes out in its place between one pair of markers.
///
/// Count the characters that lie in front of the span in the text, and
/// one pair of markers for each span before it: at that place the result
/// reads `open`, then the span as it was, then `close`.
pub proof fn span_is_wrapped_in_place(
    text: Seq<char>,
    spans: Seq<(usize, usize)>,
    open: Seq<char>,
    close: Seq<char>,
    k: int,
)
    requires
        spans_fit(text, spans, 0),
        0 <= k < spans.len(),
    ensures
        ({
            let out = wrapped(text, spans, open, close);
            let part = slice_of(text, spans[k].0 as int, spans[k].1 as int);
            let at = place_of(text, spans, 0, open, close, k);
            &&& 0 <= at
            &&& at + open.len() + part.len() + close.len() <= out.len()
            &&& out.subrange(at, at + open.len() + part.len() + close.len()) == open + part
                + close
        }),
{
    lemma_span_in_place(text, spans, 0, open, close, k);
}

} // verus!
