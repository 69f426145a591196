//! Taking the force out of mentions before a text is posted.
//!
//! A text made from other people's posts may hold `@name` or
//! `@name@instance`. Posted as it is, it would notify those accounts. Each
//! mention is therefore wrapped in `<plain>` and `</plain>`, which makes
//! the instance show it as plain text.
//!
//! Mentions are found by the `regex` crate. What it finds is not proved
//! here: it is named ([`regex_find_iter`]), and everything else is stated
//! over that name.

use vstd::prelude::*;
use crate::splice::{slice_of, spans_fit, wrap_spans, wrapped};

verus! {

/// A mention: `@` and one or more word characters, then, if present, `@`
/// and one or more word characters or dots for the instance.
pub const MENTION_PATTERN: &'static str = r"(@\w+)(@[\w.]+)?";

/// Put in front of each mention.
pub const OPEN_MARKER: &'static str = "<plain>";

/// Put behind each mention.
pub const CLOSE_MARKER: &'static str = "</plain>";

/// The error of `regex::Regex::new`. It is carried through unread.
#[verifier::external_type_specification]
#[verifier::external_body]
pub struct ExRegexError(regex::Error);

/// Whether `regex::Regex::new` accepts `pattern`.
pub uninterp spec fn regex_accepts(pattern: Seq<char>) -> bool;

/// The matches that `regex::Regex::find_iter` yields for `pattern` in
/// `haystack`, in its order: each as the byte offsets of its start and its
/// end in the UTF-8 encoding of `haystack`.
pub uninterp spec fn regex_find_iter(pattern: Seq<char>, haystack: Seq<char>) -> Seq<
    (usize, usize),
>;

/// The mentions in `text`, as byte spans.
pub open spec fn mentions(text: Seq<char>) -> Seq<(usize, usize)> {
    regex_find_iter(MENTION_PATTERN@, text)
}

/// `text` with every mention wrapped in the two markers.
pub open spec fn sanitized(text: Seq<char>) -> Seq<char> {
    wrapped(text, mentions(text), OPEN_MARKER@, CLOSE_MARKER@)
}

/// A pattern was not accepted by the search engine.
#[derive(Clone, Copy, Debug, PartialEq, Eq)]
pub struct PatternRejected;

/// Compiles `pattern` with `regex::Regex::new` and collects the start and
/// end of every match that `Regex::find_iter` yields in `haystack`.
///
/// Trusted: the call fails exactly when the pattern is not accepted;
/// otherwise the spans are the named matches. Of these the crate's
/// documentation says that they follow one another without overlap, that
/// a match starts no later than it ends, and that both offsets lie on
/// boundaries between characters of the haystack.
#[verifier::external_body]
fn find_spans(pattern: &str, haystack: &str) -> (found: Result<Vec<(usize, usize)>, regex::Error>)
    ensures
        found is Ok <==> regex_accepts(pattern@),
        found matches Ok(spans) ==> spans@ == regex_find_iter(pattern@, haystack@),
        found matches Ok(spans) ==> spans_fit(haystack@, spans@, 0),
{
    let re = regex::Regex::new(pattern)?;
    Ok(re.find_iter(haystack).map(|m| (m.start(), m.end())).collect())
}

/// Finds the matches of `pattern` in `text`: the byte offsets at which
/// each starts and ends, in the order of the text.
///
/// Fails exactly when the search engine does not accept the pattern. The
/// spans that come back fit the text, so that they can be wrapped.
pub fn find_matches(pattern: &str, text: &str) -> (found: Result<
    Vec<(usize, usize)>,
    PatternRejected,
>)
    ensures
        found is Ok <==> regex_accepts(pattern@),
        found matches Ok(spans) ==> spans@ == regex_find_iter(pattern@, text@),
        found matches Ok(spans) ==> spans_fit(text@, spans@, 0),
{
    match find_spans(pattern, text) {
        Ok(spans) => Ok(spans),
        Err(_) => Err(PatternRejected),
    }
}

/// Finds the mentions in `text`: the byte offsets at which each starts
/// and ends, in the order of the text.
pub fn find_mentions(text: &str) -> (found: Result<Vec<(usize, usize)>, PatternRejected>)
    ensures
        found is Ok <==> regex_accepts(MENTION_PATTERN@),
        found matches Ok(spans) ==> spans@ == mentions(text@),
        found matches Ok(spans) ==> spans_fit(text@, spans@, 0),
{
    find_matches(MENTION_PATTERN, text)
}

/// Wraps every mention in `text` in `<plain>` and `</plain>` and leaves
/// the rest of the text as it is.
///
/// Fails only if the search engine does not accept the pattern for
/// mentions, whatever the text.
pub fn sanitize_mentions(text: String) -> (clean: Result<String, PatternRejected>)
    ensures
        clean is Ok <==> regex_accepts(MENTION_PATTERN@),
        clean matches Ok(s) ==> s@ == sanitized(text@),
        clean is Ok ==> spans_fit(text@, mentions(text@), 0),
{
    match find_mentions(text.as_str()) {
        Ok(spans) => Ok(wrap_spans(text.as_str(), &spans, OPEN_MARKER, CLOSE_MARKER)),
        Err(e) => Err(e),
    }
}

/// A text without mentions comes out as it went in.
pub proof fn text_without_mention_is_unchanged(text: Seq<char>)
    requires
        mentions(text).len() == 0,
    ensures
        sanitized(text) == text,
{
    assert(mentions(text) =~= Seq::empty());
    crate::splice::nothing_to_wrap(text, OPEN_MARKER@, CLOSE_MARKER@);
}

/// Every mention is wrapped exactly once, and nothing else changes.
///
/// Taking the markers away gives the text back, and the sanitized text
/// is longer than the text by the fifteen characters of one pair of
/// markers for each mention.
pub proof fn each_mention_is_wrapped_once(text: Seq<char>)
    requires
        spans_fit(text, mentions(text), 0),
    ensures
        wrapped(text, mentions(text), Seq::empty(), Seq::empty()) == text,
        sanitized(text).len() == text.len() + 15 * mentions(text).len(),
{
    reveal_strlit("<plain>");
    reveal_strlit("</plain>");
    let count = mentions(text).len();
    let open = OPEN_MARKER@.len();
    let close = CLOSE_MARKER@.len();
    assert(count * (open + close) == 15 * count) by (nonlinear_arith)
        requires
            open == 7,
            close == 8,
    ;
    crate::splice::wrapping_keeps_text(text, mentions(text));
    crate::splice::wrapping_adds_one_pair_each(text, mentions(text), OPEN_MARKER@, CLOSE_MARKER@);
}

/// Every mention stands in the sanitized text between `<plain>` and
/// `</plain>`, in its place.
///
/// In front of the mention `k` lie the characters that lay in front of it
/// in the text and the fifteen characters of one pair of markers for each
/// mention before it. There the sanitized text reads `<plain>`, the
/// mention as it was, and `</plain>`.
pub proof fn mention_is_wrapped_in_place(text: Seq<char>, k: int)
    requires
        spans_fit(text, mentions(text), 0),
        0 <= k < mentions(text).len(),
    ensures
        ({
            let (start, end) = mentions(text)[k];
            let mention = slice_of(text, start as int, end as int);
            let at = slice_of(text, 0, start as int).len() + 15 * k;
            &&& at + 15 + mention.len() <= sanitized(text).len()
            &&& sanitized(text).subrange(at, at + 15 + mention.len()) == OPEN_MARKER@ + mention
                + CLOSE_MARKER@
        }),
{
    reveal_strlit("<plain>");
    reveal_strlit("</plain>");
    let open = OPEN_MARKER@.len();
    let close = CLOSE_MARKER@.len();
    assert(k * (open + close) == 15 * k) by (nonlinear_arith)
        requires
            open == 7,
            close == 8,
    ;
    crate::splice::span_is_wrapped_in_place(text, mentions(text), OPEN_MARKER@, CLOSE_MARKER@, k);
}

} // verus!
