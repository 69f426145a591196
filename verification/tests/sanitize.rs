use misskey_bot::sanitize::{
    find_matches, find_mentions, sanitize_mentions, PatternRejected, CLOSE_MARKER, MENTION_PATTERN,
    OPEN_MARKER,
};
use misskey_bot::splice::{spans_fit_text, wrap_spans};

fn clean(text: &str) -> String {
    sanitize_mentions(text.to_string()).unwrap()
}

#[test]
fn test_sanitize_mentions() {
    let mention = "@markov";
    let expected = "<plain>@markov</plain>";
    let result = sanitize_mentions(mention.to_string()).unwrap();
    assert_eq!(result, expected);
}

#[test]
fn test_sanitize_mentions_instance() {
    let mention = "@markov@mldchan.dev";
    let expected = "<plain>@markov@mldchan.dev</plain>";
    let result = sanitize_mentions(mention.to_string()).unwrap();
    assert_eq!(result, expected);
}

#[test]
fn test_sanitize_mentions_multiple() {
    let mention = "@markov@mldchan.dev @markov";
    let expected = "<plain>@markov@mldchan.dev</plain> <plain>@markov</plain>";
    let result = sanitize_mentions(mention.to_string()).unwrap();
    assert_eq!(result, expected);
}

#[test]
fn text_without_mention_stays_as_it_is() {
    for text in ["", "hello world", "a @ b", "@", "@@", "mail at example dot org", "@ markov", "@-x"] {
        assert_eq!(find_mentions(text), Ok(vec![]));
        assert_eq!(clean(text), text);
    }
}

#[test]
fn mention_inside_a_sentence() {
    assert_eq!(clean("hi @alice, how are you?"), "hi <plain>@alice</plain>, how are you?");
}

#[test]
fn mention_takes_digits_and_underscore() {
    assert_eq!(clean("@user_01!"), "<plain>@user_01</plain>!");
}

#[test]
fn instance_takes_dots_but_the_name_does_not() {
    assert_eq!(clean("@a.b"), "<plain>@a</plain>.b");
    assert_eq!(clean("@a@b.c.d e"), "<plain>@a@b.c.d</plain> e");
    assert_eq!(clean("@a@.x"), "<plain>@a@.x</plain>");
}

#[test]
fn lone_at_sign_behind_a_mention_stays_outside() {
    assert_eq!(clean("@a@"), "<plain>@a</plain>@");
    assert_eq!(clean("@a@ b"), "<plain>@a</plain>@ b");
}

#[test]
fn mail_address_is_wrapped_from_the_at_sign() {
    assert_eq!(clean("joe@example.org"), "joe<plain>@example</plain>.org");
}

#[test]
fn mentions_in_a_row_are_wrapped_one_by_one() {
    assert_eq!(clean("@a@b@c"), "<plain>@a@b</plain><plain>@c</plain>");
    assert_eq!(clean("@a @b @c"), "<plain>@a</plain> <plain>@b</plain> <plain>@c</plain>");
    assert_eq!(clean("@a\n@b"), "<plain>@a</plain>\n<plain>@b</plain>");
}

#[test]
fn word_characters_are_those_of_unicode() {
    assert_eq!(clean("grüße @jürgen@münchen.de!"), "grüße <plain>@jürgen@münchen.de</plain>!");
    assert_eq!(clean("こんにちは @太郎 さん"), "こんにちは <plain>@太郎</plain> さん");
    assert_eq!(clean("🎉@a🎉"), "🎉<plain>@a</plain>🎉");
}

#[test]
fn matching_is_case_sensitive_only_in_what_it_keeps() {
    assert_eq!(clean("@Markov @MARKOV"), "<plain>@Markov</plain> <plain>@MARKOV</plain>");
}

#[test]
fn find_mentions_reports_byte_spans() {
    assert_eq!(find_mentions("@markov@mldchan.dev @markov"), Ok(vec![(0, 19), (20, 27)]));
    assert_eq!(find_mentions("é @a"), Ok(vec![(3, 5)]));
    assert_eq!(find_mentions("@é@ü x"), Ok(vec![(0, 6)]));
}

#[test]
fn each_mention_adds_fifteen_characters() {
    for (text, mentions) in [("", 0), ("plain", 0), ("@a", 1), ("ü @a@b.c ü @d", 2), ("@a@b@c@d", 2)] {
        let out = clean(text);
        assert_eq!(find_mentions(text).unwrap().len(), mentions);
        assert_eq!(out.chars().count(), text.chars().count() + 15 * mentions);
        assert_eq!(out.replace("<plain>", "").replace("</plain>", ""), text);
    }
}

#[test]
fn markers_are_plain_tags() {
    assert_eq!(OPEN_MARKER, "<plain>");
    assert_eq!(CLOSE_MARKER, "</plain>");
}

#[test]
fn wrap_spans_without_spans_returns_the_text() {
    assert_eq!(wrap_spans("héllo", &vec![], "[", "]"), "héllo");
    assert_eq!(wrap_spans("", &vec![], "[", "]"), "");
}

#[test]
fn wrap_spans_wraps_each_span_once() {
    assert_eq!(wrap_spans("abcdef", &vec![(1, 3), (3, 4)], "[", "]"), "a[bc][d]ef");
    assert_eq!(wrap_spans("abcdef", &vec![(0, 6)], "<", ">"), "<abcdef>");
    assert_eq!(wrap_spans("abcdef", &vec![(0, 0), (6, 6)], "<", ">"), "<>abcdef<>");
}

#[test]
fn wrap_spans_counts_bytes_not_characters() {
    // 'é' takes two bytes, '太' three.
    assert_eq!(wrap_spans("é太x", &vec![(2, 5)], "(", ")"), "é(太)x");
    assert_eq!(wrap_spans("é太x", &vec![(0, 2), (5, 6)], "(", ")"), "(é)太(x)");
}

#[test]
fn wrap_spans_with_empty_markers_changes_nothing() {
    assert_eq!(wrap_spans("a @b c", &vec![(2, 4)], "", ""), "a @b c");
}

#[test]
fn spans_in_order_on_boundaries_fit() {
    assert!(spans_fit_text("abcdef", &vec![]));
    assert!(spans_fit_text("abcdef", &vec![(1, 3), (3, 4)]));
    assert!(spans_fit_text("abcdef", &vec![(0, 0), (0, 6), (6, 6)]));
    assert!(spans_fit_text("é太x", &vec![(0, 2), (2, 5), (5, 6)]));
    assert!(spans_fit_text("", &vec![(0, 0)]));
}

#[test]
fn span_that_ends_before_it_starts_does_not_fit() {
    assert!(!spans_fit_text("abcdef", &vec![(3, 1)]));
}

#[test]
fn span_beyond_the_text_does_not_fit() {
    assert!(!spans_fit_text("abcdef", &vec![(2, 7)]));
    assert!(!spans_fit_text("abcdef", &vec![(7, 7)]));
    assert!(!spans_fit_text("", &vec![(0, 1)]));
}

#[test]
fn span_inside_a_character_does_not_fit() {
    // 'é' takes the bytes 0 and 1.
    assert!(!spans_fit_text("éx", &vec![(1, 2)]));
    assert!(!spans_fit_text("éx", &vec![(0, 1)]));
}

#[test]
fn spans_that_overlap_or_go_back_do_not_fit() {
    assert!(!spans_fit_text("abcdef", &vec![(0, 3), (2, 4)]));
    assert!(!spans_fit_text("abcdef", &vec![(3, 4), (0, 1)]));
    assert!(!spans_fit_text("abcdef", &vec![(0, 1), (2, 3), (1, 2)]));
}

#[test]
fn what_the_search_finds_fits() {
    for text in ["", "@a", "grüße @jürgen@münchen.de!", "@a@b@c", "🎉@a🎉 @b"] {
        assert!(spans_fit_text(text, &find_mentions(text).unwrap()));
    }
}

#[test]
fn malformed_pattern_is_rejected() {
    assert_eq!(find_matches("(", "abc"), Err(PatternRejected));
    assert_eq!(find_matches(r"\w{1000}", "abc"), Err(PatternRejected));
}

#[test]
fn pattern_for_mentions_is_accepted() {
    assert_eq!(find_matches(MENTION_PATTERN, ""), Ok(vec![]));
    assert!(sanitize_mentions(String::new()).is_ok());
}

#[test]
fn matches_come_in_the_order_of_the_text() {
    assert_eq!(find_matches(r"\d+", "a12b3"), Ok(vec![(1, 3), (4, 5)]));
    assert_eq!(find_matches("", "ab"), Ok(vec![(0, 0), (1, 1), (2, 2)]));
}

#[test]
fn mention_stands_in_its_place() {
    // Two characters lie in front of the first mention, eleven in front
    // of the second, behind which one pair of markers has been added.
    let out: Vec<char> = clean("ü @a@b.c ü @d").chars().collect();
    let first: String = out[2..2 + 15 + 6].iter().collect();
    assert_eq!(first, "<plain>@a@b.c</plain>");
    let second: String = out[11 + 15..11 + 15 + 15 + 2].iter().collect();
    assert_eq!(second, "<plain>@d</plain>");
    assert_eq!(out.len(), 13 + 2 * 15);
}
