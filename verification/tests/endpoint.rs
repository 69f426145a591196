use misskey_bot::endpoint::{
    bearer, bearer_trimmed, create_url, note_url, notes_url, trim, white_space,
};

#[test]
fn addresses_are_built_on_the_instance() {
    assert_eq!(notes_url("social.mldchan.dev"), "https://social.mldchan.dev/api/users/notes");
    assert_eq!(create_url("social.mldchan.dev"), "https://social.mldchan.dev/api/notes/create");
    assert_eq!(note_url("social.mldchan.dev", "9xyz"), "https://social.mldchan.dev/notes/9xyz");
}

#[test]
fn addresses_of_an_empty_instance() {
    assert_eq!(notes_url(""), "https:///api/users/notes");
    assert_eq!(note_url("", ""), "https:///notes/");
}

#[test]
fn bearer_uses_the_token_as_it_is() {
    assert_eq!(bearer("abc"), "Bearer abc");
    assert_eq!(bearer(" abc "), "Bearer  abc ");
    assert_eq!(bearer(""), "Bearer ");
}

#[test]
fn bearer_trimmed_drops_white_space_around_the_token() {
    assert_eq!(bearer_trimmed("  abc\n"), "Bearer abc");
    assert_eq!(bearer_trimmed("\t\r\n abc def \u{3000}\u{a0}"), "Bearer abc def");
    assert_eq!(bearer_trimmed("abc"), "Bearer abc");
    assert_eq!(bearer_trimmed(" \n "), "Bearer ");
    assert_eq!(bearer_trimmed(""), "Bearer ");
}

#[test]
fn bearer_trimmed_keeps_what_is_no_white_space() {
    // U+200B, the zero-width space, is no white space.
    assert_eq!(bearer_trimmed("\u{200b}abc\u{200b}"), "Bearer \u{200b}abc\u{200b}");
}

#[test]
fn white_space_is_what_the_standard_library_trims() {
    let mut code: u32 = 0;
    while code <= 0x10ffff {
        if let Some(c) = char::from_u32(code) {
            assert_eq!(white_space(c), c.is_whitespace(), "U+{:04X}", code);
        }
        code += 1;
    }
}

#[test]
fn trim_cuts_white_space_off_both_ends() {
    assert_eq!(trim("  abc  "), "abc");
    assert_eq!(trim("abc"), "abc");
    assert_eq!(trim("\n\tabc def\r\n"), "abc def");
    assert_eq!(trim("a"), "a");
    assert_eq!(trim(" a"), "a");
    assert_eq!(trim("a "), "a");
}

#[test]
fn trim_of_nothing_but_white_space_is_empty() {
    assert_eq!(trim(""), "");
    assert_eq!(trim(" "), "");
    assert_eq!(trim(" \t\n\u{3000} "), "");
}

#[test]
fn trim_keeps_white_space_inside() {
    assert_eq!(trim(" a  b\tc "), "a  b\tc");
}

#[test]
fn trim_handles_characters_of_several_bytes() {
    assert_eq!(trim("\u{2003}grüße 太郎\u{a0}"), "grüße 太郎");
    assert_eq!(trim("🎉 "), "🎉");
}

#[test]
fn trim_agrees_with_the_standard_library() {
    let mut code: u32 = 0;
    while code <= 0x3100 {
        if let Some(c) = char::from_u32(code) {
            for text in [
                format!("{}", c),
                format!("{}x{}", c, c),
                format!(" {}x {} ", c, c),
                format!("x{}y", c),
                format!("{}{}", c, c),
            ] {
                assert_eq!(trim(&text), text.trim(), "U+{:04X}", code);
            }
        }
        code += 1;
    }
}
