//! Addresses on an instance, and the header that authorises a request.

use vstd::prelude::*;

verus! {

/// Whether `c` is white space in the sense of Unicode's property
/// `White_Space`.
pub open spec fn is_white_space(c: char) -> bool {
    let n = c as u32;
    ||| 0x09 <= n <= 0x0d
    ||| n == 0x20
    ||| n == 0x85
    ||| n == 0xa0
    ||| n == 0x1680
    ||| 0x2000 <= n <= 0x200a
    ||| n == 0x2028
    ||| n == 0x2029
    ||| n == 0x202f
    ||| n == 0x205f
    ||| n == 0x3000
}

/// `s` without the white space at its start.
pub open spec fn trimmed_start(s: Seq<char>) -> Seq<char>
    decreases s.len(),
{
    if s.len() > 0 && is_white_space(s.first()) {
        trimmed_start(s.drop_first())
    } else {
        s
    }
}

/// `s` without the white space at its end.
pub open spec fn trimmed_end(s: Seq<char>) -> Seq<char>
    decreases s.len(),
{
    if s.len() > 0 && is_white_space(s.last()) {
        trimmed_end(s.drop_last())
    } else {
        s
    }
}

/// `s` without the white space at its start and at its end.
pub open spec fn trimmed(s: Seq<char>) -> Seq<char> {
    trimmed_end(trimmed_start(s))
}

/// The address that answers with an account's posts.
pub open spec fn notes_url_of(instance: Seq<char>) -> Seq<char> {
    "https://"@ + instance + "/api/users/notes"@
}

/// The address that takes a new note.
pub open spec fn create_url_of(instance: Seq<char>) -> Seq<char> {
    "https://"@ + instance + "/api/notes/create"@
}

/// The address at which a note can be read.
pub open spec fn note_url_of(instance: Seq<char>, id: Seq<char>) -> Seq<char> {
    "https://"@ + instance + "/notes/"@ + id
}

/// The value of the `Authorization` header for `token`.
pub open spec fn bearer_of(token: Seq<char>) -> Seq<char> {
    "Bearer "@ + token
}

/// Tells whether `c` is white space.
pub fn white_space(c: char) -> (b: bool)
    ensures
        b == is_white_space(c),
{
    let n: u32 = c as u32;
    (0x09 <= n && n <= 0x0d) || n == 0x20 || n == 0x85 || n == 0xa0 || n == 0x1680 || (0x2000 <= n
        && n <= 0x200a) || n == 0x2028 || n == 0x2029 || n == 0x202f || n == 0x205f || n == 0x3000
}

/// Cuts the white space off both ends of `s`.
pub fn trim(s: &str) -> (t: &str)
    ensures
        t@ == trimmed(s@),
{
    let n: usize = s.unicode_len();
    let mut start: usize = 0;
    proof {
        assert(s@.subrange(0, n as int) =~= s@);
    }
    while start < n && white_space(s.get_char(start))
        invariant
            start <= n,
            n == s@.len(),
            trimmed_start(s@) == trimmed_start(s@.subrange(start as int, n as int)),
        decreases n - start,
    {
        proof {
            let rest = s@.subrange(start as int, n as int);
            assert(rest.first() == s@[start as int]);
            assert(rest.drop_first() =~= s@.subrange(start as int + 1, n as int));
        }
        start += 1;
    }
    let ghost middle = s@.subrange(start as int, n as int);
    proof {
        if start < n {
            assert(middle.first() == s@[start as int]);
        }
        assert(trimmed_start(s@) == middle);
    }
    let mut end: usize = n;
    while end > start && white_space(s.get_char(end - 1))
        invariant
            start <= end <= n,
            n == s@.len(),
            middle == s@.subrange(start as int, n as int),
            trimmed_end(middle) == trimmed_end(s@.subrange(start as int, end as int)),
        decreases end - start,
    {
        proof {
            let rest = s@.subrange(start as int, end as int);
            assert(rest.last() == s@[end - 1]);
            assert(rest.drop_last() =~= s@.subrange(start as int, end - 1));
        }
        end -= 1;
    }
    proof {
        let kept = s@.subrange(start as int, end as int);
        if end > start {
            assert(kept.last() == s@[end - 1]);
        }
        assert(trimmed_end(middle) == kept);
    }
    s.substring_char(start, end)
}

/// Builds the address that answers with an account's posts on `instance`.
pub fn notes_url(instance: &str) -> (url: String)
    ensures
        url@ == notes_url_of(instance@),
{
    let mut url = String::from_str("https://");
    url.append(instance);
    url.append("/api/users/notes");
    url
}

/// Builds the address that takes a new note on `instance`.
pub fn create_url(instance: &str) -> (url: String)
    ensures
        url@ == create_url_of(instance@),
{
    let mut url = String::from_str("https://");
    url.append(instance);
    url.append("/api/notes/create");
    url
}

/// Builds the address at which the note `id` can be read on `instance`.
pub fn note_url(instance: &str, id: &str) -> (url: String)
    ensures
        url@ == note_url_of(instance@, id@),
{
    let mut url = String::from_str("https://");
    url.append(instance);
    url.append("/notes/");
    url.append(id);
    url
}

/// Builds the value of the `Authorization` header for `token`, which is
/// used as it is.
pub fn bearer(token: &str) -> (header: String)
    ensures
        header@ == bearer_of(token@),
{
    let mut header = String::from_str("Bearer ");
    header.append(token);
    header
}

/// Builds the value of the `Authorization` header for a token read from
/// a file or a setting: white space around it is dropped first.
pub fn bearer_trimmed(token: &str) -> (header: String)
    ensures
        header@ == bearer_of(trimmed(token@)),
{
    bearer(trim(token))
}

} // verus!
