use misskey_bot::post::{CreatedNote, Post, User};

fn sample() -> Post {
    Post {
        id: "abc123".to_string(),
        text: Some("hi".to_string()),
        cw: None,
        user: User {
            name: "Ann".to_string(),
            username: "ann".to_string(),
            host: Some("example.org".to_string()),
        },
    }
}

#[test]
fn created_note_knows_its_id() {
    let created = CreatedNote::new(sample());
    assert_eq!(created.id(), "abc123");
}

#[test]
fn created_note_gives_the_post_back() {
    let created = CreatedNote::new(sample());
    assert_eq!(created.into_post(), sample());
}

#[test]
fn main_items_are_reachable_from_the_root() {
    let clean = misskey_bot::sanitize_mentions("@markov".to_string());
    assert_eq!(clean, Ok("<plain>@markov</plain>".to_string()));
    let retrieval = misskey_bot::get_posts("u1".to_string(), Some(vec![sample()]));
    assert_eq!(retrieval.next_step(), misskey_bot::Step::Return);
    let note = misskey_bot::CreatedNote::new(misskey_bot::Post {
        user: misskey_bot::User {
            name: String::new(),
            username: String::new(),
            host: None,
        },
        ..sample()
    });
    assert_eq!(note.id(), "abc123");
}
