use misskey_bot::fetch::PageRequest;
use misskey_bot::post::{Post, User};
use misskey_bot::retrieve::{get_posts, Retrieval, Step};

fn note(id: &str) -> Post {
    Post {
        id: id.to_string(),
        text: Some(format!("note {}", id)),
        cw: None,
        user: User { name: "Ann".to_string(), username: "ann".to_string(), host: None },
    }
}

fn notes(ids: &[&str]) -> Vec<Post> {
    ids.iter().map(|id| note(id)).collect()
}

/// An instance that holds `stored` posts, newest first, and hands out at
/// most `page_size` of them per request.
fn answer(stored: &[Post], page_size: usize, request: &PageRequest) -> Vec<Post> {
    let from = match &request.until_id {
        None => 0,
        Some(id) => stored.iter().position(|p| &p.id == id).unwrap() + 1,
    };
    stored[from..].iter().take(page_size).cloned().collect()
}

/// Runs one retrieval against the instance and the snapshot, as the
/// program does; returns the posts and the number of requests sent.
fn retrieve(stored: &[Post], snapshot: &mut Option<Vec<Post>>) -> (Vec<Post>, usize) {
    let mut retrieval = get_posts("u1".to_string(), snapshot.clone());
    let mut sent = 0;
    loop {
        match retrieval.next_step() {
            Step::Fetch(request) => {
                sent += 1;
                retrieval.accept_page(answer(stored, 2, &request));
            }
            Step::StoreAndReturn => {
                *snapshot = Some(retrieval.posts().clone());
                return (retrieval.into_posts(), sent);
            }
            Step::Return => return (retrieval.into_posts(), sent),
        }
    }
}

#[test]
fn snapshot_is_returned_without_asking() {
    let cached = notes(&["3", "2"]);
    let retrieval = get_posts("u1".to_string(), Some(cached.clone()));
    assert_eq!(retrieval.next_step(), Step::Return);
    assert_eq!(retrieval.posts(), &cached);
    assert_eq!(retrieval.into_posts(), cached);
}

#[test]
fn empty_snapshot_is_a_snapshot() {
    let retrieval = get_posts("u1".to_string(), Some(vec![]));
    assert_eq!(retrieval.next_step(), Step::Return);
    assert!(retrieval.into_posts().is_empty());
}

#[test]
fn without_snapshot_the_newest_page_is_asked_first() {
    let retrieval = get_posts("u1".to_string(), None);
    assert_eq!(
        retrieval.next_step(),
        Step::Fetch(PageRequest {
            user_id: "u1".to_string(),
            limit: 100,
            until_id: None,
            with_renotes: false,
            with_bots: false,
        })
    );
}

#[test]
fn account_is_read_to_its_end_then_stored() {
    let mut retrieval = get_posts("u1".to_string(), None);
    retrieval.accept_page(notes(&["5", "4"]));
    assert_eq!(
        retrieval.next_step(),
        Step::Fetch(PageRequest {
            user_id: "u1".to_string(),
            limit: 100,
            until_id: Some("4".to_string()),
            with_renotes: false,
            with_bots: false,
        })
    );
    retrieval.accept_page(notes(&["3"]));
    assert!(matches!(retrieval.next_step(), Step::Fetch(_)));
    retrieval.accept_page(vec![]);
    assert_eq!(retrieval.next_step(), Step::StoreAndReturn);
    assert_eq!(retrieval.into_posts(), notes(&["5", "4", "3"]));
}

#[test]
fn empty_account_is_stored_as_an_empty_snapshot() {
    let mut retrieval = get_posts("u1".to_string(), None);
    retrieval.accept_page(vec![]);
    assert_eq!(retrieval.next_step(), Step::StoreAndReturn);
    assert!(retrieval.into_posts().is_empty());
}

#[test]
fn cached_retrieval_drops_pages() {
    let mut retrieval = get_posts("u1".to_string(), Some(notes(&["1"])));
    retrieval.accept_page(notes(&["0"]));
    assert!(matches!(retrieval, Retrieval::Cached(_)));
    assert_eq!(retrieval.next_step(), Step::Return);
    assert_eq!(retrieval.into_posts(), notes(&["1"]));
}

#[test]
fn second_retrieval_sends_no_request_and_returns_the_same() {
    let stored = notes(&["7", "6", "5", "4", "3"]);
    let mut snapshot = None;

    let (first, sent_first) = retrieve(&stored, &mut snapshot);
    assert_eq!(first, stored);
    // Pages of 2, 2, 1 and the empty one.
    assert_eq!(sent_first, 4);
    assert_eq!(snapshot, Some(stored.clone()));

    let (second, sent_second) = retrieve(&stored, &mut snapshot);
    assert_eq!(sent_second, 0);
    assert_eq!(second, first);
}

#[test]
fn snapshot_hides_newer_posts_of_the_instance() {
    let mut snapshot = Some(notes(&["2", "1"]));
    let (posts, sent) = retrieve(&notes(&["3", "2", "1"]), &mut snapshot);
    assert_eq!(sent, 0);
    assert_eq!(posts, notes(&["2", "1"]));
}
