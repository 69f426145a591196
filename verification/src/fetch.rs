//! Walking an account's posts page by page, newest first.
//!
//! The instance answers one request with at most [`PAGE_LIMIT`] posts. Each
//! further request asks for the posts older than the oldest one received so
//! far, until a page comes back empty. The [`Fetcher`] keeps what has been
//! received and says what to ask next; sending the request is the caller's
//! part.

use vstd::prelude::*;
use crate::post::{Post, PostView};

verus! {

/// Greatest number of posts asked for in one request.
pub const PAGE_LIMIT: u32 = 100;

/// One request for a page of an account's posts.
#[derive(Clone, Debug, PartialEq, Eq)]
pub struct PageRequest {
    /// The account whose posts are asked for.
    pub user_id: String,
    /// Greatest number of posts in the answer.
    pub limit: u32,
    /// Only posts older than this one are asked for; `None` asks for the newest.
    pub until_id: Option<String>,
    /// Whether reposts are included.
    pub with_renotes: bool,
    /// Whether posts of bot accounts are included.
    pub with_bots: bool,
}

/// Model of a [`PageRequest`].
pub struct PageRequestView {
    pub user_id: Seq<char>,
    pub limit: u32,
    pub until_id: Option<Seq<char>>,
    pub with_renotes: bool,
    pub with_bots: bool,
}

impl View for PageRequest {
    type V = PageRequestView;

    open spec fn view(&self) -> PageRequestView {
        PageRequestView {
            user_id: self.user_id@,
            limit: self.limit,
            until_id: self.until_id.deep_view(),
            with_renotes: self.with_renotes,
            with_bots: self.with_bots,
        }
    }
}

impl DeepView for PageRequest {
    type V = PageRequestView;

    open spec fn deep_view(&self) -> PageRequestView {
        self@
    }
}

/// The pages of one account received so far.
pub struct Fetcher {
    user_id: String,
    below: Option<String>,
    posts: Vec<Post>,
    exhausted: bool,
}

/// Model of a [`Fetcher`].
pub struct FetcherView {
    /// The account that is read.
    pub user_id: Seq<char>,
    /// Where the reading began: below this post, or at the newest post.
    pub below: Option<Seq<char>>,
    /// All posts received, in the order of their arrival.
    pub posts: Seq<PostView>,
    /// Whether an empty page has been received.
    pub exhausted: bool,
}

impl FetcherView {
    /// A fetcher that has received nothing yet.
    pub open spec fn fresh(user_id: Seq<char>, below: Option<Seq<char>>) -> FetcherView {
        FetcherView { user_id, below, posts: Seq::empty(), exhausted: false }
    }

    /// A fetcher that has received nothing yet and begins at the newest post.
    pub open spec fn start(user_id: Seq<char>) -> FetcherView {
        FetcherView::fresh(user_id, None)
    }

    /// A fetcher that has received nothing yet and begins below the post
    /// `last_id`.
    pub open spec fn start_below(user_id: Seq<char>, last_id: Seq<char>) -> FetcherView {
        FetcherView::fresh(user_id, Some(last_id))
    }

    /// The identifier below which the next page lies: that of the oldest
    /// post received, or else where the reading began.
    pub open spec fn cursor(self) -> Option<Seq<char>> {
        if self.posts.len() > 0 {
            Some(self.posts.last().id)
        } else {
            self.below
        }
    }

    /// The request to send next; `None` once the account is exhausted.
    pub open spec fn request(self) -> Option<PageRequestView> {
        if self.exhausted {
            None
        } else {
            Some(
                PageRequestView {
                    user_id: self.user_id,
                    limit: PAGE_LIMIT,
                    until_id: self.cursor(),
                    with_renotes: false,
                    with_bots: false,
                },
            )
        }
    }

    /// The fetcher after the answer `page` to its request. An empty page
    /// exhausts it; an exhausted fetcher ignores what it is handed.
    pub open spec fn after_page(self, page: Seq<PostView>) -> FetcherView {
        if self.exhausted {
            self
        } else {
            FetcherView {
                user_id: self.user_id,
                below: self.below,
                posts: self.posts + page,
                exhausted: page.len() == 0,
            }
        }
    }

    /// The fetcher after the answers `pages`, in this order.
    pub open spec fn after_pages(self, pages: Seq<Seq<PostView>>) -> FetcherView
        decreases pages.len(),
    {
        if pages.len() == 0 {
            self
        } else {
            self.after_page(pages.first()).after_pages(pages.drop_first())
        }
    }
}

/// Pages as an account with finitely many posts yields them: every page is
/// non-empty but the last, which is empty.
pub open spec fn ends_with_first_empty(pages: Seq<Seq<PostView>>) -> bool {
    &&& pages.len() > 0
    &&& pages.last().len() == 0
    &&& forall|i: int| 0 <= i < pages.len() - 1 ==> (#[trigger] pages[i]).len() > 0
}

impl View for Fetcher {
    type V = FetcherView;

    closed spec fn view(&self) -> FetcherView {
        FetcherView {
            user_id: self.user_id@,
            below: self.below.deep_view(),
            posts: self.posts.deep_view(),
            exhausted: self.exhausted,
        }
    }
}

impl Fetcher {
    /// Starts reading the posts of `user_id` at the newest one.
    pub fn new(user_id: String) -> (fetcher: Fetcher)
        ensures
            fetcher@ == FetcherView::start(user_id@),
    {
        let fetcher = Fetcher { user_id, below: None, posts: Vec::new(), exhausted: false };
        assert(fetcher.posts.deep_view() =~= Seq::<PostView>::empty());
        fetcher
    }

    /// Starts reading the posts of `user_id` that are older than the post
    /// `last_id`.
    pub fn older_than(user_id: String, last_id: String) -> (fetcher: Fetcher)
        ensures
            fetcher@ == FetcherView::start_below(user_id@, last_id@),
    {
        let fetcher = Fetcher {
            user_id,
            below: Some(last_id),
            posts: Vec::new(),
            exhausted: false,
        };
        assert(fetcher.posts.deep_view() =~= Seq::<PostView>::empty());
        fetcher
    }

    /// Whether an empty page has been received, so that nothing is left to ask.
    pub fn is_exhausted(&self) -> (b: bool)
        ensures
            b == self@.exhausted,
    {
        self.exhausted
    }

    /// The request to send next, or `None` when the account is exhausted.
    ///
    /// Each request asks for what is older than the oldest post received
    /// so far. Before any post has come, it asks for what is older than
    /// the post at which the reading began, or for the newest posts.
    pub fn next_request(&self) -> (request: Option<PageRequest>)
        ensures
            request.deep_view() == self@.request(),
    {
        if self.exhausted {
            return None;
        }
        let n: usize = self.posts.len();
        let until_id = if n > 0 {
            Some(self.posts[n - 1].id.clone())
        } else {
            self.below.clone()
        };
        Some(
            PageRequest {
                user_id: self.user_id.clone(),
                limit: PAGE_LIMIT,
                until_id,
                with_renotes: false,
                with_bots: false,
            },
        )
    }

    /// Takes in the answer to the request last given out.
    ///
    /// The page is appended to what was received before. An empty page marks
    /// the account as exhausted. A fetcher that is already exhausted drops
    /// the page and stays as it is.
    pub fn accept_page(&mut self, page: Vec<Post>)
        ensures
            final(self)@ == old(self)@.after_page(page.deep_view()),
    {
        if self.exhausted {
            return;
        }
        let mut page = page;
        let ghost before = self.posts;
        let ghost arrived = page;
        self.exhausted = page.len() == 0;
        self.posts.append(&mut page);
        assert(self.posts.deep_view() =~= before.deep_view() + arrived.deep_view());
    }

    /// The posts received so far, in the order of their arrival.
    pub fn posts(&self) -> (posts: &Vec<Post>)
        ensures
            posts.deep_view() == self@.posts,
    {
        &self.posts
    }

    /// Ends the reading and hands out the posts received.
    pub fn into_posts(self) -> (posts: Vec<Post>)
        ensures
            posts.deep_view() == self@.posts,
    {
        self.posts
    }
}

/// Appending the pages one by one is appending their concatenation, as long
/// as no page before the last is empty.
proof fn lemma_after_pages(f: FetcherView, pages: Seq<Seq<PostView>>)
    requires
        !f.exhausted,
        forall|i: int| 0 <= i < pages.len() - 1 ==> (#[trigger] pages[i]).len() > 0,
    ensures
        f.after_pages(pages).user_id == f.user_id,
        f.after_pages(pages).below == f.below,
        f.after_pages(pages).posts == f.posts + pages.flatten(),
        f.after_pages(pages).exhausted == (pages.len() > 0 && pages.last().len() == 0),
    decreases pages.len(),
{
    if pages.len() == 0 {
        assert(f.posts + pages.flatten() =~= f.posts);
    } else {
        let next = f.after_page(pages.first());
        let rest = pages.drop_first();
        if rest.len() == 0 {
            assert(pages.last() == pages.first());
            assert(next.after_pages(rest) == next);
            pages.lemma_flatten_one_element();
        } else {
            assert(pages[0].len() > 0);
            assert forall|i: int| 0 <= i < rest.len() - 1 implies (#[trigger] rest[i]).len() > 0 by {
                assert(rest[i] == pages[i + 1]);
            }
            lemma_after_pages(next, rest);
            assert(rest.last() == pages.last());
            assert(f.posts + pages.flatten() =~= next.posts + rest.flatten());
        }
    }
}

/// Reading an account terminates with all its posts in order.
///
/// When the instance answers with pages of which only the last is empty (as
/// pages of decreasing size do that end in an empty one), the fetcher asks
/// once per page and no more: it is exhausted after the last page and not
/// before, and then holds the concatenation of the pages in their order.
/// This holds wherever the reading began.
pub proof fn fetch_collects_all_pages(
    user_id: Seq<char>,
    below: Option<Seq<char>>,
    pages: Seq<Seq<PostView>>,
)
    requires
        ends_with_first_empty(pages),
    ensures
        FetcherView::fresh(user_id, below).after_pages(pages).exhausted,
        FetcherView::fresh(user_id, below).after_pages(pages).request() is None,
        FetcherView::fresh(user_id, below).after_pages(pages).posts == pages.flatten(),
        forall|k: int|
            0 <= k < pages.len() ==> !(#[trigger] FetcherView::fresh(user_id, below).after_pages(
                pages.take(k),
            )).exhausted,
{
    let start = FetcherView::fresh(user_id, below);
    lemma_after_pages(start, pages);
    assert(start.posts + pages.flatten() =~= pages.flatten());
    assert forall|k: int| 0 <= k < pages.len() implies !(#[trigger] start.after_pages(
        pages.take(k),
    )).exhausted by {
        let head = pages.take(k);
        assert forall|i: int| 0 <= i < head.len() - 1 implies (#[trigger] head[i]).len() > 0 by {
            assert(head[i] == pages[i]);
        }
        lemma_after_pages(start, head);
        if k > 0 {
            assert(head.last() == pages[k - 1]);
        }
    }
}

/// The first request asks for what lies below the post at which the
/// reading began, or for the newest posts when it began at the top. It
/// asks for at most a hundred posts, without reposts and without the
/// posts of bots.
pub proof fn fetch_begins_where_told(user_id: Seq<char>, below: Option<Seq<char>>)
    ensures
        FetcherView::fresh(user_id, below).request() is Some,
        FetcherView::fresh(user_id, below).request().unwrap().user_id == user_id,
        FetcherView::fresh(user_id, below).request().unwrap().until_id == below,
        FetcherView::fresh(user_id, below).request().unwrap().limit == 100,
        !FetcherView::fresh(user_id, below).request().unwrap().with_renotes,
        !FetcherView::fresh(user_id, below).request().unwrap().with_bots,
{
}

/// Each request after the first asks for what is older than the last post
/// of the page before.
pub proof fn fetch_follows_cursor(f: FetcherView, page: Seq<PostView>)
    requires
        !f.exhausted,
        page.len() > 0,
    ensures
        f.after_page(page).request() is Some,
        f.after_page(page).request().unwrap().until_id == Some(page.last().id),
        f.after_page(page).request().unwrap().user_id == f.user_id,
{
    assert((f.posts + page).last() == page.last());
}

} // verus!
