//! Getting an account's posts: from the stored snapshot when there is a
//! usable one, from the instance otherwise.
//!
//! A snapshot that was found is returned as it is: the instance is not
//! asked, and nothing is stored again. Without one, the account is read
//! page by page to its end, and the posts are stored before they are
//! returned. The [`Retrieval`] says which step comes next; the caller reads
//! the snapshot beforehand, sends the requests and writes the file.

use vstd::prelude::*;
use crate::fetch::{Fetcher, FetcherView, PageRequest, PageRequestView, ends_with_first_empty};
use crate::post::{Post, PostView};

verus! {

/// A retrieval under way.
pub enum Retrieval {
    /// The snapshot was usable; these are its posts.
    Cached(Vec<Post>),
    /// There was no usable snapshot; the account is being read.
    Fetching(Fetcher),
}

/// Model of a [`Retrieval`].
pub enum RetrievalView {
    Cached(Seq<PostView>),
    Fetching(FetcherView),
}

/// What the caller has to do next.
#[derive(Clone, Debug, PartialEq, Eq)]
pub enum Step {
    /// Send this request and hand the answer to [`Retrieval::accept_page`].
    Fetch(PageRequest),
    /// Store the posts as the new snapshot, then return them.
    StoreAndReturn,
    /// Return the posts; nothing is to be stored.
    Return,
}

/// Model of a [`Step`].
pub enum StepView {
    Fetch(PageRequestView),
    StoreAndReturn,
    Return,
}

impl View for Step {
    type V = StepView;

    open spec fn view(&self) -> StepView {
        match self {
            Step::Fetch(request) => StepView::Fetch(request@),
            Step::StoreAndReturn => StepView::StoreAndReturn,
            Step::Return => StepView::Return,
        }
    }
}

impl RetrievalView {
    /// The retrieval for `user_id`, given what the snapshot held (`None`
    /// when there was no usable snapshot).
    pub open spec fn start(user_id: Seq<char>, cached: Option<Seq<PostView>>) -> RetrievalView {
        match cached {
            Some(posts) => RetrievalView::Cached(posts),
            None => RetrievalView::Fetching(FetcherView::start(user_id)),
        }
    }

    /// The step that comes next.
    pub open spec fn step(self) -> StepView {
        match self {
            RetrievalView::Cached(_) => StepView::Return,
            RetrievalView::Fetching(f) => match f.request() {
                Some(request) => StepView::Fetch(request),
                None => StepView::StoreAndReturn,
            },
        }
    }

    /// The retrieval after the answer `page` to its request. Only a
    /// retrieval that reads the account takes pages in.
    pub open spec fn after_page(self, page: Seq<PostView>) -> RetrievalView {
        match self {
            RetrievalView::Cached(_) => self,
            RetrievalView::Fetching(f) => RetrievalView::Fetching(f.after_page(page)),
        }
    }

    /// The retrieval after the answers `pages`, in this order.
    pub open spec fn after_pages(self, pages: Seq<Seq<PostView>>) -> RetrievalView
        decreases pages.len(),
    {
        if pages.len() == 0 {
            self
        } else {
            self.after_page(pages.first()).after_pages(pages.drop_first())
        }
    }

    /// The posts held: those of the snapshot, or those received so far.
    pub open spec fn posts(self) -> Seq<PostView> {
        match self {
            RetrievalView::Cached(posts) => posts,
            RetrievalView::Fetching(f) => f.posts,
        }
    }

    /// Whether the instance still has to be asked.
    pub open spec fn asks(self) -> bool {
        self.step() is Fetch
    }
}

impl View for Retrieval {
    type V = RetrievalView;

    open spec fn view(&self) -> RetrievalView {
        match self {
            Retrieval::Cached(posts) => RetrievalView::Cached(posts.deep_view()),
            Retrieval::Fetching(fetcher) => RetrievalView::Fetching(fetcher@),
        }
    }
}

/// Begins getting the posts of `user_id`. `cached` is what the snapshot
/// held, or `None` when there was no usable snapshot.
///
/// With a snapshot the retrieval is complete at once. Without one it
/// starts to read the account from its newest post.
pub fn get_posts(user_id: String, cached: Option<Vec<Post>>) -> (retrieval: Retrieval)
    ensures
        retrieval@ == RetrievalView::start(user_id@, cached.deep_view()),
{
    match cached {
        Some(posts) => Retrieval::Cached(posts),
        None => Retrieval::Fetching(Fetcher::new(user_id)),
    }
}

impl Retrieval {
    /// Says what the caller has to do next.
    pub fn next_step(&self) -> (step: Step)
        ensures
            step@ == self@.step(),
    {
        match self {
            Retrieval::Cached(_) => Step::Return,
            Retrieval::Fetching(fetcher) => match fetcher.next_request() {
                Some(request) => Step::Fetch(request),
                None => Step::StoreAndReturn,
            },
        }
    }

    /// Takes in the answer to the request of the last [`Step::Fetch`]. A
    /// retrieval that does not ask the instance drops the page.
    pub fn accept_page(&mut self, page: Vec<Post>)
        ensures
            final(self)@ == old(self)@.after_page(page.deep_view()),
    {
        match self {
            Retrieval::Cached(_) => {},
            Retrieval::Fetching(fetcher) => {
                fetcher.accept_page(page);
            },
        }
    }

    /// The posts held so far.
    pub fn posts(&self) -> (posts: &Vec<Post>)
        ensures
            posts.deep_view() == self@.posts(),
    {
        match self {
            Retrieval::Cached(posts) => posts,
            Retrieval::Fetching(fetcher) => fetcher.posts(),
        }
    }

    /// Ends the retrieval and hands out its posts.
    pub fn into_posts(self) -> (posts: Vec<Post>)
        ensures
            posts.deep_view() == self@.posts(),
    {
        match self {
            Retrieval::Cached(posts) => posts,
            Retrieval::Fetching(fetcher) => fetcher.into_posts(),
        }
    }
}

/// A retrieval that reads the account goes through the pages as its
/// fetcher does.
proof fn lemma_fetching_after_pages(f: FetcherView, pages: Seq<Seq<PostView>>)
    ensures
        RetrievalView::Fetching(f).after_pages(pages) == RetrievalView::Fetching(
            f.after_pages(pages),
        ),
    decreases pages.len(),
{
    if pages.len() > 0 {
        lemma_fetching_after_pages(f.after_page(pages.first()), pages.drop_first());
    }
}

/// A usable snapshot is returned as it is: no request is sent and nothing
/// is stored.
pub proof fn snapshot_needs_no_request(user_id: Seq<char>, posts: Seq<PostView>)
    ensures
        RetrievalView::start(user_id, Some(posts)).step() == StepView::Return,
        RetrievalView::start(user_id, Some(posts)).posts() == posts,
{
}

/// Without a snapshot the whole account is read, stored and returned.
///
/// The first request asks for the newest posts of `user_id`. When the
/// instance answers with `pages`, of which only the last is empty, the
/// retrieval asks until that page has come, then has the concatenation of
/// the pages stored and returned.
pub proof fn missing_snapshot_reads_account(user_id: Seq<char>, pages: Seq<Seq<PostView>>)
    requires
        ends_with_first_empty(pages),
    ensures
        RetrievalView::start(user_id, None).step() == StepView::Fetch(
            FetcherView::start(user_id).request().unwrap(),
        ),
        RetrievalView::start(user_id, None).after_pages(pages).step() == StepView::StoreAndReturn,
        RetrievalView::start(user_id, None).after_pages(pages).posts() == pages.flatten(),
        forall|k: int|
            0 <= k < pages.len() ==> (#[trigger] RetrievalView::start(user_id, None).after_pages(
                pages.take(k),
            )).asks(),
{
    let f = FetcherView::start(user_id);
    crate::fetch::fetch_collects_all_pages(user_id, None, pages);
    lemma_fetching_after_pages(f, pages);
    assert forall|k: int| 0 <= k < pages.len() implies (#[trigger] RetrievalView::start(
        user_id,
        None,
    ).after_pages(pages.take(k))).asks() by {
        lemma_fetching_after_pages(f, pages.take(k));
        assert(!f.after_pages(pages.take(k)).exhausted);
    }
}

/// Retrieving twice in a row asks the instance once.
///
/// Let a first retrieval have read the account to its end, so that its
/// posts are stored. A second retrieval that finds them in the snapshot
/// returns the same posts, sends no request and stores nothing.
pub proof fn second_retrieval_is_idle(first: RetrievalView, user_id: Seq<char>)
    requires
        first.step() == StepView::StoreAndReturn,
    ensures
        RetrievalView::start(user_id, Some(first.posts())).step() == StepView::Return,
        !RetrievalView::start(user_id, Some(first.posts())).asks(),
        RetrievalView::start(user_id, Some(first.posts())).posts() == first.posts(),
{
}

} // verus!
