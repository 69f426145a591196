//! Making a new text out of the posts that were read.
//!
//! The texts of the posts train a Markov chain of the `markov` crate.
//! The chain is asked for a number of chunks, and the generated text is
//! these chunks in a row, each followed by one space. What the chain
//! answers is a matter of chance; what is proved is how its answers are
//! put together.

use vstd::prelude::*;
use crate::post::{Post, PostView};

verus! {

/// A text model: a Markov chain of the `markov` crate over the words of
/// the texts it was fed.
///
/// The chain is opaque to the verifier. What is known of it is what the
/// trusted functions below say, over the texts it was fed
/// ([`chain_fed`]).
#[verifier::external_body]
pub struct Model {
    chain: markov::Chain<String>,
}

/// The texts that a model has been fed, in the order of feeding.
pub uninterp spec fn chain_fed(model: Model) -> Seq<Seq<char>>;

/// The texts of those of `posts` that have one, in the posts' order.
pub open spec fn texts_of(posts: Seq<PostView>) -> Seq<Seq<char>>
    decreases posts.len(),
{
    if posts.len() == 0 {
        Seq::empty()
    } else {
        match posts.last().text {
            Some(text) => texts_of(posts.drop_last()).push(text),
            None => texts_of(posts.drop_last()),
        }
    }
}

/// The chunks in a row, each followed by one space.
pub open spec fn joined(chunks: Seq<Seq<char>>) -> Seq<char>
    decreases chunks.len(),
{
    if chunks.len() == 0 {
        Seq::empty()
    } else {
        joined(chunks.drop_last()) + chunks.last() + " "@
    }
}

/// Calls `markov::Chain::new`.
///
/// Trusted: the new chain has been fed nothing.
#[verifier::external_body]
fn chain_new() -> (model: Model)
    ensures
        chain_fed(model) == Seq::<Seq<char>>::empty(),
{
    Model { chain: markov::Chain::new() }
}

/// Calls `markov::Chain::feed_str`.
///
/// Trusted: the chain has then been fed `text` after what it had been
/// fed before.
#[verifier::external_body]
fn chain_feed(model: &mut Model, text: &str)
    ensures
        chain_fed(*final(model)) == chain_fed(*old(model)).push(text@),
{
    model.chain.feed_str(text);
}

/// Calls `markov::Chain::is_empty`.
///
/// Trusted: a chain is empty exactly when it has been fed nothing.
#[verifier::external_body]
fn chain_is_empty(model: &Model) -> (empty: bool)
    ensures
        empty == (chain_fed(*model).len() == 0),
{
    model.chain.is_empty()
}

/// Calls `markov::Chain::generate_str`, which picks its words at random.
///
/// A chain that has been fed nothing cannot generate: the call is made
/// only on one that has been fed. Nothing is claimed of the result.
#[verifier::external_body]
fn chain_generate(model: &Model) -> (chunk: String)
    requires
        chain_fed(*model).len() > 0,
{
    model.chain.generate_str()
}

impl View for Model {
    type V = Seq<Seq<char>>;

    /// The texts fed so far.
    open spec fn view(&self) -> Seq<Seq<char>> {
        chain_fed(*self)
    }
}

impl Model {
    /// A model that has been fed nothing.
    pub fn new() -> (model: Model)
        ensures
            model@ == Seq::<Seq<char>>::empty(),
    {
        chain_new()
    }

    /// Whether the model has been fed at least one text.
    pub fn is_trained(&self) -> (trained: bool)
        ensures
            trained == (self@.len() > 0),
    {
        !chain_is_empty(self)
    }

    /// Feeds one text.
    pub fn feed(&mut self, text: &str)
        ensures
            final(self)@ == old(self)@.push(text@),
    {
        chain_feed(self, text);
    }

    /// Feeds the text of every post that has one, in the posts' order.
    /// Posts without text are passed over.
    pub fn train(&mut self, posts: &Vec<Post>)
        ensures
            final(self)@ == old(self)@ + texts_of(posts.deep_view()),
    {
        let mut i: usize = 0;
        proof {
            assert(posts.deep_view().take(0) =~= Seq::<PostView>::empty());
            assert(self@ + texts_of(Seq::<PostView>::empty()) =~= self@);
        }
        while i < posts.len()
            invariant
                i <= posts.len(),
                self@ == old(self)@ + texts_of(posts.deep_view().take(i as int)),
            decreases posts.len() - i,
        {
            proof {
                let ghost head = posts.deep_view().take(i as int + 1);
                assert(head.drop_last() =~= posts.deep_view().take(i as int));
                assert(head.last() == posts@[i as int]@);
            }
            match &posts[i].text {
                Some(text) => {
                    self.feed(text.as_str());
                },
                None => {},
            }
            i += 1;
        }
        proof {
            assert(posts.deep_view().take(i as int) =~= posts.deep_view());
        }
    }

    /// Generates a text of `count` chunks, each followed by one space.
    ///
    /// The chunks are the chain's to choose. A model that has been fed
    /// nothing has no words to choose from and yields `None`.
    pub fn generate_text(&self, count: usize) -> (text: Option<String>)
        ensures
            text is Some <==> self@.len() > 0,
            text matches Some(t) ==> exists|chunks: Seq<Seq<char>>|
                chunks.len() == count && t@ == #[trigger] joined(chunks),
    {
        if !self.is_trained() {
            return None;
        }
        let mut chunks: Vec<String> = Vec::new();
        let mut i: usize = 0;
        while i < count
            invariant
                i <= count,
                chunks.len() == i,
                self@.len() > 0,
            decreases count - i,
        {
            chunks.push(chain_generate(self));
            i += 1;
        }
        let text = join_chunks(&chunks);
        proof {
            assert(chunks.deep_view().len() == count);
        }
        Some(text)
    }
}

/// Puts generated chunks in a row, each followed by one space.
pub fn join_chunks(chunks: &Vec<String>) -> (text: String)
    ensures
        text@ == joined(chunks.deep_view()),
{
    let mut text = String::new();
    let mut i: usize = 0;
    proof {
        assert(chunks.deep_view().take(0) =~= Seq::<Seq<char>>::empty());
    }
    while i < chunks.len()
        invariant
            i <= chunks.len(),
            text@ == joined(chunks.deep_view().take(i as int)),
        decreases chunks.len() - i,
    {
        proof {
            let ghost head = chunks.deep_view().take(i as int + 1);
            assert(head.drop_last() =~= chunks.deep_view().take(i as int));
            assert(head.last() == chunks@[i as int]@);
        }
        text.append(chunks[i].as_str());
        text.append(" ");
        i += 1;
    }
    proof {
        assert(chunks.deep_view().take(i as int) =~= chunks.deep_view());
    }
    text
}

} // verus!
