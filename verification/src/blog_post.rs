//! A revision workflow for a blog post.
//!
//! A [`Post`] gathers text while it is written and keeps it hidden
//! until it has been through review and been approved. The lifecycle
//! runs along the fixed path `Draft -> PendingReview -> Published`,
//! never backwards, and the transition operations are total: called
//! from any other state they leave the post exactly as it was.

use vstd::prelude::*;

verus! {

/// Lifecycle stage of a post: the closed set of states the revision
/// workflow moves through.
#[derive(Clone, Copy, Debug, PartialEq, Eq, Structural)]
pub enum State {
    Draft,
    PendingReview,
    Published,
}

/// What `request_review` does to a state: a draft moves under review;
/// any other state is left unchanged.
pub open spec fn review_transition(s: State) -> State {
    match s {
        State::Draft => State::PendingReview,
        _ => s,
    }
}

/// What `approve` does to a state: a post under review is published;
/// any other state — in particular a draft, which has not been
/// reviewed — is left unchanged.
pub open spec fn approve_transition(s: State) -> State {
    match s {
        State::PendingReview => State::Published,
        _ => s,
    }
}

/// The text a reader outside the workflow sees: the full content once
/// the post is published, and nothing before that.
pub open spec fn visible_of(s: State, content: Seq<char>) -> Seq<char> {
    if s is Published {
        content
    } else {
        Seq::empty()
    }
}

/// How far along the `Draft -> PendingReview -> Published` path a
/// state lies.
pub open spec fn stage(s: State) -> nat {
    match s {
        State::Draft => 0,
        State::PendingReview => 1,
        State::Published => 2,
    }
}

/// A blog post whose text is gathered while drafting and shown only
/// after review and approval.
///
/// The fields are private: a `Post` can only be made through [`Post::new`],
/// so every post starts life as an empty draft.
pub struct Post {
    state: State,
    content: String,
}

impl Post {
    /// The current lifecycle stage.
    pub closed spec fn spec_state(self) -> State {
        self.state
    }

    /// The full text accumulated so far, visible or not.
    pub closed spec fn spec_content(self) -> Seq<char> {
        self.content@
    }

    /// The text [`Post::content`] hands out: empty until published.
    pub open spec fn spec_visible(self) -> Seq<char> {
        visible_of(self.spec_state(), self.spec_content())
    }

    /// Makes a fresh post: always an empty draft.
    pub fn new() -> (post: Post)
        ensures
            post.spec_state() == State::Draft,
            post.spec_content() == Seq::<char>::empty(),
    {
        Post { state: State::Draft, content: String::new() }
    }

    /// Appends `text` to the post's content. Appending is allowed in
    /// every state and never changes the state; what it adds stays
    /// hidden until the post is published.
    pub fn add_text(&mut self, text: &str)
        ensures
            final(self).spec_state() == old(self).spec_state(),
            final(self).spec_content() == old(self).spec_content() + text@,
    {
        self.content.append(text);
    }

    /// The externally visible text: the whole content once published,
    /// and the empty string in every earlier state.
    pub fn content(&self) -> (text: &str)
        ensures
            text@ == self.spec_visible(),
    {
        proof {
            reveal_strlit("");
        }
        match self.state {
            State::Published => self.content.as_str(),
            _ => {
                let empty = "";
                proof {
                    assert(empty@ =~= Seq::<char>::empty());
                }
                empty
            },
        }
    }

    /// Asks for review: a draft moves to `PendingReview`; a post
    /// already under review or published is left untouched.
    pub fn request_review(&mut self)
        ensures
            final(self).spec_state() == review_transition(old(self).spec_state()),
            final(self).spec_content() == old(self).spec_content(),
    {
        match self.state {
            State::Draft => {
                self.state = State::PendingReview;
            },
            _ => {},
        }
    }

    /// Approves a reviewed post: a post under review is published; a
    /// draft cannot be approved without review, and a published post
    /// stays published.
    pub fn approve(&mut self)
        ensures
            final(self).spec_state() == approve_transition(old(self).spec_state()),
            final(self).spec_content() == old(self).spec_content(),
    {
        match self.state {
            State::PendingReview => {
                self.state = State::Published;
            },
            _ => {},
        }
    }

    /// The current state, for callers that want to inspect it.
    pub fn state(&self) -> (s: State)
        ensures
            s == self.spec_state(),
    {
        self.state
    }
}

/// However much text has been gathered, none of it is visible while
/// the post is still a draft or under review.
pub proof fn lemma_hidden_until_published(s: State, content: Seq<char>)
    requires
        s != State::Published,
    ensures
        visible_of(s, content) == Seq::<char>::empty(),
{
}

/// Requesting review and then approving walks a draft along
/// `Draft -> PendingReview -> Published`, after which the whole
/// accumulated content is visible.
pub proof fn lemma_review_then_approve(content: Seq<char>)
    ensures
        review_transition(State::Draft) == State::PendingReview,
        approve_transition(review_transition(State::Draft)) == State::Published,
        visible_of(approve_transition(review_transition(State::Draft)), content) == content,
{
}

/// Approval cannot skip review: approving a draft leaves it a draft,
/// with nothing visible.
pub proof fn lemma_approve_cannot_skip_review(content: Seq<char>)
    ensures
        approve_transition(State::Draft) == State::Draft,
        visible_of(approve_transition(State::Draft), content) == Seq::<char>::empty(),
{
}

/// Requesting review twice is the same as requesting it once: the
/// second request finds the post already under review (or published)
/// and changes nothing.
pub proof fn lemma_request_review_idempotent(s: State)
    ensures
        review_transition(review_transition(s)) == review_transition(s),
{
}

/// Approving twice is the same as approving once: the second approval
/// finds the post already published (or still an unreviewed draft)
/// and changes nothing.
pub proof fn lemma_approve_idempotent(s: State)
    ensures
        approve_transition(approve_transition(s)) == approve_transition(s),
{
}

/// Transitions only ever move forward along the lifecycle path; there
/// is no way back to an earlier stage.
pub proof fn lemma_transitions_monotonic(s: State)
    ensures
        stage(review_transition(s)) >= stage(s),
        stage(approve_transition(s)) >= stage(s),
{
}

} // verus!
