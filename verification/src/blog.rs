//! A blog post on its way from draft through review to publication.
//!
//! A post is written while it is a draft, waits for two approvals while it
//! is under review, and shows its text only once it is published. A call
//! that does not fit the state the post is in changes nothing.

use vstd::prelude::*;

verus! {

/// Where a post stands.
#[derive(Clone, Copy, Debug, PartialEq, Eq, Structural)]
pub enum State {
    /// Being written; text can be added.
    Draft,
    /// Waiting for approvals.
    PendingReview,
    /// Approved; the text is visible.
    Published,
}

/// The number of approvals that publish a post under review.
pub const REQUIRED_APPROVALS: u8 = 2;

/// A post as a mathematical value: its state, the text added so far, and
/// the approvals received in the current review.
pub struct Document {
    pub state: State,
    pub text: Seq<char>,
    pub approvals: nat,
}

impl Document {
    /// A new post: an empty draft.
    pub open spec fn fresh() -> Document {
        Document { state: State::Draft, text: Seq::empty(), approvals: 0 }
    }

    /// Approvals are counted only during a review, and a review ends as
    /// soon as there are enough of them.
    pub open spec fn well_formed(self) -> bool {
        if self.state == State::PendingReview {
            self.approvals < REQUIRED_APPROVALS
        } else {
            self.approvals == 0
        }
    }

    /// A draft grows by `fragment`; any other post stays as it is.
    pub open spec fn add_text(self, fragment: Seq<char>) -> Document {
        if self.state == State::Draft {
            Document { text: self.text + fragment, ..self }
        } else {
            self
        }
    }

    /// A draft goes to review with no approvals yet; any other post stays
    /// as it is.
    pub open spec fn request_review(self) -> Document {
        if self.state == State::Draft {
            Document { state: State::PendingReview, approvals: 0, ..self }
        } else {
            self
        }
    }

    /// A post under review goes back to draft and keeps its text; any
    /// other post stays as it is.
    pub open spec fn reject(self) -> Document {
        if self.state == State::PendingReview {
            Document { state: State::Draft, approvals: 0, ..self }
        } else {
            self
        }
    }

    /// A post under review gains one approval, and is published when that
    /// makes enough; any other post stays as it is.
    pub open spec fn approve(self) -> Document {
        if self.state == State::PendingReview {
            if self.approvals + 1 >= REQUIRED_APPROVALS {
                Document { state: State::Published, approvals: 0, ..self }
            } else {
                Document { approvals: self.approvals + 1, ..self }
            }
        } else {
            self
        }
    }

    /// What a reader sees: the whole text of a published post, and nothing
    /// of any other.
    pub open spec fn visible_content(self) -> Seq<char> {
        if self.state == State::Published {
            self.text
        } else {
            Seq::empty()
        }
    }

    /// The post after one operation.
    pub open spec fn apply(self, op: Operation) -> Document {
        match op {
            Operation::AddText(fragment) => self.add_text(fragment),
            Operation::RequestReview => self.request_review(),
            Operation::Reject => self.reject(),
            Operation::Approve => self.approve(),
        }
    }

    /// A new post after the operations of `ops`, first to last.
    pub open spec fn after(ops: Seq<Operation>) -> Document
        decreases ops.len(),
    {
        if ops.len() == 0 {
            Document::fresh()
        } else {
            Document::after(ops.drop_last()).apply(ops.last())
        }
    }
}

/// One of the four calls that can change a post.
pub enum Operation {
    AddText(Seq<char>),
    RequestReview,
    Reject,
    Approve,
}

/// Whatever is done to a new post, its approvals stay in step with its
/// state.
pub proof fn lemma_after_well_formed(ops: Seq<Operation>)
    ensures
        Document::after(ops).well_formed(),
    decreases ops.len(),
{
    if ops.len() > 0 {
        lemma_after_well_formed(ops.drop_last());
    }
}

/// Whatever is done to a new post, it shows text only if it is published.
pub proof fn lemma_visible_only_when_published(ops: Seq<Operation>)
    ensures
        Document::after(ops).visible_content().len() > 0 ==> Document::after(ops).state
            == State::Published,
{
}

/// Whatever is done to a new post, once it holds some text it shows text
/// exactly when it is published. (A post published without any text shows
/// nothing, like a draft.)
pub proof fn lemma_visible_iff_published(ops: Seq<Operation>)
    requires
        Document::after(ops).text.len() > 0,
    ensures
        Document::after(ops).visible_content().len() > 0 <==> Document::after(ops).state
            == State::Published,
{
}

/// Asking for a review twice is the same as asking once, and asking
/// during a review leaves the approvals received so far in place.
pub proof fn lemma_request_review_idempotent(post: Document)
    ensures
        post.request_review().request_review() == post.request_review(),
        post.state == State::PendingReview ==> post.request_review() == post,
{
}

/// The state of a post together with the approvals of its review.
struct Progress {
    state: State,
    approvals: u8,
}

impl Progress {
    #[verifier::type_invariant]
    spec fn counted(self) -> bool {
        if self.state == State::PendingReview {
            self.approvals < REQUIRED_APPROVALS
        } else {
            self.approvals == 0
        }
    }
}

/// A blog post.
pub struct Post {
    progress: Progress,
    content: String,
}

impl View for Post {
    type V = Document;

    closed spec fn view(&self) -> Document {
        Document {
            state: self.progress.state,
            text: self.content@,
            approvals: self.progress.approvals as nat,
        }
    }
}

impl Post {
    /// A new post: a draft without text.
    pub fn new() -> (post: Post)
        ensures
            post@ == Document::fresh(),
            post@.state == State::Draft,
            post@.visible_content() == Seq::<char>::empty(),
    {
        Post { progress: Progress { state: State::Draft, approvals: 0 }, content: String::new() }
    }

    /// Adds `text` at the end of a draft. On a post that is no draft this
    /// does nothing.
    pub fn add_text(&mut self, text: &str)
        ensures
            final(self)@ == old(self)@.add_text(text@),
            old(self)@.state != State::Draft ==> final(self)@ == old(self)@,
            final(self)@.well_formed(),
    {
        proof {
            use_type_invariant(&self.progress);
        }
        match self.progress.state {
            State::Draft => {
                self.content.append(text);
            },
            _ => {},
        }
    }

    /// Sends a draft to review. On a post that is no draft this does
    /// nothing: a review that is under way keeps its approvals.
    pub fn request_review(&mut self)
        ensures
            final(self)@ == old(self)@.request_review(),
            final(self)@.well_formed(),
    {
        proof {
            use_type_invariant(&self.progress);
        }
        match self.progress.state {
            State::Draft => {
                self.progress.state = State::PendingReview;
            },
            _ => {},
        }
    }

    /// Sends a post under review back to draft, with its text. On any
    /// other post this does nothing.
    pub fn reject(&mut self)
        ensures
            final(self)@ == old(self)@.reject(),
            final(self)@.well_formed(),
    {
        proof {
            use_type_invariant(&self.progress);
        }
        match self.progress.state {
            State::PendingReview => {
                self.progress.approvals = 0;
                self.progress.state = State::Draft;
            },
            _ => {},
        }
    }

    /// Counts one approval of a post under review, and publishes the post
    /// when it is the second. On any other post this does nothing.
    pub fn approve(&mut self)
        ensures
            final(self)@ == old(self)@.approve(),
            final(self)@.well_formed(),
    {
        proof {
            use_type_invariant(&self.progress);
        }
        match self.progress.state {
            State::PendingReview => {
                if self.progress.approvals + 1 >= REQUIRED_APPROVALS {
                    self.progress.approvals = 0;
                    self.progress.state = State::Published;
                } else {
                    self.progress.approvals = self.progress.approvals + 1;
                }
            },
            _ => {},
        }
    }

    /// The text of a published post; the empty string for any other.
    pub fn visible_content(&self) -> (shown: &str)
        ensures
            shown@ == self@.visible_content(),
            shown@.len() > 0 ==> self@.state == State::Published,
    {
        match self.progress.state {
            State::Published => self.content.as_str(),
            _ => {
                proof {
                    reveal_strlit("");
                }
                ""
            },
        }
    }

    /// The state the post is in.
    pub fn current_state(&self) -> (state: State)
        ensures
            state == self@.state,
    {
        self.progress.state
    }
}

} // verus!
