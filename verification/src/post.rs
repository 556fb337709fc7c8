//! A small aggregate: a post whose title can be changed.

use vstd::prelude::*;
use crate::aggregate::{fold_events, Aggregate, AggregateState, Event};
use crate::error::Error;

verus! {

/// The aggregate of posts. It has no value of its own: it names the state,
/// command and event types of a post and holds the two functions on them.
pub struct Post;

/// The state of a post.
#[derive(Debug)]
pub struct PostData {
    title: String,
    body: Option<String>,
    generation: u64,
}

/// What a post's state is in contracts.
pub struct PostDataView {
    pub title: Seq<char>,
    pub body: Option<Seq<char>>,
    pub generation: nat,
}

/// A request to change a post.
pub enum PostCommand {
    /// Give the post a new title.
    UpdateTitle(String),
}

/// What a command is in contracts.
pub enum PostCommandView {
    UpdateTitle(Seq<char>),
}

/// Something that happened to a post.
pub enum PostEvent {
    /// The post got a new title.
    TitleUpdated(String),
}

/// What an event is in contracts.
pub enum PostEventView {
    TitleUpdated(Seq<char>),
}

/// The characters of an optional text.
pub open spec fn text_of(text: Option<String>) -> Option<Seq<char>> {
    match text {
        Some(t) => Some(t@),
        None => None,
    }
}

impl View for PostData {
    type V = PostDataView;

    closed spec fn view(&self) -> PostDataView {
        PostDataView {
            title: self.title@,
            body: text_of(self.body),
            generation: self.generation as nat,
        }
    }
}

impl View for PostCommand {
    type V = PostCommandView;

    open spec fn view(&self) -> PostCommandView {
        match self {
            PostCommand::UpdateTitle(title) => PostCommandView::UpdateTitle(title@),
        }
    }
}

impl View for PostEvent {
    type V = PostEventView;

    open spec fn view(&self) -> PostEventView {
        match self {
            PostEvent::TitleUpdated(title) => PostEventView::TitleUpdated(title@),
        }
    }
}

impl Clone for PostEvent {
    fn clone(&self) -> (copy: Self)
        ensures
            copy@ == self@,
    {
        match self {
            PostEvent::TitleUpdated(title) => PostEvent::TitleUpdated(title.clone()),
        }
    }
}

impl PostData {
    /// Every state of a post has a generation, and the first one is one.
    #[verifier::type_invariant]
    spec fn counted_from_one(self) -> bool {
        self.generation >= 1
    }

    /// The first state of a post: the given title and body, at generation one.
    pub fn new(title: &str, body: Option<String>) -> (post: PostData)
        ensures
            post@ == (PostDataView { title: title@, body: text_of(body), generation: 1 }),
    {
        PostData { title: title.to_owned(), body, generation: 1 }
    }

    /// The title of the post.
    pub fn title(&self) -> (title: &str)
        ensures
            title@ == self@.title,
    {
        self.title.as_str()
    }

    /// The body of the post, if it has one.
    pub fn body(&self) -> (body: Option<&str>)
        ensures
            (match body {
                Some(text) => self@.body == Some(text@),
                None => self@.body is None,
            }),
    {
        match &self.body {
            Some(text) => Some(text.as_str()),
            None => None,
        }
    }
}

impl Event for PostEvent {
    open spec fn type_of(event: PostEventView) -> Seq<char> {
        match event {
            PostEventView::TitleUpdated(_) => "title_updated"@,
        }
    }

    fn event_type(&self) -> (name: &str) {
        match self {
            PostEvent::TitleUpdated(_) => "title_updated",
        }
    }
}

impl AggregateState for PostData {
    open spec fn generation_of(snapshot: PostDataView) -> nat {
        snapshot.generation
    }

    fn generation(&self) -> (g: u64) {
        proof {
            use_type_invariant(self);
        }
        self.generation
    }
}

impl Aggregate for Post {
    type Event = PostEvent;

    type Command = PostCommand;

    type State = PostData;

    /// A new title is always accepted, and yields the one event that records it.
    open spec fn decided(state: PostDataView, cmd: PostCommandView) -> Result<
        Seq<PostEventView>,
        Seq<char>,
    > {
        match cmd {
            PostCommandView::UpdateTitle(title) => Ok(seq![PostEventView::TitleUpdated(title)]),
        }
    }

    /// A title update replaces the title, keeps the body, and counts one generation.
    open spec fn applied(state: PostDataView, evt: PostEventView) -> Result<
        PostDataView,
        Seq<char>,
    > {
        match evt {
            PostEventView::TitleUpdated(title) => Ok(
                PostDataView { title, body: state.body, generation: state.generation + 1 },
            ),
        }
    }

    proof fn applied_advances_generation(state: PostDataView, evt: PostEventView) {
    }

    proof fn decided_events_apply(state: PostDataView, cmd: PostCommandView) {
        let step = |s: PostDataView, e: PostEventView| Self::applied(s, e);
        let events = Self::decided(state, cmd)->Ok_0;
        let next = Self::applied(state, events[0])->Ok_0;
        assert(fold_events(step, next, events.drop_first()) is Ok);
    }

    fn apply_event(state: &PostData, evt: PostEvent) -> (r: Result<PostData, Error>) {
        let new_state = match evt {
            PostEvent::TitleUpdated(new_title) => PostData {
                title: new_title,
                body: state.body.clone(),
                generation: state.generation + 1,
            },
        };
        Ok(new_state)
    }

    fn handle_command(_state: &PostData, cmd: PostCommand) -> (r: Result<Vec<PostEvent>, Error>) {
        let mut events = Vec::new();
        match cmd {
            PostCommand::UpdateTitle(title) => events.push(PostEvent::TitleUpdated(title)),
        }
        Ok(events)
    }
}

} // verus!
