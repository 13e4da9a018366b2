//! One read of the cache, as a state machine. A session is asked to begin,
//! answers with an action (fetch something, or reply), and is then handed
//! the outcome of each fetch as an event until it replies or fails. The
//! caller performs the fetches and owns the clock; the session decides, and
//! is the only one to change the cache state.
use vstd::prelude::*;

use crate::assoc::distinct_keys;
use crate::blog::{
    assemble, expired_cache, index_view, is_expired, merge_routes, metadata_map, metadata_rows,
    refreshed_entries, snapshot_of, BlogMetadata, BlogState, BlogStateView, BlogValue,
};
use crate::clock::now_millis;
use crate::errors::{Failure, ResponseError};
use crate::fediverse::NoteResponse;
use crate::umami::{
    blog_path, blog_path_string, blog_prefix, blog_prefix_string, LoginResponse, MetricsResponseItem,
};

verus! {

/// What a session was asked for.
#[derive(Clone, Debug, PartialEq, Eq)]
pub enum Request {
    /// The counters of one post.
    One { slug: String },
    /// The counters of every post.
    All,
}

/// Where a session stands: what it waits for.
#[derive(Debug)]
pub enum Stage {
    /// Not begun.
    Start,
    /// Waits for the post index.
    AwaitIndex,
    /// Waits for the verification of `token`.
    AwaitVerify { token: String },
    /// Waits for a login.
    AwaitLogin,
    /// Waits for the page views of the post, whose linked note is `fediverse`.
    AwaitPageviews { fediverse: Option<String> },
    /// Has the post's `views` and waits for its note.
    AwaitNote { views: u64, note_id: String },
    /// Waits for the page views under the blog prefix.
    AwaitPrefix,
    /// Has the page views under the prefix and waits for the user's notes.
    AwaitUserNotes { items: Vec<MetricsResponseItem> },
    /// Replied or failed.
    Finished,
}

/// The outcome of a fetch, handed back to the session.
#[derive(Debug)]
pub enum Event {
    /// The post index: each slug with its linked note id, if any.
    Index(Result<Vec<(String, Option<String>)>, ResponseError>),
    /// The verification of the held token.
    Verified(Result<String, ResponseError>),
    /// A login.
    LoggedIn(Result<LoginResponse, ResponseError>),
    /// The page views of one path.
    Pageviews(Result<u64, ResponseError>),
    /// One note.
    Note(Result<NoteResponse, ResponseError>),
    /// The page views of every path under a prefix.
    PageviewsPrefix(Result<Vec<MetricsResponseItem>, ResponseError>),
    /// The recent notes of the configured user.
    UserNotes(Result<Vec<NoteResponse>, ResponseError>),
}

/// What the session asks of its caller next.
#[derive(Debug, PartialEq, Eq)]
#[allow(inconsistent_fields)]
pub enum Action {
    /// Fetch the post index.
    FetchIndex,
    /// Verify this analytics token.
    Verify { token: String },
    /// Log in to the analytics backend with the configured credentials.
    Login,
    /// Fetch the page views of `path` with `token`.
    FetchPageviews { token: String, path: String },
    /// Fetch this note.
    FetchNote { note_id: String },
    /// Fetch the page views of every path under `prefix` with `token`.
    FetchPageviewsPrefix { token: String, prefix: String },
    /// Fetch the recent notes of the configured user.
    FetchUserNotes,
    /// Reply with the counters of the requested post; the session is over.
    ReplyOne { metadata: BlogMetadata },
    /// Reply with the counters of every post; the session is over.
    ReplyAll { metadata: Vec<(String, BlogMetadata)> },
    /// Reply with a failure; the session is over.
    Fail { failure: Failure },
}

/// A stage as plain values.
pub enum StageView {
    Start,
    AwaitIndex,
    AwaitVerify { token: Seq<char> },
    AwaitLogin,
    AwaitPageviews { fediverse: Option<Seq<char>> },
    AwaitNote { views: u64, note_id: Seq<char> },
    AwaitPrefix,
    AwaitUserNotes { items: Seq<MetricsResponseItem> },
    Finished,
}

/// An action as plain values; a bulk reply as the map it stands for.
#[allow(inconsistent_fields)]
pub enum ActionView {
    FetchIndex,
    Verify { token: Seq<char> },
    Login,
    FetchPageviews { token: Seq<char>, path: Seq<char> },
    FetchNote { note_id: Seq<char> },
    FetchPageviewsPrefix { token: Seq<char>, prefix: Seq<char> },
    FetchUserNotes,
    ReplyOne { metadata: BlogMetadata },
    ReplyAll { metadata: Map<Seq<char>, BlogMetadata> },
    Fail { failure: Failure },
}

impl View for Stage {
    type V = StageView;

    open spec fn view(&self) -> StageView {
        match self {
            Stage::Start => StageView::Start,
            Stage::AwaitIndex => StageView::AwaitIndex,
            Stage::AwaitVerify { token } => StageView::AwaitVerify { token: token@ },
            Stage::AwaitLogin => StageView::AwaitLogin,
            Stage::AwaitPageviews { fediverse } => StageView::AwaitPageviews {
                fediverse: crate::blog::opt_view(*fediverse),
            },
            Stage::AwaitNote { views, note_id } => StageView::AwaitNote { views: *views, note_id: note_id@ },
            Stage::AwaitPrefix => StageView::AwaitPrefix,
            Stage::AwaitUserNotes { items } => StageView::AwaitUserNotes { items: items@ },
            Stage::Finished => StageView::Finished,
        }
    }
}

impl View for Action {
    type V = ActionView;

    open spec fn view(&self) -> ActionView {
        match self {
            Action::FetchIndex => ActionView::FetchIndex,
            Action::Verify { token } => ActionView::Verify { token: token@ },
            Action::Login => ActionView::Login,
            Action::FetchPageviews { token, path } => ActionView::FetchPageviews { token: token@, path: path@ },
            Action::FetchNote { note_id } => ActionView::FetchNote { note_id: note_id@ },
            Action::FetchPageviewsPrefix { token, prefix } => ActionView::FetchPageviewsPrefix {
                token: token@,
                prefix: prefix@,
            },
            Action::FetchUserNotes => ActionView::FetchUserNotes,
            Action::ReplyOne { metadata } => ActionView::ReplyOne { metadata: *metadata },
            Action::ReplyAll { metadata } => ActionView::ReplyAll { metadata: metadata_map(metadata@) },
            Action::Fail { failure } => ActionView::Fail { failure: *failure },
        }
    }
}

impl Action {
    /// A bulk reply names each slug once.
    pub open spec fn wf(&self) -> bool {
        match self {
            Action::ReplyAll { metadata } => distinct_keys(metadata_rows(metadata@)),
            _ => true,
        }
    }
}

/// The slug asked for, or none for a request of every post.
pub open spec fn request_view(r: Request) -> Option<Seq<char>> {
    match r {
        Request::One { slug } => Some(slug@),
        Request::All => None,
    }
}

/// The state, stage and action after one move of a session.
pub struct Outcome {
    pub state: BlogStateView,
    pub stage: StageView,
    pub action: ActionView,
}

/// The session ends in failure and leaves the state as it was.
pub open spec fn unavailable(st: BlogStateView) -> Outcome {
    Outcome { state: st, stage: StageView::Finished, action: ActionView::Fail { failure: Failure::ServiceUnavailable } }
}

/// A token is needed: verify the held one, or log in where none is held.
pub open spec fn token_step(st: BlogStateView) -> Outcome {
    match st.umami_token {
        Some(t) => Outcome { state: st, stage: StageView::AwaitVerify { token: t }, action: ActionView::Verify { token: t } },
        None => Outcome { state: st, stage: StageView::AwaitLogin, action: ActionView::Login },
    }
}

/// With the index fresh: answer from the cache where it is fresh, else
/// start the refresh by obtaining a token.
pub open spec fn after_index(st: BlogStateView, req: Option<Seq<char>>, now: i64) -> Outcome {
    match req {
        Some(slug) => {
            if !st.entries.contains_key(slug) {
                Outcome { state: st, stage: StageView::Finished, action: ActionView::Fail { failure: Failure::NotFound } }
            } else if !is_expired(st.entries[slug].last_modified, now) {
                Outcome {
                    state: st,
                    stage: StageView::Finished,
                    action: ActionView::ReplyOne { metadata: st.entries[slug].metadata },
                }
            } else {
                token_step(st)
            }
        },
        None => {
            if !is_expired(st.values_last_modified, now) {
                Outcome {
                    state: st,
                    stage: StageView::Finished,
                    action: ActionView::ReplyAll { metadata: snapshot_of(st.entries) },
                }
            } else {
                token_step(st)
            }
        },
    }
}

/// A valid token is at hand: keep it, then fetch the page views.
pub open spec fn with_token(st: BlogStateView, req: Option<Seq<char>>, token: Seq<char>) -> Outcome {
    let st2 = BlogStateView { umami_token: Some(token), ..st };
    match req {
        Some(slug) => {
            if st2.entries.contains_key(slug) {
                Outcome {
                    state: st2,
                    stage: StageView::AwaitPageviews { fediverse: st2.entries[slug].fediverse },
                    action: ActionView::FetchPageviews { token, path: blog_path(slug) },
                }
            } else {
                Outcome { state: st2, stage: StageView::Finished, action: ActionView::Fail { failure: Failure::NotFound } }
            }
        },
        None => Outcome {
            state: st2,
            stage: StageView::AwaitPrefix,
            action: ActionView::FetchPageviewsPrefix { token, prefix: blog_prefix() },
        },
    }
}

/// Every fetch for one post succeeded: store its new counters and reply.
pub open spec fn finish_one(
    st: BlogStateView,
    slug: Seq<char>,
    views: u64,
    counts: (u64, u64),
    fediverse: Option<Seq<char>>,
    now: i64,
) -> Outcome {
    let value = crate::blog::BlogValueView { metadata: assemble(views, counts), last_modified: now, fediverse };
    Outcome {
        state: BlogStateView { entries: st.entries.insert(slug, value), ..st },
        stage: StageView::Finished,
        action: ActionView::ReplyOne { metadata: assemble(views, counts) },
    }
}

/// The first move of a session: refresh the index where it is stale.
pub open spec fn begin_step(st: BlogStateView, req: Option<Seq<char>>, stage: StageView, now: i64) -> Outcome {
    match stage {
        StageView::Start => {
            if is_expired(st.last_modified, now) {
                Outcome { state: st, stage: StageView::AwaitIndex, action: ActionView::FetchIndex }
            } else {
                after_index(st, req, now)
            }
        },
        _ => unavailable(st),
    }
}

/// Each later move of a session, on the outcome of the fetch it asked for.
/// A failed fetch, or an event that the stage does not wait for, ends the
/// session as unavailable and changes nothing.
pub open spec fn next_step(
    st: BlogStateView,
    req: Option<Seq<char>>,
    stage: StageView,
    ev: Event,
    now: i64,
) -> Outcome {
    match stage {
        StageView::AwaitIndex => match ev {
            Event::Index(Ok(index)) => after_index(
                BlogStateView { entries: merge_routes(st.entries, index_view(index@)), last_modified: now, ..st },
                req,
                now,
            ),
            _ => unavailable(st),
        },
        StageView::AwaitVerify { token } => match ev {
            Event::Verified(Ok(_)) => with_token(st, req, token),
            Event::Verified(Err(_)) => Outcome { state: st, stage: StageView::AwaitLogin, action: ActionView::Login },
            _ => unavailable(st),
        },
        StageView::AwaitLogin => match ev {
            Event::LoggedIn(Ok(resp)) => with_token(st, req, resp.token@),
            _ => unavailable(st),
        },
        StageView::AwaitPageviews { fediverse } => match (ev, req) {
            (Event::Pageviews(Ok(views)), Some(slug)) => match fediverse {
                Some(id) => Outcome {
                    state: st,
                    stage: StageView::AwaitNote { views, note_id: id },
                    action: ActionView::FetchNote { note_id: id },
                },
                None => finish_one(st, slug, views, (0, 0), None, now),
            },
            _ => unavailable(st),
        },
        StageView::AwaitNote { views, note_id } => match (ev, req) {
            (Event::Note(Ok(note)), Some(slug)) => finish_one(
                st,
                slug,
                views,
                (note.replies_count, note.reaction_count),
                Some(note_id),
                now,
            ),
            _ => unavailable(st),
        },
        StageView::AwaitPrefix => match (ev, req) {
            (Event::PageviewsPrefix(Ok(items)), None) => Outcome {
                state: st,
                stage: StageView::AwaitUserNotes { items: items@ },
                action: ActionView::FetchUserNotes,
            },
            _ => unavailable(st),
        },
        StageView::AwaitUserNotes { items } => match (ev, req) {
            (Event::UserNotes(Ok(notes)), None) => {
                let entries = refreshed_entries(st.entries, items, notes@, now);
                Outcome {
                    state: BlogStateView { entries, values_last_modified: now, ..st },
                    stage: StageView::Finished,
                    action: ActionView::ReplyAll { metadata: snapshot_of(entries) },
                }
            },
            _ => unavailable(st),
        },
        _ => unavailable(st),
    }
}

/// A move of a session: its first where no event is given, else the move on
/// that event.
pub open spec fn transition(
    st: BlogStateView,
    req: Option<Seq<char>>,
    stage: StageView,
    ev: Option<Event>,
    now: i64,
) -> Outcome {
    match ev {
        None => begin_step(st, req, stage, now),
        Some(e) => next_step(st, req, stage, e, now),
    }
}

/// One read of the cache in progress.
#[derive(Debug)]
pub struct Session {
    request: Request,
    stage: Stage,
}

/// A session as plain values: the slug asked for (none for every post) and its stage.
pub struct SessionView {
    pub request: Option<Seq<char>>,
    pub stage: StageView,
}

impl View for Session {
    type V = SessionView;

    closed spec fn view(&self) -> SessionView {
        SessionView { request: request_view(self.request), stage: self.stage@ }
    }
}

impl Session {
    /// A session that reads the counters of the post `slug`.
    pub fn get_one(slug: String) -> (r: Session)
        ensures
            r@ == (SessionView { request: Some(slug@), stage: StageView::Start }),
    {
        Session { request: Request::One { slug }, stage: Stage::Start }
    }

    /// A session that reads the counters of every post.
    pub fn get_all() -> (r: Session)
        ensures
            r@ == (SessionView { request: None, stage: StageView::Start }),
    {
        Session { request: Request::All, stage: Stage::Start }
    }

    /// Whether the session is over.
    pub fn is_finished(&self) -> (r: bool)
        ensures
            r == (self@.stage is Finished),
    {
        match self.stage {
            Stage::Finished => true,
            _ => false,
        }
    }

    fn ask_token(&mut self, state: &BlogState) -> (a: Action)
        ensures
            final(self)@.request == old(self)@.request,
            (Outcome { state: state@, stage: final(self)@.stage, action: a@ }) == token_step(state@),
            a.wf(),
    {
        match state.umami_token() {
            Some(t) => {
                self.stage = Stage::AwaitVerify { token: t.clone() };
                Action::Verify { token: t }
            },
            None => {
                self.stage = Stage::AwaitLogin;
                Action::Login
            },
        }
    }

    fn answer_after_index(&mut self, state: &BlogState, now: i64) -> (a: Action)
        requires
            state.wf(),
        ensures
            final(self)@.request == old(self)@.request,
            (Outcome { state: state@, stage: final(self)@.stage, action: a@ }) == after_index(
                state@,
                old(self)@.request,
                now,
            ),
            a.wf(),
    {
        match &self.request {
            Request::One { slug } => {
                match state.entry(slug) {
                    None => {
                        self.stage = Stage::Finished;
                        Action::Fail { failure: Failure::NotFound }
                    },
                    Some(value) => {
                        if !expired_cache(value.last_modified, now) {
                            self.stage = Stage::Finished;
                            Action::ReplyOne { metadata: value.metadata }
                        } else {
                            self.ask_token(state)
                        }
                    },
                }
            },
            Request::All => {
                if !expired_cache(state.values_last_modified(), now) {
                    self.stage = Stage::Finished;
                    Action::ReplyAll { metadata: state.snapshot() }
                } else {
                    self.ask_token(state)
                }
            },
        }
    }

    fn use_token(&mut self, state: &mut BlogState, token: String) -> (a: Action)
        requires
            old(state).wf(),
        ensures
            final(state).wf(),
            final(self)@.request == old(self)@.request,
            (Outcome { state: final(state)@, stage: final(self)@.stage, action: a@ }) == with_token(
                old(state)@,
                old(self)@.request,
                token@,
            ),
            a.wf(),
    {
        state.set_umami_token(token.clone());
        match &self.request {
            Request::One { slug } => {
                match state.entry(slug) {
                    Some(value) => {
                        self.stage = Stage::AwaitPageviews { fediverse: value.fediverse };
                        Action::FetchPageviews { token, path: blog_path_string(slug) }
                    },
                    None => {
                        self.stage = Stage::Finished;
                        Action::Fail { failure: Failure::NotFound }
                    },
                }
            },
            Request::All => {
                self.stage = Stage::AwaitPrefix;
                Action::FetchPageviewsPrefix { token, prefix: blog_prefix_string() }
            },
        }
    }

    fn fail(&mut self) -> (a: Action)
        ensures
            final(self)@.request == old(self)@.request,
            final(self)@.stage == StageView::Finished,
            a@ == (ActionView::Fail { failure: Failure::ServiceUnavailable }),
            a.wf(),
    {
        self.stage = Stage::Finished;
        Action::Fail { failure: Failure::ServiceUnavailable }
    }

    /// The first move of the session, at time `now` (milliseconds since the
    /// epoch): fetch the post index where it is stale, else answer from the
    /// cache or start the refresh.
    pub fn begin(&mut self, state: &mut BlogState, now: i64) -> (a: Action)
        requires
            old(state).wf(),
        ensures
            final(state).wf(),
            final(self)@.request == old(self)@.request,
            (Outcome { state: final(state)@, stage: final(self)@.stage, action: a@ }) == transition(
                old(state)@,
                old(self)@.request,
                old(self)@.stage,
                None,
                now,
            ),
            a.wf(),
    {
        match self.stage {
            Stage::Start => {
                if state.index_expired(now) {
                    self.stage = Stage::AwaitIndex;
                    Action::FetchIndex
                } else {
                    self.answer_after_index(state, now)
                }
            },
            _ => self.fail(),
        }
    }

    /// The move on the outcome of the fetch that the session asked for, at
    /// time `now`.
    pub fn step(&mut self, state: &mut BlogState, event: Event, now: i64) -> (a: Action)
        requires
            old(state).wf(),
        ensures
            final(state).wf(),
            final(self)@.request == old(self)@.request,
            (Outcome { state: final(state)@, stage: final(self)@.stage, action: a@ }) == transition(
                old(state)@,
                old(self)@.request,
                old(self)@.stage,
                Some(event),
                now,
            ),
            a.wf(),
    {
        let mut stage = Stage::Finished;
        core::mem::swap(&mut stage, &mut self.stage);
        match stage {
            Stage::AwaitIndex => match event {
                Event::Index(Ok(index)) => {
                    state.update_routes(&index, now);
                    self.answer_after_index(state, now)
                },
                _ => self.fail(),
            },
            Stage::AwaitVerify { token } => match event {
                Event::Verified(Ok(_)) => self.use_token(state, token),
                Event::Verified(Err(_)) => {
                    self.stage = Stage::AwaitLogin;
                    Action::Login
                },
                _ => self.fail(),
            },
            Stage::AwaitLogin => match event {
                Event::LoggedIn(Ok(resp)) => self.use_token(state, resp.token),
                _ => self.fail(),
            },
            Stage::AwaitPageviews { fediverse } => match (event, &self.request) {
                (Event::Pageviews(Ok(views)), Request::One { slug }) => match fediverse {
                    Some(id) => {
                        self.stage = Stage::AwaitNote { views, note_id: id.clone() };
                        Action::FetchNote { note_id: id }
                    },
                    None => {
                        let metadata = BlogMetadata { views, comments: 0, reactions: 0 };
                        state.store(slug, BlogValue { metadata, last_modified: now, fediverse: None });
                        Action::ReplyOne { metadata }
                    },
                },
                _ => self.fail(),
            },
            Stage::AwaitNote { views, note_id } => match (event, &self.request) {
                (Event::Note(Ok(note)), Request::One { slug }) => {
                    let metadata = BlogMetadata {
                        views,
                        comments: note.replies_count,
                        reactions: note.reaction_count,
                    };
                    state.store(slug, BlogValue { metadata, last_modified: now, fediverse: Some(note_id) });
                    Action::ReplyOne { metadata }
                },
                _ => self.fail(),
            },
            Stage::AwaitPrefix => match (event, &self.request) {
                (Event::PageviewsPrefix(Ok(items)), Request::All) => {
                    self.stage = Stage::AwaitUserNotes { items };
                    Action::FetchUserNotes
                },
                _ => self.fail(),
            },
            Stage::AwaitUserNotes { items } => match (event, &self.request) {
                (Event::UserNotes(Ok(notes)), Request::All) => {
                    let metadata = state.refresh_all(&items, &notes, now);
                    Action::ReplyAll { metadata }
                },
                _ => self.fail(),
            },
            _ => self.fail(),
        }
    }

    /// `begin` at the current time: verified for every time the clock gives.
    pub fn begin_now(&mut self, state: &mut BlogState) -> (a: Action)
        requires
            old(state).wf(),
        ensures
            final(state).wf(),
            final(self)@.request == old(self)@.request,
            exists|now: i64|
                (Outcome { state: final(state)@, stage: final(self)@.stage, action: a@ }) == #[trigger] transition(
                    old(state)@,
                    old(self)@.request,
                    old(self)@.stage,
                    None,
                    now,
                ),
            a.wf(),
    {
        let now = now_millis();
        self.begin(state, now)
    }

    /// `step` at the current time: verified for every time the clock gives.
    pub fn step_now(&mut self, state: &mut BlogState, event: Event) -> (a: Action)
        requires
            old(state).wf(),
        ensures
            final(state).wf(),
            final(self)@.request == old(self)@.request,
            exists|now: i64|
                (Outcome { state: final(state)@, stage: final(self)@.stage, action: a@ }) == #[trigger] transition(
                    old(state)@,
                    old(self)@.request,
                    old(self)@.stage,
                    Some(event),
                    now,
                ),
            a.wf(),
    {
        let now = now_millis();
        self.step(state, event, now)
    }
}

} // verus!
