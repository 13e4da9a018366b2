use blog_metadata::blog::{BlogMetadata, BlogState};
use blog_metadata::errors::{Failure, ResponseError};
use blog_metadata::fediverse::NoteResponse;
use blog_metadata::session::{Action, Event, Session};
use blog_metadata::umami::{LoginResponse, LoginResponseUser, MetricsResponseItem};

const T0: i64 = 1_700_000_000_000;
const MINUTE: i64 = 60_000;

fn meta(views: u64, comments: u64, reactions: u64) -> BlogMetadata {
    BlogMetadata { views, comments, reactions }
}

fn index_ab() -> Vec<(String, Option<String>)> {
    vec![("a".to_string(), None), ("b".to_string(), Some("note1".to_string()))]
}

fn login_ok(token: &str) -> Event {
    Event::LoggedIn(Ok(LoginResponse {
        token: token.to_string(),
        user: LoginResponseUser { username: "admin".to_string(), role: "admin".to_string() },
    }))
}

fn note(id: &str, replies: u64, reactions: u64) -> NoteResponse {
    NoteResponse { id: id.to_string(), replies_count: replies, reaction_count: reactions }
}

fn item(path: &str, views: u64) -> MetricsResponseItem {
    MetricsResponseItem { x: path.to_string(), y: views }
}

fn fetch_pageviews(token: &str, path: &str) -> Action {
    Action::FetchPageviews { token: token.to_string(), path: path.to_string() }
}

/// Reads post `a` from an empty cache at `T0`: index, login as `tok`, 10 views.
fn warm_cache() -> BlogState {
    let mut state = BlogState::new();
    let mut s = Session::get_one("a".to_string());
    assert_eq!(s.begin(&mut state, T0), Action::FetchIndex);
    assert_eq!(s.step(&mut state, Event::Index(Ok(index_ab())), T0), Action::Login);
    assert_eq!(s.step(&mut state, login_ok("tok"), T0), fetch_pageviews("tok", "/blog/a"));
    assert_eq!(s.step(&mut state, Event::Pageviews(Ok(10)), T0), Action::ReplyOne { metadata: meta(10, 0, 0) });
    assert!(s.is_finished());
    state
}

#[test]
fn single_reads_of_indexed_posts() {
    let mut state = warm_cache();

    let mut s = Session::get_one("b".to_string());
    assert_eq!(s.begin(&mut state, T0 + 1), Action::Verify { token: "tok".to_string() });
    assert_eq!(s.step(&mut state, Event::Verified(Ok("tok".to_string())), T0 + 1), fetch_pageviews("tok", "/blog/b"));
    assert_eq!(s.step(&mut state, Event::Pageviews(Ok(20)), T0 + 1), Action::FetchNote { note_id: "note1".to_string() });
    assert_eq!(s.step(&mut state, Event::Note(Ok(note("note1", 2, 3))), T0 + 1), Action::ReplyOne { metadata: meta(20, 2, 3) });

    let mut s = Session::get_one("c".to_string());
    assert_eq!(s.begin(&mut state, T0 + 2), Action::Fail { failure: Failure::NotFound });
    assert!(s.is_finished());
}

#[test]
fn failed_login_leaves_token_unset() {
    let mut state = BlogState::new();
    let mut s = Session::get_one("a".to_string());
    assert_eq!(s.begin(&mut state, T0), Action::FetchIndex);
    assert_eq!(s.step(&mut state, Event::Index(Ok(index_ab())), T0), Action::Login);
    assert_eq!(
        s.step(&mut state, Event::LoggedIn(Err(ResponseError::ReqwestError)), T0),
        Action::Fail { failure: Failure::ServiceUnavailable }
    );
    assert_eq!(state.umami_token(), None);
}

#[test]
fn bulk_read_counts_missing_path_as_zero_views() {
    let mut state = BlogState::new();
    let mut s = Session::get_all();
    assert_eq!(s.begin(&mut state, T0), Action::FetchIndex);
    assert_eq!(s.step(&mut state, Event::Index(Ok(index_ab())), T0), Action::Login);
    assert_eq!(
        s.step(&mut state, login_ok("tok"), T0),
        Action::FetchPageviewsPrefix { token: "tok".to_string(), prefix: "/blog".to_string() }
    );
    assert_eq!(
        s.step(&mut state, Event::PageviewsPrefix(Ok(vec![item("/blog/b", 20)])), T0),
        Action::FetchUserNotes
    );
    let a = s.step(&mut state, Event::UserNotes(Ok(vec![note("note1", 2, 3)])), T0);
    let Action::ReplyAll { mut metadata } = a else { panic!("expected a bulk reply, got {:?}", a) };
    metadata.sort_by(|x, y| x.0.cmp(&y.0));
    assert_eq!(metadata, vec![("a".to_string(), meta(0, 0, 0)), ("b".to_string(), meta(20, 2, 3))]);
}

#[test]
fn second_read_within_five_minutes_fetches_nothing() {
    let mut state = warm_cache();
    let mut s = Session::get_one("a".to_string());
    assert_eq!(s.begin(&mut state, T0 + 4 * MINUTE), Action::ReplyOne { metadata: meta(10, 0, 0) });
    assert!(s.is_finished());
    assert_eq!(state.umami_token(), Some("tok".to_string()));
}

#[test]
fn stale_entry_is_fetched_once_more() {
    let mut state = warm_cache();
    let later = T0 + 6 * MINUTE;
    let mut s = Session::get_one("a".to_string());
    assert_eq!(s.begin(&mut state, later), Action::FetchIndex);
    assert_eq!(s.step(&mut state, Event::Index(Ok(index_ab())), later), Action::Verify { token: "tok".to_string() });
    assert_eq!(s.step(&mut state, Event::Verified(Ok("tok".to_string())), later), fetch_pageviews("tok", "/blog/a"));
    assert_eq!(s.step(&mut state, Event::Pageviews(Ok(11)), later), Action::ReplyOne { metadata: meta(11, 0, 0) });
    assert_eq!(state.last_modified(), later);
}

#[test]
fn entry_stale_while_index_fresh_refetches_without_index() {
    let mut state = warm_cache();
    // the index is refreshed at T0 + 6 min; entry `a` still dates from T0
    let mut s = Session::get_one("b".to_string());
    assert_eq!(s.begin(&mut state, T0 + 6 * MINUTE), Action::FetchIndex);
    assert_eq!(s.step(&mut state, Event::Index(Ok(index_ab())), T0 + 6 * MINUTE), Action::Verify { token: "tok".to_string() });
    let mut s = Session::get_one("a".to_string());
    assert_eq!(s.begin(&mut state, T0 + 7 * MINUTE), Action::Verify { token: "tok".to_string() });
}

#[test]
fn bulk_and_single_reads_agree() {
    let items = vec![item("/blog/a", 7), item("/blog/b", 20), item("/blog/a", 9)];
    let notes = vec![note("other", 5, 5), note("note1", 2, 3)];

    let mut bulk = warm_cache();
    let later = T0 + 6 * MINUTE;
    let mut s = Session::get_all();
    assert_eq!(s.begin(&mut bulk, later), Action::FetchIndex);
    assert_eq!(s.step(&mut bulk, Event::Index(Ok(index_ab())), later), Action::Verify { token: "tok".to_string() });
    s.step(&mut bulk, Event::Verified(Ok("tok".to_string())), later);
    s.step(&mut bulk, Event::PageviewsPrefix(Ok(items.clone())), later);
    let Action::ReplyAll { metadata } = s.step(&mut bulk, Event::UserNotes(Ok(notes.clone())), later) else {
        panic!("expected a bulk reply")
    };

    let mut single = warm_cache();
    let mut s = Session::get_one("b".to_string());
    s.begin(&mut single, later);
    s.step(&mut single, Event::Index(Ok(index_ab())), later);
    s.step(&mut single, Event::Verified(Ok("tok".to_string())), later);
    s.step(&mut single, Event::Pageviews(Ok(20)), later);
    let one = s.step(&mut single, Event::Note(Ok(note("note1", 2, 3))), later);

    let b = metadata.iter().find(|(k, _)| k == "b").unwrap().1;
    assert_eq!(one, Action::ReplyOne { metadata: b });
    let a = metadata.iter().find(|(k, _)| k == "a").unwrap().1;
    assert_eq!(a, meta(9, 0, 0));
}

#[test]
fn bulk_read_within_five_minutes_is_cached() {
    let mut state = BlogState::new();
    let mut s = Session::get_all();
    s.begin(&mut state, T0);
    s.step(&mut state, Event::Index(Ok(index_ab())), T0);
    s.step(&mut state, login_ok("tok"), T0);
    s.step(&mut state, Event::PageviewsPrefix(Ok(vec![item("/blog/a", 4)])), T0);
    s.step(&mut state, Event::UserNotes(Ok(vec![])), T0);
    assert_eq!(state.values_last_modified(), T0);

    let mut s = Session::get_all();
    let Action::ReplyAll { mut metadata } = s.begin(&mut state, T0 + 2 * MINUTE) else {
        panic!("expected a cached bulk reply")
    };
    metadata.sort_by(|x, y| x.0.cmp(&y.0));
    assert_eq!(metadata, vec![("a".to_string(), meta(4, 0, 0)), ("b".to_string(), meta(0, 0, 0))]);
}

#[test]
fn refused_verification_logs_in_once_and_reuses_token() {
    let mut state = warm_cache();
    let later = T0 + 6 * MINUTE;
    let mut s = Session::get_one("a".to_string());
    s.begin(&mut state, later);
    assert_eq!(s.step(&mut state, Event::Index(Ok(index_ab())), later), Action::Verify { token: "tok".to_string() });
    assert_eq!(s.step(&mut state, Event::Verified(Err(ResponseError::UnauthorizedError)), later), Action::Login);
    assert_eq!(s.step(&mut state, login_ok("tok2"), later), fetch_pageviews("tok2", "/blog/a"));
    assert_eq!(state.umami_token(), Some("tok2".to_string()));
    s.step(&mut state, Event::Pageviews(Ok(12)), later);

    let mut s = Session::get_one("b".to_string());
    assert_eq!(s.begin(&mut state, later + 1), Action::Verify { token: "tok2".to_string() });
    assert_eq!(s.step(&mut state, Event::Verified(Ok("tok2".to_string())), later + 1), fetch_pageviews("tok2", "/blog/b"));
}

#[test]
fn failed_index_fetch_is_unavailable() {
    let mut state = BlogState::new();
    let mut s = Session::get_one("a".to_string());
    s.begin(&mut state, T0);
    assert_eq!(
        s.step(&mut state, Event::Index(Err(ResponseError::SerdeJsonError)), T0),
        Action::Fail { failure: Failure::ServiceUnavailable }
    );
    assert_eq!(state.last_modified(), 0);
}

#[test]
fn failed_note_fetch_keeps_old_counters() {
    let mut state = warm_cache();
    let later = T0 + 6 * MINUTE;
    let mut s = Session::get_one("b".to_string());
    s.begin(&mut state, later);
    s.step(&mut state, Event::Index(Ok(index_ab())), later);
    s.step(&mut state, Event::Verified(Ok("tok".to_string())), later);
    assert_eq!(s.step(&mut state, Event::Pageviews(Ok(20)), later), Action::FetchNote { note_id: "note1".to_string() });
    assert_eq!(
        s.step(&mut state, Event::Note(Err(ResponseError::NotFoundError)), later),
        Action::Fail { failure: Failure::ServiceUnavailable }
    );
    let entry = state.entry(&"b".to_string()).unwrap();
    assert_eq!(entry.metadata, meta(0, 0, 0));
    assert_eq!(entry.last_modified, 0);
}

#[test]
fn failed_pageviews_fetch_is_unavailable() {
    let mut state = warm_cache();
    let mut s = Session::get_one("b".to_string());
    s.begin(&mut state, T0);
    s.step(&mut state, Event::Verified(Ok("tok".to_string())), T0);
    assert_eq!(
        s.step(&mut state, Event::Pageviews(Err(ResponseError::ParseIntError)), T0),
        Action::Fail { failure: Failure::ServiceUnavailable }
    );
}

#[test]
fn failed_bulk_fetches_are_unavailable() {
    let mut state = warm_cache();
    let mut s = Session::get_all();
    s.begin(&mut state, T0);
    s.step(&mut state, Event::Verified(Ok("tok".to_string())), T0);
    assert_eq!(
        s.step(&mut state, Event::PageviewsPrefix(Err(ResponseError::ReqwestError)), T0),
        Action::Fail { failure: Failure::ServiceUnavailable }
    );

    let mut s = Session::get_all();
    s.begin(&mut state, T0);
    s.step(&mut state, Event::Verified(Ok("tok".to_string())), T0);
    s.step(&mut state, Event::PageviewsPrefix(Ok(vec![])), T0);
    assert_eq!(
        s.step(&mut state, Event::UserNotes(Err(ResponseError::SerdeJsonError)), T0),
        Action::Fail { failure: Failure::ServiceUnavailable }
    );
    assert_eq!(state.values_last_modified(), 0);
}

#[test]
fn unexpected_event_ends_the_session() {
    let mut state = BlogState::new();
    let mut s = Session::get_one("a".to_string());
    assert_eq!(s.begin(&mut state, T0), Action::FetchIndex);
    assert_eq!(s.step(&mut state, Event::Pageviews(Ok(3)), T0), Action::Fail { failure: Failure::ServiceUnavailable });
    assert!(s.is_finished());
    assert_eq!(s.begin(&mut state, T0), Action::Fail { failure: Failure::ServiceUnavailable });
}

#[test]
fn index_refresh_keeps_counters_and_updates_note() {
    let mut state = warm_cache();
    let later = T0 + 6 * MINUTE;
    let mut s = Session::get_one("a".to_string());
    s.begin(&mut state, later);
    let moved = vec![("a".to_string(), Some("note9".to_string())), ("d".to_string(), None)];
    s.step(&mut state, Event::Index(Ok(moved)), later);
    let a = state.entry(&"a".to_string()).unwrap();
    assert_eq!(a.metadata, meta(10, 0, 0));
    assert_eq!(a.last_modified, T0);
    assert_eq!(a.fediverse, Some("note9".to_string()));
    assert!(state.entry(&"b".to_string()).is_some());
    let d = state.entry(&"d".to_string()).unwrap();
    assert_eq!(d.metadata, meta(0, 0, 0));
    assert_eq!(d.last_modified, 0);
}

#[test]
fn begin_now_reads_the_clock() {
    let mut state = BlogState::new();
    let mut s = Session::get_one("a".to_string());
    assert_eq!(s.begin_now(&mut state), Action::FetchIndex);
    assert_eq!(s.step_now(&mut state, Event::Index(Ok(vec![]))), Action::Fail { failure: Failure::NotFound });
    assert!(state.last_modified() > T0);
}
