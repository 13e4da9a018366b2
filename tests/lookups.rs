use blog_metadata::args::Args;
use blog_metadata::blog::{expired_cache, BlogState};
use blog_metadata::fediverse::{find_note, NoteResponse};
use blog_metadata::errors::ResponseError;
use blog_metadata::umami::{
    blog_path_string, blog_prefix_string, find_pageviews, pageviews_from_rows, parse_count,
    MetricsResponseItem, MetricsTextItem,
};

fn item(path: &str, views: u64) -> MetricsResponseItem {
    MetricsResponseItem { x: path.to_string(), y: views }
}

fn note(id: &str, replies: u64, reactions: u64) -> NoteResponse {
    NoteResponse { id: id.to_string(), replies_count: replies, reaction_count: reactions }
}

#[test]
fn expiry_is_strictly_after_five_minutes() {
    assert!(!expired_cache(0, 300_000));
    assert!(expired_cache(0, 300_001));
    assert!(!expired_cache(1_000, 1_000));
    assert!(expired_cache(i64::MIN, i64::MAX));
    assert!(!expired_cache(i64::MAX, i64::MIN));
}

#[test]
fn pageviews_lookup_takes_last_row_or_zero() {
    let items = vec![item("/blog/a", 1), item("/blog/b", 2), item("/blog/a", 3)];
    assert_eq!(find_pageviews(&items, &"/blog/a".to_string()), 3);
    assert_eq!(find_pageviews(&items, &"/blog/b".to_string()), 2);
    assert_eq!(find_pageviews(&items, &"/blog/c".to_string()), 0);
    assert_eq!(find_pageviews(&vec![], &"/blog/a".to_string()), 0);
}

#[test]
fn note_lookup_takes_last_note_or_zeros() {
    let notes = vec![note("n1", 1, 2), note("n2", 3, 4), note("n1", 5, 6)];
    assert_eq!(find_note(&notes, &"n1".to_string()), (5, 6));
    assert_eq!(find_note(&notes, &"n2".to_string()), (3, 4));
    assert_eq!(find_note(&notes, &"n3".to_string()), (0, 0));
}

#[test]
fn post_paths() {
    assert_eq!(blog_path_string(&"hello-world".to_string()), "/blog/hello-world");
    assert_eq!(blog_path_string(&String::new()), "/blog/");
    assert_eq!(blog_prefix_string(), "/blog");
}

#[test]
fn login_request_from_settings() {
    let args = Args {
        umami_username: "user".to_string(),
        umami_password: "pass".to_string(),
        ..Args::default()
    };
    let r = args.login_request();
    assert_eq!(r.username, "user");
    assert_eq!(r.password, "pass");
}

#[test]
fn new_state_is_empty() {
    let state = BlogState::new();
    assert_eq!(state.umami_token(), None);
    assert_eq!(state.last_modified(), 0);
    assert_eq!(state.values_last_modified(), 0);
    assert!(state.entry(&"a".to_string()).is_none());
    assert!(state.index_expired(300_001));
    assert!(!state.index_expired(300_000));
}

#[test]
fn counts_read_from_text() {
    assert_eq!(parse_count(&"0".to_string()), Ok(0));
    assert_eq!(parse_count(&"1234".to_string()), Ok(1234));
    assert_eq!(parse_count(&"+17".to_string()), Ok(17));
    assert_eq!(parse_count(&"18446744073709551615".to_string()), Ok(u64::MAX));
    assert_eq!(parse_count(&"18446744073709551616".to_string()), Err(ResponseError::ParseIntError));
    assert_eq!(parse_count(&"".to_string()), Err(ResponseError::ParseIntError));
    assert_eq!(parse_count(&"+".to_string()), Err(ResponseError::ParseIntError));
    assert_eq!(parse_count(&"12a".to_string()), Err(ResponseError::ParseIntError));
    assert_eq!(parse_count(&"-3".to_string()), Err(ResponseError::ParseIntError));
    assert_eq!(parse_count(&" 3".to_string()), Err(ResponseError::ParseIntError));
}

#[test]
fn pageviews_of_one_path_from_rows() {
    let row = |x: &str, y: &str| MetricsTextItem { x: x.to_string(), y: y.to_string() };
    assert_eq!(pageviews_from_rows(&vec![]), Err(ResponseError::NotFoundError));
    assert_eq!(pageviews_from_rows(&vec![row("/blog/a", "42")]), Ok(42));
    assert_eq!(pageviews_from_rows(&vec![row("/blog/a", "n/a")]), Err(ResponseError::ParseIntError));
}
