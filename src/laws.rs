//! What holds of every run of a session, proved over its transitions.
use vstd::prelude::*;

use crate::blog::{assemble, index_view, is_expired, merge_routes, snapshot_of, BlogStateView};
use crate::errors::Failure;
use crate::fediverse::{note_counts, NoteResponse};
use crate::session::{transition, with_token, ActionView, Event, Outcome, StageView};
use crate::umami::{blog_path, prefix_views, LoginResponse, MetricsResponseItem};

verus! {

/// After the post index is merged in, the entries hold every slug they held
/// before and every slug of the index.
pub proof fn lemma_merge_routes_keys(
    m: Map<Seq<char>, crate::blog::BlogValueView>,
    index: Seq<(Seq<char>, Option<Seq<char>>)>,
    k: Seq<char>,
)
    ensures
        merge_routes(m, index).contains_key(k) <==> (m.contains_key(k) || exists|i: int|
            0 <= i < index.len() && #[trigger] index[i].0 == k),
    decreases index.len(),
{
    if index.len() > 0 {
        let rest = index.drop_last();
        lemma_merge_routes_keys(m, rest, k);
        if exists|i: int| 0 <= i < index.len() && #[trigger] index[i].0 == k {
            let i = choose|i: int| 0 <= i < index.len() && #[trigger] index[i].0 == k;
            if i < rest.len() {
                assert(rest[i].0 == k);
            }
        }
        if exists|i: int| 0 <= i < rest.len() && #[trigger] rest[i].0 == k {
            let i = choose|i: int| 0 <= i < rest.len() && #[trigger] rest[i].0 == k;
            assert(index[i].0 == k);
        }
    }
}

/// A read of one post never reports it missing once a successful fetch of
/// the post index listed it: the index's slugs are all kept.
pub proof fn lemma_indexed_slug_is_found(
    st: BlogStateView,
    slug: Seq<char>,
    index: Vec<(String, Option<String>)>,
    now: i64,
)
    requires
        exists|i: int| 0 <= i < index@.len() && #[trigger] index@[i].0@ == slug,
    ensures
        ({
            let o = transition(st, Some(slug), StageView::AwaitIndex, Some(Event::Index(Ok(index))), now);
            &&& o.state.entries.contains_key(slug)
            &&& o.action != (ActionView::Fail { failure: Failure::NotFound })
        }),
{
    let iv = index_view(index@);
    let i = choose|i: int| 0 <= i < index@.len() && #[trigger] index@[i].0@ == slug;
    assert(iv[i].0 == slug);
    lemma_merge_routes_keys(st.entries, iv, slug);
}

/// No move of a session forgets a slug, and a read of a known slug never
/// reports it missing.
pub proof fn lemma_known_slug_is_kept(
    st: BlogStateView,
    req: Option<Seq<char>>,
    stage: StageView,
    ev: Option<Event>,
    now: i64,
    slug: Seq<char>,
)
    requires
        st.entries.contains_key(slug),
    ensures
        transition(st, req, stage, ev, now).state.entries.contains_key(slug),
        req == Some(slug) ==> transition(st, req, stage, ev, now).action != (ActionView::Fail {
            failure: Failure::NotFound,
        }),
{
    if let Some(Event::Index(Ok(index))) = ev {
        lemma_merge_routes_keys(st.entries, index_view(index@), slug);
    }
}

/// A read of one post that replied leaves that reply in the cache; a second
/// read while the entry and the index are both still fresh replies the same
/// counters without any fetch and without changing the state. Where the first
/// read refreshed the entry, the entry counts as refreshed at that read's time.
pub proof fn lemma_repeat_read_is_cached(
    st: BlogStateView,
    slug: Seq<char>,
    stage: StageView,
    ev: Option<Event>,
    t1: i64,
    t2: i64,
)
    requires
        transition(st, Some(slug), stage, ev, t1).action is ReplyOne,
        !is_expired(transition(st, Some(slug), stage, ev, t1).state.entries[slug].last_modified, t2),
        !is_expired(transition(st, Some(slug), stage, ev, t1).state.last_modified, t2),
    ensures
        ({
            let o1 = transition(st, Some(slug), stage, ev, t1);
            &&& o1.state.entries.contains_key(slug)
            &&& o1.action == (ActionView::ReplyOne { metadata: o1.state.entries[slug].metadata })
            &&& (stage is AwaitPageviews || stage is AwaitNote) ==> o1.state.entries[slug].last_modified == t1
            &&& transition(o1.state, Some(slug), StageView::Start, None, t2) == (Outcome {
                state: o1.state,
                stage: StageView::Finished,
                action: o1.action,
            })
        }),
{
}

/// Once a stale entry's read holds a valid token, it fetches the page views
/// of the post's path exactly once, then the linked note exactly once where
/// there is one, and replies with what those two fetches gave. While the
/// index is fresh, the read of a stale entry starts by obtaining a token.
pub proof fn lemma_stale_entry_is_fetched_once(
    st: BlogStateView,
    slug: Seq<char>,
    token: Seq<char>,
    views: u64,
    note: NoteResponse,
    now: i64,
)
    requires
        st.entries.contains_key(slug),
    ensures
        !is_expired(st.last_modified, now) && is_expired(st.entries[slug].last_modified, now) ==> ({
            let a = transition(st, Some(slug), StageView::Start, None, now).action;
            a is Verify || a is Login
        }),
        ({
            let fed = st.entries[slug].fediverse;
            let o1 = with_token(st, Some(slug), token);
            let o2 = transition(o1.state, Some(slug), o1.stage, Some(Event::Pageviews(Ok(views))), now);
            let o3 = transition(o2.state, Some(slug), o2.stage, Some(Event::Note(Ok(note))), now);
            &&& o1.action == (ActionView::FetchPageviews { token, path: blog_path(slug) })
            &&& o1.stage == (StageView::AwaitPageviews { fediverse: fed })
            &&& fed is None ==> o2.stage is Finished && o2.action == (ActionView::ReplyOne {
                metadata: assemble(views, (0, 0)),
            })
            &&& fed matches Some(id) ==> o2.action == (ActionView::FetchNote { note_id: id })
                && o3.stage is Finished && o3.action == (ActionView::ReplyOne {
                metadata: assemble(views, (note.replies_count, note.reaction_count)),
            })
        }),
{
}

/// The bulk read gives each post the counters that a read of that post alone
/// would compute from the same upstream data: its path's page views in the
/// metrics answer, and the counters of its linked note as the user's notes
/// list them. Both store the same entry.
pub proof fn lemma_bulk_agrees_with_single(
    st: BlogStateView,
    slug: Seq<char>,
    items: Vec<MetricsResponseItem>,
    notes: Vec<NoteResponse>,
    note: NoteResponse,
    now: i64,
)
    requires
        st.entries.contains_key(slug),
        st.entries[slug].fediverse matches Some(id) ==> (note.replies_count, note.reaction_count)
            == note_counts(notes@, id),
    ensures
        ({
            let all = transition(st, None, StageView::AwaitUserNotes { items: items@ }, Some(Event::UserNotes(Ok(notes))), now);
            let fed = st.entries[slug].fediverse;
            let views = prefix_views(items@, blog_path(slug));
            let p = transition(st, Some(slug), StageView::AwaitPageviews { fediverse: fed }, Some(Event::Pageviews(Ok(views))), now);
            let single = if fed is Some {
                transition(p.state, Some(slug), p.stage, Some(Event::Note(Ok(note))), now)
            } else {
                p
            };
            &&& all.action == (ActionView::ReplyAll { metadata: snapshot_of(all.state.entries) })
            &&& all.state.entries.contains_key(slug)
            &&& single.action == (ActionView::ReplyOne { metadata: all.state.entries[slug].metadata })
            &&& single.state.entries[slug] == all.state.entries[slug]
        }),
{
}

/// Only a refused verification, or the lack of any token, leads to a login;
/// the move after a login never logs in again; and a token once held is
/// never dropped.
pub proof fn lemma_login_only_when_needed(
    st: BlogStateView,
    req: Option<Seq<char>>,
    stage: StageView,
    ev: Option<Event>,
    now: i64,
)
    ensures
        transition(st, req, stage, ev, now).action is Login ==> st.umami_token is None || (stage is AwaitVerify
            && ev matches Some(Event::Verified(Err(_)))),
        stage is AwaitLogin ==> !(transition(st, req, stage, ev, now).action is Login),
        st.umami_token is Some ==> transition(st, req, stage, ev, now).state.umami_token is Some,
{
}

/// The three clocks move independently: the index clock only when a fetched
/// index is merged in, the bulk clock only when every entry is refreshed
/// together, and an entry's own clock only when that entry (or every entry)
/// is refreshed. Each clock that moves is set to the time of the move.
pub proof fn lemma_clocks_move_only_on_their_refresh(
    st: BlogStateView,
    req: Option<Seq<char>>,
    stage: StageView,
    ev: Option<Event>,
    now: i64,
    slug: Seq<char>,
)
    requires
        st.entries.contains_key(slug),
    ensures
        ({
            let o = transition(st, req, stage, ev, now);
            &&& o.state.last_modified != st.last_modified ==> o.state.last_modified == now && stage is AwaitIndex
                && (ev matches Some(Event::Index(Ok(_))))
            &&& o.state.values_last_modified != st.values_last_modified ==> o.state.values_last_modified == now
                && stage is AwaitUserNotes && (ev matches Some(Event::UserNotes(Ok(_))))
            &&& o.state.entries[slug].last_modified != st.entries[slug].last_modified ==> o.state.entries[slug].last_modified == now
                && (stage is AwaitPageviews || stage is AwaitNote || stage is AwaitUserNotes)
        }),
{
    if let Some(Event::Index(Ok(index))) = ev {
        lemma_merge_routes_clock(st.entries, index_view(index@), slug);
    }
}

/// Merging the post index in keeps the clock of every entry that was known.
proof fn lemma_merge_routes_clock(
    m: Map<Seq<char>, crate::blog::BlogValueView>,
    index: Seq<(Seq<char>, Option<Seq<char>>)>,
    k: Seq<char>,
)
    requires
        m.contains_key(k),
    ensures
        merge_routes(m, index).contains_key(k),
        merge_routes(m, index)[k].last_modified == m[k].last_modified,
        merge_routes(m, index)[k].metadata == m[k].metadata,
    decreases index.len(),
{
    if index.len() > 0 {
        lemma_merge_routes_clock(m, index.drop_last(), k);
    }
}

/// A successful login keeps its token and goes on without a second login;
/// later reads verify that token and, while it is accepted, use it again
/// without logging in.
pub proof fn lemma_login_token_is_reused(
    st: BlogStateView,
    req: Option<Seq<char>>,
    resp: LoginResponse,
    req2: Option<Seq<char>>,
    verified: String,
    now: i64,
    now2: i64,
)
    ensures
        ({
            let o = transition(st, req, StageView::AwaitLogin, Some(Event::LoggedIn(Ok(resp))), now);
            let t = resp.token@;
            let again = transition(o.state, req2, StageView::AwaitVerify { token: t }, Some(Event::Verified(Ok(verified))), now2);
            &&& o.state.umami_token == Some(t)
            &&& !(o.action is Login)
            &&& o.action matches ActionView::FetchPageviews { token, .. } ==> token == t
            &&& o.action matches ActionView::FetchPageviewsPrefix { token, .. } ==> token == t
            &&& crate::session::token_step(o.state).action == (ActionView::Verify { token: t })
            &&& again == with_token(o.state, req2, t)
            &&& again.state.umami_token == Some(t)
            &&& !(again.action is Login)
        }),
{
}

} // verus!
