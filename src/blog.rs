//! The cache of post metadata: one entry per known slug, three staleness
//! clocks, and the analytics session token.
use vstd::prelude::*;

use crate::assoc::{assoc_map, distinct_keys, has_key, lemma_assoc_at, lemma_assoc_push, lemma_assoc_update};
use crate::fediverse::{find_note, note_counts, NoteResponse};
use crate::umami::{blog_path, blog_path_string, find_pageviews, prefix_views, MetricsResponseItem};

verus! {

/// How long cached data counts as fresh: five minutes, in milliseconds.
pub const CACHE_TTL_MILLIS: i64 = 300000;

/// Engagement counters of one post.
#[derive(Clone, Copy, Debug, PartialEq, Eq, Structural, Default)]
pub struct BlogMetadata {
    pub views: u64,
    pub comments: u64,
    pub reactions: u64,
}

/// Counters made of a view count and a (comments, reactions) pair.
pub open spec fn assemble(views: u64, counts: (u64, u64)) -> BlogMetadata {
    BlogMetadata { views, comments: counts.0, reactions: counts.1 }
}

/// Data that was refreshed at `last` is stale at `now`: more than five
/// minutes have passed.
pub open spec fn is_expired(last: i64, now: i64) -> bool {
    now - last > CACHE_TTL_MILLIS
}

/// Whether data refreshed at `last_modified` is stale at `now`.
pub fn expired_cache(last_modified: i64, now: i64) -> (r: bool)
    ensures
        r == is_expired(last_modified, now),
{
    (now as i128) - (last_modified as i128) > (CACHE_TTL_MILLIS as i128)
}

/// An optional string as an optional sequence of characters.
pub open spec fn opt_view(o: Option<String>) -> Option<Seq<char>> {
    match o {
        Some(s) => Some(s@),
        None => None,
    }
}

/// A copy of an optional string.
pub fn copy_opt(o: &Option<String>) -> (r: Option<String>)
    ensures
        opt_view(r) == opt_view(*o),
{
    match o {
        Some(s) => Some(s.clone()),
        None => None,
    }
}

/// The cached data of one post.
#[derive(Clone, Debug)]
pub struct BlogValue {
    pub metadata: BlogMetadata,
    /// When `metadata` was last fetched, in milliseconds since the epoch.
    pub last_modified: i64,
    /// The social note linked to the post, if any.
    pub fediverse: Option<String>,
}

/// A cached entry as plain values.
pub struct BlogValueView {
    pub metadata: BlogMetadata,
    pub last_modified: i64,
    pub fediverse: Option<Seq<char>>,
}

impl View for BlogValue {
    type V = BlogValueView;

    open spec fn view(&self) -> BlogValueView {
        BlogValueView {
            metadata: self.metadata,
            last_modified: self.last_modified,
            fediverse: opt_view(self.fediverse),
        }
    }
}

impl BlogValue {
    /// A copy of this entry.
    pub fn duplicate(&self) -> (r: BlogValue)
        ensures
            r@ == self@,
    {
        BlogValue {
            metadata: self.metadata,
            last_modified: self.last_modified,
            fediverse: copy_opt(&self.fediverse),
        }
    }
}

/// Zero counters, refreshed at the epoch: what a newly discovered post starts with.
pub open spec fn zero_metadata() -> BlogMetadata {
    BlogMetadata { views: 0, comments: 0, reactions: 0 }
}

/// The entries after one slug of the post index was merged in: a new slug
/// gets zero counters refreshed at the epoch; a known one keeps its counters
/// and their time, and takes the note id that the index gives.
pub open spec fn merge_route(
    m: Map<Seq<char>, BlogValueView>,
    slug: Seq<char>,
    note: Option<Seq<char>>,
) -> Map<Seq<char>, BlogValueView> {
    if m.contains_key(slug) {
        m.insert(slug, BlogValueView { fediverse: note, ..m[slug] })
    } else {
        m.insert(slug, BlogValueView { metadata: zero_metadata(), last_modified: 0, fediverse: note })
    }
}

/// The entries after the whole post index was merged in, in its order.
pub open spec fn merge_routes(
    m: Map<Seq<char>, BlogValueView>,
    index: Seq<(Seq<char>, Option<Seq<char>>)>,
) -> Map<Seq<char>, BlogValueView>
    decreases index.len(),
{
    if index.len() == 0 {
        m
    } else {
        let rest = merge_routes(m, index.drop_last());
        merge_route(rest, index.last().0, index.last().1)
    }
}

/// A fetched post index as plain values, in its order.
pub open spec fn index_view(index: Seq<(String, Option<String>)>) -> Seq<(Seq<char>, Option<Seq<char>>)> {
    index.map_values(|p: (String, Option<String>)| (p.0@, opt_view(p.1)))
}

/// Stored entries as plain values, in their order.
pub open spec fn row_views(rows: Seq<(String, BlogValue)>) -> Seq<(Seq<char>, BlogValueView)> {
    rows.map_values(|p: (String, BlogValue)| (p.0@, p.1@))
}

/// (slug, counters) pairs with the slugs as plain values.
pub open spec fn metadata_rows(rows: Seq<(String, BlogMetadata)>) -> Seq<(Seq<char>, BlogMetadata)> {
    rows.map_values(|p: (String, BlogMetadata)| (p.0@, p.1))
}

/// The map that a list of (slug, counters) pairs stands for.
pub open spec fn metadata_map(rows: Seq<(String, BlogMetadata)>) -> Map<Seq<char>, BlogMetadata> {
    assoc_map(metadata_rows(rows))
}

/// The counters of every entry.
pub open spec fn snapshot_of(m: Map<Seq<char>, BlogValueView>) -> Map<Seq<char>, BlogMetadata> {
    Map::new(|k: Seq<char>| m.contains_key(k), |k: Seq<char>| m[k].metadata)
}

/// Comments and reactions of an entry in the bulk refresh: those of its
/// linked note in the user's notes, zeros without a linked note.
pub open spec fn linked_counts(fediverse: Option<Seq<char>>, notes: Seq<NoteResponse>) -> (u64, u64) {
    match fediverse {
        Some(id) => note_counts(notes, id),
        None => (0, 0),
    }
}

/// An entry after the bulk refresh.
pub open spec fn refreshed_value(
    slug: Seq<char>,
    v: BlogValueView,
    items: Seq<MetricsResponseItem>,
    notes: Seq<NoteResponse>,
    now: i64,
) -> BlogValueView {
    BlogValueView {
        metadata: assemble(prefix_views(items, blog_path(slug)), linked_counts(v.fediverse, notes)),
        last_modified: now,
        fediverse: v.fediverse,
    }
}

/// All entries after the bulk refresh.
pub open spec fn refreshed_entries(
    m: Map<Seq<char>, BlogValueView>,
    items: Seq<MetricsResponseItem>,
    notes: Seq<NoteResponse>,
    now: i64,
) -> Map<Seq<char>, BlogValueView> {
    Map::new(|k: Seq<char>| m.contains_key(k), |k: Seq<char>| refreshed_value(k, m[k], items, notes, now))
}

/// The whole cache state.
#[derive(Debug)]
pub struct BlogState {
    value: Vec<(String, BlogValue)>,
    values_last_modified: i64,
    last_modified: i64,
    umami_token: Option<String>,
}

/// The cache state as plain values.
pub struct BlogStateView {
    /// Slug to cached entry.
    pub entries: Map<Seq<char>, BlogValueView>,
    /// When all entries were last refreshed together.
    pub values_last_modified: i64,
    /// When the post index was last fetched.
    pub last_modified: i64,
    /// The analytics session token, once one was obtained.
    pub umami_token: Option<Seq<char>>,
}

impl View for BlogState {
    type V = BlogStateView;

    closed spec fn view(&self) -> BlogStateView {
        BlogStateView {
            entries: assoc_map(row_views(self.value@)),
            values_last_modified: self.values_last_modified,
            last_modified: self.last_modified,
            umami_token: opt_view(self.umami_token),
        }
    }
}

impl BlogState {
    /// The slugs are stored once each.
    pub closed spec fn wf(&self) -> bool {
        distinct_keys(row_views(self.value@))
    }

    /// An empty cache: no entries, every clock at the epoch, no token.
    pub fn new() -> (r: BlogState)
        ensures
            r.wf(),
            r@.entries == Map::<Seq<char>, BlogValueView>::empty(),
            r@.values_last_modified == 0,
            r@.last_modified == 0,
            r@.umami_token is None,
    {
        let r = BlogState { value: Vec::new(), values_last_modified: 0, last_modified: 0, umami_token: None };
        assert(assoc_map(row_views(r.value@)) =~= Map::<Seq<char>, BlogValueView>::empty());
        r
    }

    /// The analytics session token currently held.
    pub fn umami_token(&self) -> (r: Option<String>)
        ensures
            opt_view(r) == self@.umami_token,
    {
        copy_opt(&self.umami_token)
    }

    /// When the post index was last fetched.
    pub fn last_modified(&self) -> (r: i64)
        ensures
            r == self@.last_modified,
    {
        self.last_modified
    }

    /// Whether the post index is stale at `now`.
    pub fn index_expired(&self, now: i64) -> (r: bool)
        ensures
            r == is_expired(self@.last_modified, now),
    {
        expired_cache(self.last_modified, now)
    }

    /// When all entries were last refreshed together.
    pub fn values_last_modified(&self) -> (r: i64)
        ensures
            r == self@.values_last_modified,
    {
        self.values_last_modified
    }

    /// Position of `slug` among the stored entries.
    fn position(&self, slug: &String) -> (r: Option<usize>)
        requires
            self.wf(),
        ensures
            r is None <==> !self@.entries.contains_key(slug@),
            r matches Some(i) ==> i < self.value@.len() && self.value@[i as int].0@ == slug@,
    {
        let ghost rows = row_views(self.value@);
        let mut i: usize = 0;
        while i < self.value.len()
            invariant
                i <= self.value@.len(),
                rows == row_views(self.value@),
                forall|j: int| 0 <= j < i ==> #[trigger] rows[j].0 != slug@,
            decreases self.value@.len() - i,
        {
            if self.value[i].0 == *slug {
                assert(rows[i as int].0 == slug@);
                return Some(i);
            }
            i = i + 1;
        }
        assert(!has_key(rows, slug@));
        None
    }

    /// A copy of the entry of `slug`, if the slug is known.
    pub fn entry(&self, slug: &String) -> (r: Option<BlogValue>)
        requires
            self.wf(),
        ensures
            r is Some <==> self@.entries.contains_key(slug@),
            r matches Some(v) ==> v@ == self@.entries[slug@],
    {
        match self.position(slug) {
            Some(i) => {
                proof {
                    lemma_assoc_at(row_views(self.value@), i as int);
                }
                Some(self.value[i].1.duplicate())
            },
            None => None,
        }
    }

    /// Stores `value` as the entry of `slug`, in place of any earlier one.
    pub fn store(&mut self, slug: &String, value: BlogValue)
        requires
            old(self).wf(),
        ensures
            final(self).wf(),
            final(self)@ == (BlogStateView { entries: old(self)@.entries.insert(slug@, value@), ..old(self)@ }),
    {
        let ghost rows = row_views(self.value@);
        match self.position(slug) {
            Some(i) => {
                proof {
                    lemma_assoc_update(rows, i as int, value@);
                }
                let key = slug.clone();
                self.value.set(i, (key, value));
                assert(row_views(self.value@) =~= rows.update(i as int, (rows[i as int].0, value@)));
            },
            None => {
                proof {
                    assert(!has_key(rows, slug@));
                    lemma_assoc_push(rows, slug@, value@);
                }
                let key = slug.clone();
                self.value.push((key, value));
                assert(row_views(self.value@) =~= rows.push((slug@, value@)));
            },
        }
    }

    /// Keeps `token` as the analytics session token.
    pub fn set_umami_token(&mut self, token: String)
        ensures
            final(self).wf() == old(self).wf(),
            final(self)@ == (BlogStateView { umami_token: Some(token@), ..old(self)@ }),
    {
        self.umami_token = Some(token);
    }

    /// Merges a fetched post index into the entries and marks the index as
    /// fetched at `now`. No entry is removed.
    pub fn update_routes(&mut self, index: &Vec<(String, Option<String>)>, now: i64)
        requires
            old(self).wf(),
        ensures
            final(self).wf(),
            final(self)@ == (BlogStateView {
                entries: merge_routes(old(self)@.entries, index_view(index@)),
                last_modified: now,
                ..old(self)@
            }),
    {
        let ghost start = self@;
        let mut i: usize = 0;
        while i < index.len()
            invariant
                i <= index@.len(),
                self.wf(),
                self@ == (BlogStateView {
                    entries: merge_routes(start.entries, index_view(index@).take(i as int)),
                    ..start
                }),
            decreases index@.len() - i,
        {
            let slug = &index[i].0;
            let note = copy_opt(&index[i].1);
            proof {
                let t = index_view(index@).take(i + 1);
                assert(t.drop_last() =~= index_view(index@).take(i as int));
                assert(t.last() == (slug@, opt_view(index@[i as int].1)));
            }
            let value = match self.entry(slug) {
                Some(old_value) => BlogValue { fediverse: note, ..old_value },
                None => BlogValue {
                    metadata: BlogMetadata { views: 0, comments: 0, reactions: 0 },
                    last_modified: 0,
                    fediverse: note,
                },
            };
            self.store(slug, value);
            i = i + 1;
        }
        assert(index_view(index@).take(index@.len() as int) =~= index_view(index@));
        self.last_modified = now;
    }

    /// The counters of every entry, one pair per slug.
    pub fn snapshot(&self) -> (r: Vec<(String, BlogMetadata)>)
        requires
            self.wf(),
        ensures
            distinct_keys(metadata_rows(r@)),
            metadata_map(r@) == snapshot_of(self@.entries),
    {
        let ghost rows = row_views(self.value@);
        let mut out: Vec<(String, BlogMetadata)> = Vec::new();
        let mut i: usize = 0;
        while i < self.value.len()
            invariant
                i <= self.value@.len(),
                rows == row_views(self.value@),
                out@.len() == i,
                forall|j: int| 0 <= j < i ==> #[trigger] metadata_rows(out@)[j] == (rows[j].0, rows[j].1.metadata),
            decreases self.value@.len() - i,
        {
            let ghost prev = out@;
            out.push((self.value[i].0.clone(), self.value[i].1.metadata));
            proof {
                assert(metadata_rows(out@) =~= metadata_rows(prev).push((rows[i as int].0, rows[i as int].1.metadata)));
            }
            i = i + 1;
        }
        proof {
            assert(snapshot_of(assoc_map(rows)).dom() =~= assoc_map(rows).dom());
            lemma_same_keys_map(rows, metadata_rows(out@), snapshot_of(assoc_map(rows)));
        }
        out
    }

    /// Refreshes every entry from one metrics answer for the blog prefix and
    /// the user's notes, marks every entry and the bulk clock as refreshed at
    /// `now`, and returns the new counters of every entry.
    pub fn refresh_all(&mut self, items: &Vec<MetricsResponseItem>, notes: &Vec<NoteResponse>, now: i64) -> (r: Vec<
        (String, BlogMetadata),
    >)
        requires
            old(self).wf(),
        ensures
            final(self).wf(),
            final(self)@ == (BlogStateView {
                entries: refreshed_entries(old(self)@.entries, items@, notes@, now),
                values_last_modified: now,
                ..old(self)@
            }),
            distinct_keys(metadata_rows(r@)),
            metadata_map(r@) == snapshot_of(final(self)@.entries),
    {
        let ghost rows = row_views(self.value@);
        let mut fresh: Vec<(String, BlogValue)> = Vec::new();
        let mut i: usize = 0;
        while i < self.value.len()
            invariant
                i <= self.value@.len(),
                rows == row_views(self.value@),
                fresh@.len() == i,
                forall|j: int|
                    0 <= j < i ==> #[trigger] row_views(fresh@)[j] == (
                        rows[j].0,
                        refreshed_value(rows[j].0, rows[j].1, items@, notes@, now),
                    ),
            decreases self.value@.len() - i,
        {
            let slug = &self.value[i].0;
            let path = blog_path_string(slug);
            let views = find_pageviews(items, &path);
            let counts: (u64, u64) = match &self.value[i].1.fediverse {
                Some(id) => find_note(notes, id),
                None => (0, 0),
            };
            let value = BlogValue {
                metadata: BlogMetadata { views, comments: counts.0, reactions: counts.1 },
                last_modified: now,
                fediverse: copy_opt(&self.value[i].1.fediverse),
            };
            let ghost prev = fresh@;
            fresh.push((slug.clone(), value));
            proof {
                assert(row_views(fresh@) =~= row_views(prev).push((rows[i as int].0, value@)));
                assert(row_views(fresh@)[i as int] == (
                    rows[i as int].0,
                    refreshed_value(rows[i as int].0, rows[i as int].1, items@, notes@, now),
                ));
            }
            i = i + 1;
        }
        proof {
            assert(refreshed_entries(assoc_map(rows), items@, notes@, now).dom() =~= assoc_map(rows).dom());
            lemma_same_keys_map(rows, row_views(fresh@), refreshed_entries(assoc_map(rows), items@, notes@, now));
        }
        self.value = fresh;
        self.values_last_modified = now;
        self.snapshot()
    }
}

/// A list with the same keys, position by position, as a list with distinct
/// keys, whose values are what `target` gives for those keys, stands for `target`.
proof fn lemma_same_keys_map<V, W>(s: Seq<(Seq<char>, V)>, t: Seq<(Seq<char>, W)>, target: Map<Seq<char>, W>)
    requires
        distinct_keys(s),
        t.len() == s.len(),
        forall|j: int| 0 <= j < t.len() ==> #[trigger] t[j].0 == s[j].0,
        target.dom() == assoc_map(s).dom(),
        forall|j: int| 0 <= j < t.len() ==> target[#[trigger] t[j].0] == t[j].1,
    ensures
        distinct_keys(t),
        assoc_map(t) == target,
{
    assert(distinct_keys(t)) by {
        assert forall|a: int, b: int|
            0 <= a < t.len() && 0 <= b < t.len() && a != b implies #[trigger] t[a].0
            != #[trigger] t[b].0 by {
            assert(s[a].0 == t[a].0);
            assert(s[b].0 == t[b].0);
        }
    }
    assert forall|k: Seq<char>| #[trigger] assoc_map(t).contains_key(k) <==> target.contains_key(k) by {
        if has_key(s, k) {
            let j = choose|j: int| 0 <= j < s.len() && #[trigger] s[j].0 == k;
            assert(t[j].0 == k);
        }
        if has_key(t, k) {
            let j = choose|j: int| 0 <= j < t.len() && #[trigger] t[j].0 == k;
            assert(s[j].0 == k);
        }
    }
    assert forall|k: Seq<char>| #[trigger] assoc_map(t).contains_key(k) implies assoc_map(t)[k]
        == target[k] by {
        let j = choose|j: int| 0 <= j < t.len() && #[trigger] t[j].0 == k;
        lemma_assoc_at(t, j);
    }
    assert(assoc_map(t) =~= target);
}

} // verus!
