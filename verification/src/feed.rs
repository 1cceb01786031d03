//! A user's feed: for every followed thread, the posts stored later than the
//! last post the user has been shown, after which the newest of them becomes
//! the thread's read marker.
//!
//! Instants are compared as they are stored, as RFC 3339 texts in the order of
//! their characters' code points (which is the byte order of their UTF-8 form,
//! the order in which the database compares texts).

use vstd::prelude::*;
use crate::codec::{decode_post_row, spec_decode_post_row, spec_read_id, PostRow, PostRowView};
use crate::error::{Error, ErrorView};
use crate::ids::id_from_text;
use crate::records::{FeedPost, FeedPostView, PostView};

verus! {

/// `a` comes strictly before `b` in the order of code points.
pub open spec fn text_less(a: Seq<char>, b: Seq<char>) -> bool
    decreases a.len(),
{
    if b.len() == 0 {
        false
    } else if a.len() == 0 {
        true
    } else if (a[0] as u32) < (b[0] as u32) {
        true
    } else if a[0] == b[0] {
        text_less(a.drop_first(), b.drop_first())
    } else {
        false
    }
}

/// `a` comes strictly after `b`.
pub open spec fn text_after(a: Seq<char>, b: Seq<char>) -> bool {
    text_less(b, a)
}

/// The order of texts is transitive.
pub proof fn lemma_text_less_transitive(a: Seq<char>, b: Seq<char>, c: Seq<char>)
    requires
        text_less(a, b),
        text_less(b, c),
    ensures
        text_less(a, c),
    decreases a.len(),
{
    if a.len() > 0 && b.len() > 0 && c.len() > 0 && a[0] == b[0] && b[0] == c[0] {
        lemma_text_less_transitive(a.drop_first(), b.drop_first(), c.drop_first());
    }
}

/// Comparing texts that agree on their first `i` characters is comparing what follows.
proof fn lemma_text_less_skip(a: Seq<char>, b: Seq<char>, i: int)
    requires
        0 <= i <= a.len(),
        i <= b.len(),
        forall|k: int| 0 <= k < i ==> a[k] == b[k],
    ensures
        text_less(a, b) == text_less(a.skip(i), b.skip(i)),
    decreases i,
{
    if i > 0 {
        lemma_text_less_skip(a.drop_first(), b.drop_first(), i - 1);
        assert(a.drop_first().skip(i - 1) =~= a.skip(i));
        assert(b.drop_first().skip(i - 1) =~= b.skip(i));
    } else {
        assert(a.skip(0) =~= a);
        assert(b.skip(0) =~= b);
    }
}

/// Whether text `a` comes strictly after text `b`.
pub fn text_is_after(a: &str, b: &str) -> (r: bool)
    ensures
        r == text_after(a@, b@),
{
    let n = a.unicode_len();
    let m = b.unicode_len();
    let mut i: usize = 0;
    while i < n && i < m
        invariant
            n == a@.len(),
            m == b@.len(),
            i <= n,
            i <= m,
            forall|k: int| 0 <= k < i ==> b@[k] == a@[k],
        decreases n - i,
    {
        let ca = a.get_char(i);
        let cb = b.get_char(i);
        if ca != cb {
            proof {
                lemma_text_less_skip(b@, a@, i as int);
                assert(b@.skip(i as int)[0] == cb);
                assert(a@.skip(i as int)[0] == ca);
            }
            return (cb as u32) < (ca as u32);
        }
        i = i + 1;
    }
    proof {
        lemma_text_less_skip(b@, a@, i as int);
    }
    i < n
}

/// The views of a list of post rows.
pub open spec fn row_views(rows: Seq<PostRow>) -> Seq<PostRowView> {
    rows.map_values(|r: PostRow| r@)
}

/// Whether a post comes after the read marker's instant (every post does
/// when there is no marker, or when the marked post is gone).
pub open spec fn is_unread(p: PostRowView, cursor: Option<Seq<char>>) -> bool {
    match cursor {
        None => true,
        Some(c) => text_after(p.created_at, c),
    }
}

/// The posts of a thread, in order, that come after the read marker.
pub open spec fn spec_unread(posts: Seq<PostRowView>, cursor: Option<Seq<char>>) -> Seq<PostRowView>
    decreases posts.len(),
{
    if posts.len() == 0 {
        Seq::empty()
    } else {
        let init = spec_unread(posts.drop_last(), cursor);
        if is_unread(posts.last(), cursor) {
            init.push(posts.last())
        } else {
            init
        }
    }
}

/// Posts listed oldest first, as their stored instants order them.
pub open spec fn sorted_by_time(posts: Seq<PostRowView>) -> bool {
    forall|i: int, j: int| 0 <= i < j < posts.len() ==> !text_after(#[trigger] posts[i].created_at, #[trigger] posts[j].created_at)
}

/// The unread posts are exactly the posts after the read marker, in their order.
pub proof fn lemma_unread_members(posts: Seq<PostRowView>, cursor: Option<Seq<char>>)
    ensures
        spec_unread(posts, cursor).len() <= posts.len(),
        forall|i: int| 0 <= i < spec_unread(posts, cursor).len() ==> is_unread(#[trigger] spec_unread(posts, cursor)[i], cursor),
        forall|i: int| 0 <= i < spec_unread(posts, cursor).len() ==> posts.contains(#[trigger] spec_unread(posts, cursor)[i]),
        forall|i: int| 0 <= i < posts.len() && is_unread(posts[i], cursor) ==> spec_unread(posts, cursor).contains(#[trigger] posts[i]),
    decreases posts.len(),
{
    if posts.len() > 0 {
        let init = posts.drop_last();
        lemma_unread_members(init, cursor);
        let u = spec_unread(posts, cursor);
        let ui = spec_unread(init, cursor);
        assert forall|i: int| 0 <= i < u.len() implies posts.contains(#[trigger] u[i]) by {
            if i < ui.len() {
                assert(u[i] == ui[i]);
                assert(init.contains(ui[i]));
                let k = choose|k: int| 0 <= k < init.len() && init[k] == ui[i];
                assert(posts[k] == init[k]);
            } else {
                assert(u[i] == posts[posts.len() - 1]);
            }
        }
        assert forall|i: int| 0 <= i < posts.len() && is_unread(posts[i], cursor) implies u.contains(#[trigger] posts[i]) by {
            if i < posts.len() - 1 {
                assert(posts[i] == init[i]);
                assert(ui.contains(init[i]));
                let k = choose|k: int| 0 <= k < ui.len() && ui[k] == init[i];
                assert(u[k] == ui[k]);
            } else {
                assert(u[u.len() - 1] == posts[i]);
            }
        }
    }
}

/// The last unread post is not earlier than any unread post of a sorted list.
proof fn lemma_last_unread_is_latest(posts: Seq<PostRowView>, cursor: Option<Seq<char>>, j: int)
    requires
        0 <= j < posts.len(),
        is_unread(posts[j], cursor),
        sorted_by_time(posts),
    ensures
        spec_unread(posts, cursor).len() > 0,
        !text_after(posts[j].created_at, spec_unread(posts, cursor).last().created_at),
    decreases posts.len(),
{
    let init = posts.drop_last();
    if j == posts.len() - 1 {
        assert(spec_unread(posts, cursor).last() == posts[j]);
        assert(!text_less(posts[j].created_at, posts[j].created_at)) by {
            lemma_text_less_irreflexive(posts[j].created_at);
        }
    } else {
        assert(init[j] == posts[j]);
        assert(sorted_by_time(init)) by {
            assert forall|a: int, b: int| 0 <= a < b < init.len() implies !text_after(#[trigger] init[a].created_at, #[trigger] init[b].created_at) by {
                assert(init[a] == posts[a] && init[b] == posts[b]);
            }
        }
        lemma_last_unread_is_latest(init, cursor, j);
        if is_unread(posts.last(), cursor) {
            assert(!text_after(posts[j].created_at, posts[posts.len() - 1].created_at));
        }
    }
}

/// No text comes before itself.
proof fn lemma_text_less_irreflexive(a: Seq<char>)
    ensures
        !text_less(a, a),
    decreases a.len(),
{
    if a.len() > 0 {
        lemma_text_less_irreflexive(a.drop_first());
    }
}

/// Law: reading a thread and then reading it again from the new read marker,
/// with no post added in between, shows nothing the second time.
pub proof fn lemma_feed_read_twice_is_empty(posts: Seq<PostRowView>, cursor: Option<Seq<char>>)
    requires
        sorted_by_time(posts),
        spec_unread(posts, cursor).len() > 0,
    ensures
        spec_unread(posts, Some(spec_unread(posts, cursor).last().created_at)).len() == 0,
{
    let u = spec_unread(posts, cursor);
    let c = u.last().created_at;
    lemma_unread_members(posts, cursor);
    lemma_unread_members(posts, Some(c));
    assert(u[u.len() - 1] == u.last());
    let v = spec_unread(posts, Some(c));
    if v.len() > 0 {
        // The first post shown the second time is after the last one shown the
        // first time, so it was unread the first time too: yet nothing unread
        // the first time is later than the last post then shown.
        let w = v[0];
        assert(is_unread(w, Some(c)));
        assert(posts.contains(w));
        let j = choose|j: int| 0 <= j < posts.len() && posts[j] == w;
        assert(is_unread(u.last(), cursor));
        if let Some(c0) = cursor {
            lemma_text_less_transitive(c0, c, w.created_at);
        }
        assert(is_unread(posts[j], cursor));
        lemma_last_unread_is_latest(posts, cursor, j);
    }
}

/// Law: after a read, the posts added to the thread later than the last post
/// shown are exactly what the next read shows.
pub proof fn lemma_feed_shows_new_posts(old: Seq<PostRowView>, new: Seq<PostRowView>, cursor: Option<Seq<char>>)
    requires
        sorted_by_time(old),
        spec_unread(old, cursor).len() > 0,
        forall|i: int| 0 <= i < new.len() ==> text_after(#[trigger] new[i].created_at, spec_unread(old, cursor).last().created_at),
    ensures
        spec_unread(old + new, Some(spec_unread(old, cursor).last().created_at)) == new,
    decreases new.len(),
{
    let c = spec_unread(old, cursor).last().created_at;
    if new.len() == 0 {
        assert(old + new =~= old);
        lemma_feed_read_twice_is_empty(old, cursor);
    } else {
        let init = new.drop_last();
        assert forall|i: int| 0 <= i < init.len() implies text_after(#[trigger] init[i].created_at, c) by {
            assert(init[i] == new[i]);
        }
        lemma_feed_shows_new_posts(old, init, cursor);
        assert((old + new).drop_last() =~= old + init);
        assert((old + new).last() == new.last());
        assert(new[new.len() - 1] == new.last());
        assert(init.push(new.last()) =~= new);
    }
}

/// A followed thread as the feed reads it: the thread, its channel, and the
/// stored identifier text of the last post shown (if any).
pub struct FeedSubscriptionRow {
    pub thread_id: String,
    pub channel_id: String,
    pub last_read_post_id: Option<String>,
}

/// A followed thread with its identifiers read.
pub struct FeedSubscription {
    pub thread_id: u128,
    pub channel_id: u128,
    pub last_read_post_id: Option<String>,
}

impl FeedSubscription {
    /// Reads a followed thread; an identifier that does not parse fails it
    /// with the parser's message.
    pub fn from_row(r: FeedSubscriptionRow) -> (res: Result<FeedSubscription, Error>)
        ensures
            match spec_read_id(r.thread_id@, false) {
                Err(e) => res matches Err(x) && x@ == e,
                Ok(t) => match spec_read_id(r.channel_id@, false) {
                    Err(e) => res matches Err(x) && x@ == e,
                    Ok(c) => res matches Ok(s) && s.thread_id == t && s.channel_id == c
                        && s.last_read_post_id == r.last_read_post_id,
                },
            },
    {
        let thread_id = match id_from_text(r.thread_id.as_str()) {
            Ok(u) => u,
            Err(m) => {
                return Err(Error::Storage(m));
            },
        };
        let channel_id = match id_from_text(r.channel_id.as_str()) {
            Ok(u) => u,
            Err(m) => {
                return Err(Error::Storage(m));
            },
        };
        Ok(FeedSubscription { thread_id, channel_id, last_read_post_id: r.last_read_post_id })
    }
}

/// The elements of `v` in the opposite order, moved (not copied).
fn reversed<T>(v: Vec<T>) -> (r: Vec<T>)
    ensures
        r@.len() == v@.len(),
        forall|k: int| 0 <= k < v@.len() ==> #[trigger] r@[k] == v@[v@.len() - 1 - k],
{
    let ghost orig = v@;
    let mut src = v;
    let mut out: Vec<T> = Vec::new();
    while src.len() > 0
        invariant
            src@ == orig.take(src@.len() as int),
            out@.len() + src@.len() == orig.len(),
            forall|k: int| 0 <= k < out@.len() ==> #[trigger] out@[k] == orig[orig.len() - 1 - k],
        decreases src.len(),
    {
        let x = src.pop().unwrap();
        out.push(x);
        assert(src@ =~= orig.take(src@.len() as int));
    }
    out
}

/// The view of an optional text.
pub open spec fn opt_view(o: Option<String>) -> Option<Seq<char>> {
    match o {
        Some(s) => Some(s@),
        None => None,
    }
}

/// The posts of a thread, in order, stored later than the read marker's
/// instant `cursor` (the stored `created_at` text of the marked post, `None`
/// when there is no marker or the marked post is gone).
pub fn unread_posts(posts: Vec<PostRow>, cursor: &Option<String>) -> (r: Vec<PostRow>)
    ensures
        row_views(r@) == spec_unread(row_views(posts@), opt_view(*cursor)),
{
    let mut out: Vec<PostRow> = Vec::new();
    let ghost all = row_views(posts@);
    let n = posts.len();
    let mut rest = reversed(posts);
    let ghost reversed = rest@;
    let mut i: usize = 0;
    assert(row_views(out@) =~= spec_unread(all.take(0), opt_view(*cursor)));
    while rest.len() > 0
        invariant
            all.len() == reversed.len(),
            all.len() == n,
            forall|k: int| 0 <= k < reversed.len() ==> #[trigger] reversed[k]@ == all[all.len() - 1 - k],
            rest@ == reversed.take(reversed.len() - i),
            0 <= i <= all.len(),
            row_views(out@) == spec_unread(all.take(i as int), opt_view(*cursor)),
        decreases rest.len(),
    {
        let p = rest.pop().unwrap();
        let ghost pv = p@;
        assert(pv == all[i as int]);
        assert(all.take(i as int + 1).drop_last() =~= all.take(i as int));
        assert(all.take(i as int + 1).last() == pv);
        let keep = match cursor {
            None => true,
            Some(c) => text_is_after(p.created_at.as_str(), c.as_str()),
        };
        if keep {
            let ghost before = out@;
            out.push(p);
            assert(row_views(out@) =~= row_views(before).push(pv));
        }
        i = i + 1;
        assert(rest@ =~= reversed.take(reversed.len() - i));
    }
    assert(all.take(all.len() as int) =~= all);
    out
}

/// What reading one followed thread gives: its unread post rows, oldest
/// first, and the new read marker (the stored identifier text of the newest of
/// them; `None` leaves the marker as it is).
pub struct ThreadRead {
    pub unread: Vec<PostRow>,
    pub new_marker: Option<String>,
}

/// Reads one followed thread from its post rows (oldest first) and the
/// instant of its read marker.
pub fn read_thread(posts: Vec<PostRow>, cursor: &Option<String>) -> (t: ThreadRead)
    ensures
        row_views(t.unread@) == spec_unread(row_views(posts@), opt_view(*cursor)),
        spec_unread(row_views(posts@), opt_view(*cursor)).len() == 0 ==> t.new_marker is None,
        spec_unread(row_views(posts@), opt_view(*cursor)).len() > 0 ==> opt_view(t.new_marker) == Some(
            spec_unread(row_views(posts@), opt_view(*cursor)).last().id,
        ),
{
    let unread = unread_posts(posts, cursor);
    let new_marker = if unread.len() == 0 {
        None
    } else {
        let ghost u = row_views(unread@);
        assert(u[u.len() - 1] == unread@[unread@.len() - 1]@);
        Some(unread[unread.len() - 1].id.clone())
    };
    ThreadRead { unread, new_marker }
}

/// The feed entries for the unread post rows of a thread in a channel, or the
/// error of the first row that does not read.
pub open spec fn spec_feed_entries(rows: Seq<PostRowView>, channel_id: u128, thread_id: u128) -> Result<Seq<FeedPostView>, ErrorView>
    decreases rows.len(),
{
    if rows.len() == 0 {
        Ok(Seq::empty())
    } else {
        match spec_feed_entries(rows.drop_last(), channel_id, thread_id) {
            Err(e) => Err(e),
            Ok(es) => match spec_decode_post_row(rows.last(), false) {
                Err(e) => Err(e),
                Ok(p) => Ok(es.push(FeedPostView { post: p, channel_id, thread_id })),
            },
        }
    }
}

/// Law: the feed entries of a thread are its unread rows read one for one, in
/// order, each placed in the subscription's channel and thread; when a row does
/// not read, the entries fail with that row's error.
pub proof fn lemma_feed_entries_one_for_one(rows: Seq<PostRowView>, channel_id: u128, thread_id: u128)
    ensures
        spec_feed_entries(rows, channel_id, thread_id) matches Ok(es) ==> {
            &&& es.len() == rows.len()
            &&& forall|i: int| 0 <= i < rows.len() ==> {
                &&& spec_decode_post_row(#[trigger] rows[i], false) == Ok::<PostView, ErrorView>(es[i].post)
                &&& es[i].channel_id == channel_id
                &&& es[i].thread_id == thread_id
            }
        },
        spec_feed_entries(rows, channel_id, thread_id) matches Err(e) ==> exists|i: int|
            0 <= i < rows.len() && spec_decode_post_row(#[trigger] rows[i], false) == Err::<PostView, ErrorView>(e),
    decreases rows.len(),
{
    if rows.len() > 0 {
        let init = rows.drop_last();
        lemma_feed_entries_one_for_one(init, channel_id, thread_id);
        match spec_feed_entries(init, channel_id, thread_id) {
            Ok(es0) => {
                if let Ok(es) = spec_feed_entries(rows, channel_id, thread_id) {
                    assert forall|i: int| 0 <= i < rows.len() implies {
                        &&& spec_decode_post_row(#[trigger] rows[i], false) == Ok::<PostView, ErrorView>(es[i].post)
                        &&& es[i].channel_id == channel_id
                        &&& es[i].thread_id == thread_id
                    } by {
                        if i < init.len() {
                            assert(init[i] == rows[i]);
                            assert(es[i] == es0[i]);
                        } else {
                            assert(rows[i] == rows.last());
                        }
                    }
                }
                if let Err(e) = spec_feed_entries(rows, channel_id, thread_id) {
                    assert(rows[rows.len() - 1] == rows.last());
                    assert(spec_decode_post_row(rows[rows.len() - 1], false) == Err::<PostView, ErrorView>(e));
                }
            },
            Err(e) => {
                let i = choose|i: int| 0 <= i < init.len() && spec_decode_post_row(#[trigger] init[i], false) == Err::<PostView, ErrorView>(e);
                assert(init[i] == rows[i]);
            },
        }
    }
}

/// Once a prefix of the rows fails, so does every longer list.
proof fn lemma_feed_entries_error_extends(rows: Seq<PostRowView>, k: int, channel_id: u128, thread_id: u128)
    requires
        0 <= k <= rows.len(),
        spec_feed_entries(rows.take(k), channel_id, thread_id) is Err,
    ensures
        spec_feed_entries(rows, channel_id, thread_id) == spec_feed_entries(rows.take(k), channel_id, thread_id),
    decreases rows.len() - k,
{
    if k < rows.len() {
        assert(rows.take(k + 1).drop_last() =~= rows.take(k));
        lemma_feed_entries_error_extends(rows, k + 1, channel_id, thread_id);
    } else {
        assert(rows.take(k) =~= rows);
    }
}

/// Reads the unread post rows of a followed thread into feed entries.
pub fn feed_entries(sub: &FeedSubscription, rows: &Vec<PostRow>) -> (r: Result<Vec<FeedPost>, Error>)
    ensures
        match r {
            Ok(es) => spec_feed_entries(row_views(rows@), sub.channel_id, sub.thread_id) == Ok::<Seq<FeedPostView>, ErrorView>(
                es@.map_values(|e: FeedPost| e@),
            ),
            Err(e) => spec_feed_entries(row_views(rows@), sub.channel_id, sub.thread_id) == Err::<Seq<FeedPostView>, ErrorView>(e@),
        },
        r matches Ok(es) ==> {
            &&& es@.len() == rows@.len()
            &&& forall|i: int| 0 <= i < rows@.len() ==> {
                &&& spec_decode_post_row(#[trigger] rows@[i]@, false) == Ok::<PostView, ErrorView>(es@[i].post@)
                &&& es@[i].channel_id == sub.channel_id
                &&& es@[i].thread_id == sub.thread_id
            }
        },
        r matches Err(e) ==> exists|i: int| 0 <= i < rows@.len() && spec_decode_post_row(#[trigger] rows@[i]@, false) == Err::<PostView, ErrorView>(e@),
{
    let res = feed_entries_in_order(sub, rows);
    proof {
        lemma_feed_entries_one_for_one(row_views(rows@), sub.channel_id, sub.thread_id);
        if let Ok(es) = &res {
            let ev = es@.map_values(|e: FeedPost| e@);
            assert forall|i: int| 0 <= i < rows@.len() implies {
                &&& spec_decode_post_row(#[trigger] rows@[i]@, false) == Ok::<PostView, ErrorView>(es@[i].post@)
                &&& es@[i].channel_id == sub.channel_id
                &&& es@[i].thread_id == sub.thread_id
            } by {
                assert(row_views(rows@)[i] == rows@[i]@);
                assert(ev[i] == es@[i]@);
            }
        }
        if let Err(e) = &res {
            let i = choose|i: int| 0 <= i < row_views(rows@).len() && spec_decode_post_row(#[trigger] row_views(rows@)[i], false) == Err::<PostView, ErrorView>(e@);
            assert(row_views(rows@)[i] == rows@[i]@);
        }
    }
    res
}

fn feed_entries_in_order(sub: &FeedSubscription, rows: &Vec<PostRow>) -> (r: Result<Vec<FeedPost>, Error>)
    ensures
        match r {
            Ok(es) => spec_feed_entries(row_views(rows@), sub.channel_id, sub.thread_id) == Ok::<Seq<FeedPostView>, ErrorView>(
                es@.map_values(|e: FeedPost| e@),
            ),
            Err(e) => spec_feed_entries(row_views(rows@), sub.channel_id, sub.thread_id) == Err::<Seq<FeedPostView>, ErrorView>(e@),
        },
{
    let mut out: Vec<FeedPost> = Vec::new();
    let n = rows.len();
    let mut i: usize = 0;
    assert(row_views(rows@.take(0)) =~= Seq::empty());
    assert(out@.map_values(|e: FeedPost| e@) =~= Seq::empty());
    while i < n
        invariant
            n == rows@.len(),
            0 <= i <= n,
            spec_feed_entries(row_views(rows@.take(i as int)), sub.channel_id, sub.thread_id) == Ok::<Seq<FeedPostView>, ErrorView>(
                out@.map_values(|e: FeedPost| e@),
            ),
        decreases n - i,
    {
        assert(row_views(rows@.take(i as int + 1)).drop_last() =~= row_views(rows@.take(i as int)));
        assert(row_views(rows@.take(i as int + 1)).last() == rows@[i as int]@);
        match decode_post_row(&rows[i], false) {
            Ok(p) => {
                let ghost before = out@;
                out.push(FeedPost { post: p, channel_id: sub.channel_id, thread_id: sub.thread_id });
                assert(out@.map_values(|e: FeedPost| e@) =~= before.map_values(|e: FeedPost| e@).push(out@.last()@));
            },
            Err(e) => {
                proof {
                    lemma_feed_entries_error_extends(row_views(rows@), i as int + 1, sub.channel_id, sub.thread_id);
                    assert(row_views(rows@).take(i as int + 1) =~= row_views(rows@.take(i as int + 1)));
                }
                return Err(e);
            },
        }
        i = i + 1;
    }
    assert(rows@.take(n as int) =~= rows@);
    Ok(out)
}

} // verus!
