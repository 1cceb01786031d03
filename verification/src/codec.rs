//! How records are written to table rows and read back: identifiers as
//! hyphenated UUID text, instants as RFC 3339 text, statuses as their names.
//! Reading a row checks every such column; the first that does not parse fails
//! the row with a storage error carrying the parser's message.

use vstd::prelude::*;
use crate::error::{Error, ErrorView};
use crate::ids::{id_from_text, id_to_text, spec_uuid_parse, uuid_text};
use crate::records::{
    opt_text, Artifact, ArtifactView, Channel, ChannelSubscription, ChannelSubscriptionView,
    ChannelView, Issue, IssueEvent, IssueEventView, IssueView, Post, PostView, Thread,
    ThreadSubscription, ThreadSubscriptionView, ThreadView, User, UserView,
};
use crate::status::{lemma_status_text_round_trip, status_from_text, status_text, unknown_status_message, IssueStatus};
use crate::time::{spec_parse_instant, spec_rfc3339, Timestamp};

verus! {

/// The message of the storage error for a stored value that does not parse:
/// around a listed channel, thread, post or artifact it is reported as a
/// decoding error (`wrapped`), elsewhere as the parser's message alone.
pub open spec fn storage_message(m: Seq<char>, wrapped: bool) -> Seq<char> {
    if wrapped {
        "error occurred while decoding: "@ + m
    } else {
        m
    }
}

/// Reads an identifier column.
pub open spec fn spec_read_id(text: Seq<char>, wrapped: bool) -> Result<u128, ErrorView> {
    match spec_uuid_parse(text) {
        Ok(u) => Ok(u),
        Err(m) => Err(ErrorView::Storage(storage_message(m, wrapped))),
    }
}

/// Reads an instant column.
pub open spec fn spec_read_instant(text: Seq<char>, wrapped: bool) -> Result<(i64, u32), ErrorView> {
    match spec_parse_instant(text) {
        Ok(t) => Ok(t),
        Err(m) => Err(ErrorView::Storage(storage_message(m, wrapped))),
    }
}

/// Reads a status column.
pub open spec fn spec_read_status(text: Seq<char>) -> Result<IssueStatus, ErrorView> {
    match status_from_text(text) {
        Some(s) => Ok(s),
        None => Err(ErrorView::InvalidInput(unknown_status_message(text))),
    }
}

fn clone_opt_text(o: &Option<String>) -> (r: Option<String>)
    ensures
        opt_text(r) == opt_text(*o),
{
    match o {
        Some(s) => Some(s.clone()),
        None => None,
    }
}

fn storage_failure(m: String, wrapped: bool) -> (e: Error)
    ensures
        e@ == ErrorView::Storage(storage_message(m@, wrapped)),
{
    if wrapped {
        Error::Storage("error occurred while decoding: ".to_owned().concat(m.as_str()))
    } else {
        Error::Storage(m)
    }
}

/// Reads an identifier column.
pub fn read_id(text: &String, wrapped: bool) -> (r: Result<u128, Error>)
    ensures
        match spec_read_id(text@, wrapped) {
            Ok(u) => r == Ok::<u128, Error>(u),
            Err(ev) => r matches Err(e) && e@ == ev,
        },
{
    match id_from_text(text.as_str()) {
        Ok(u) => Ok(u),
        Err(m) => Err(storage_failure(m, wrapped)),
    }
}

/// Reads an instant column.
pub fn read_instant(text: &String, wrapped: bool) -> (r: Result<Timestamp, Error>)
    ensures
        match spec_read_instant(text@, wrapped) {
            Ok(t) => r matches Ok(x) && x@ == t,
            Err(ev) => r matches Err(e) && e@ == ev,
        },
{
    match Timestamp::from_text(text.as_str()) {
        Ok(t) => Ok(t),
        Err(m) => Err(storage_failure(m, wrapped)),
    }
}

/// A record stored as one table row.
pub trait StoredRecord: Sized + View {
    type Row: View;

    /// The row that stores a record.
    spec fn spec_encode(v: <Self as View>::V) -> <Self::Row as View>::V;

    /// The record a row holds, or the error for its first malformed column.
    spec fn spec_decode(r: <Self::Row as View>::V) -> Result<<Self as View>::V, ErrorView>;

    /// Whether every instant of the record reads back exactly from its text.
    spec fn spec_round_trips(v: <Self as View>::V) -> bool;

    /// Writes the record as a row.
    fn to_row(&self) -> (r: Self::Row)
        ensures
            r@ == Self::spec_encode(self@),
            Self::spec_round_trips(self@) ==> Self::spec_decode(r@) == Ok::<<Self as View>::V, ErrorView>(self@),
    ;

    /// Reads the record back from a row.
    fn from_row(r: &Self::Row) -> (res: Result<Self, Error>)
        ensures
            match res {
                Ok(x) => Self::spec_decode(r@) == Ok::<<Self as View>::V, ErrorView>(x@),
                Err(e) => Self::spec_decode(r@) == Err::<<Self as View>::V, ErrorView>(e@),
            },
    ;
}

/// The views of a sequence of rows.
pub open spec fn row_views<T: StoredRecord>(rows: Seq<T::Row>) -> Seq<<T::Row as View>::V> {
    rows.map_values(|r: T::Row| r@)
}

/// The views of a sequence of records.
pub open spec fn record_views<T: StoredRecord>(xs: Seq<T>) -> Seq<<T as View>::V> {
    xs.map_values(|x: T| x@)
}

/// Reads rows in order: the records of all of them, or the error of the first
/// row that cannot be read.
pub open spec fn spec_decode_all<T: StoredRecord>(rows: Seq<<T::Row as View>::V>) -> Result<
    Seq<<T as View>::V>,
    ErrorView,
>
    decreases rows.len(),
{
    if rows.len() == 0 {
        Ok(Seq::empty())
    } else {
        match spec_decode_all::<T>(rows.drop_last()) {
            Err(e) => Err(e),
            Ok(vs) => match T::spec_decode(rows.last()) {
                Err(e) => Err(e),
                Ok(v) => Ok(vs.push(v)),
            },
        }
    }
}

/// Law: reading a list of rows keeps their number and their order: the `i`-th
/// record is the one the `i`-th row holds.
pub proof fn lemma_decode_all_keeps_order<T: StoredRecord>(rows: Seq<<T::Row as View>::V>)
    ensures
        spec_decode_all::<T>(rows) matches Ok(vs) ==> {
            &&& vs.len() == rows.len()
            &&& forall|i: int| 0 <= i < rows.len() ==> T::spec_decode(#[trigger] rows[i]) == Ok::<<T as View>::V, ErrorView>(vs[i])
        },
    decreases rows.len(),
{
    if rows.len() > 0 {
        lemma_decode_all_keeps_order::<T>(rows.drop_last());
        if let Ok(vs) = spec_decode_all::<T>(rows) {
            assert forall|i: int| 0 <= i < rows.len() implies T::spec_decode(#[trigger] rows[i]) == Ok::<<T as View>::V, ErrorView>(vs[i]) by {
                if i < rows.len() - 1 {
                    assert(rows.drop_last()[i] == rows[i]);
                }
            }
        }
    }
}

/// Law: the rows of a list of records that read back exactly read back, in
/// order, to that list.
pub proof fn lemma_decode_all_of_encoded<T: StoredRecord>(xs: Seq<<T as View>::V>)
    requires
        forall|i: int| 0 <= i < xs.len() ==> T::spec_decode(T::spec_encode(#[trigger] xs[i])) == Ok::<<T as View>::V, ErrorView>(xs[i]),
    ensures
        spec_decode_all::<T>(xs.map_values(|v: <T as View>::V| T::spec_encode(v))) == Ok::<Seq<<T as View>::V>, ErrorView>(xs),
    decreases xs.len(),
{
    let rows = xs.map_values(|v: <T as View>::V| T::spec_encode(v));
    if xs.len() > 0 {
        let init = xs.drop_last();
        assert(rows.drop_last() =~= init.map_values(|v: <T as View>::V| T::spec_encode(v)));
        assert forall|i: int| 0 <= i < init.len() implies T::spec_decode(T::spec_encode(#[trigger] init[i])) == Ok::<<T as View>::V, ErrorView>(init[i]) by {
            assert(init[i] == xs[i]);
        }
        lemma_decode_all_of_encoded::<T>(init);
        assert(rows.last() == T::spec_encode(xs.last()));
        assert(xs =~= init.push(xs.last()));
    } else {
        assert(rows =~= Seq::empty());
        assert(xs =~= Seq::empty());
    }
}

/// Once a prefix of the rows fails, so does every longer list.
proof fn lemma_decode_all_error_extends<T: StoredRecord>(rows: Seq<<T::Row as View>::V>, k: int)
    requires
        0 <= k <= rows.len(),
        spec_decode_all::<T>(rows.take(k)) is Err,
    ensures
        spec_decode_all::<T>(rows) == spec_decode_all::<T>(rows.take(k)),
    decreases rows.len() - k,
{
    if k < rows.len() {
        let next = rows.take(k + 1);
        assert(next.drop_last() =~= rows.take(k));
        lemma_decode_all_error_extends::<T>(rows, k + 1);
    } else {
        assert(rows.take(k) =~= rows);
    }
}

/// Reads fetched rows in order; the first row that cannot be read fails the whole list.
pub fn decode_rows<T: StoredRecord>(rows: &Vec<T::Row>) -> (res: Result<Vec<T>, Error>)
    ensures
        match res {
            Ok(xs) => spec_decode_all::<T>(row_views::<T>(rows@)) == Ok::<Seq<<T as View>::V>, ErrorView>(record_views::<T>(xs@)),
            Err(e) => spec_decode_all::<T>(row_views::<T>(rows@)) == Err::<Seq<<T as View>::V>, ErrorView>(e@),
        },
        res matches Ok(xs) ==> {
            &&& xs@.len() == rows@.len()
            &&& forall|i: int| 0 <= i < rows@.len() ==> T::spec_decode(#[trigger] rows@[i]@) == Ok::<<T as View>::V, ErrorView>(xs@[i]@)
        },
{
    let res = decode_rows_in_order::<T>(rows);
    proof {
        lemma_decode_all_keeps_order::<T>(row_views::<T>(rows@));
        if let Ok(xs) = &res {
            assert forall|i: int| 0 <= i < rows@.len() implies T::spec_decode(#[trigger] rows@[i]@) == Ok::<<T as View>::V, ErrorView>(xs@[i]@) by {
                assert(row_views::<T>(rows@)[i] == rows@[i]@);
                assert(record_views::<T>(xs@)[i] == xs@[i]@);
            }
        }
    }
    res
}

fn decode_rows_in_order<T: StoredRecord>(rows: &Vec<T::Row>) -> (res: Result<Vec<T>, Error>)
    ensures
        match res {
            Ok(xs) => spec_decode_all::<T>(row_views::<T>(rows@)) == Ok::<Seq<<T as View>::V>, ErrorView>(record_views::<T>(xs@)),
            Err(e) => spec_decode_all::<T>(row_views::<T>(rows@)) == Err::<Seq<<T as View>::V>, ErrorView>(e@),
        },
{
    let mut out: Vec<T> = Vec::new();
    let n = rows.len();
    let mut i: usize = 0;
    assert(row_views::<T>(rows@.take(0)) =~= Seq::empty());
    assert(record_views::<T>(out@) =~= Seq::empty());
    while i < n
        invariant
            n == rows@.len(),
            0 <= i <= n,
            spec_decode_all::<T>(row_views::<T>(rows@.take(i as int))) == Ok::<Seq<<T as View>::V>, ErrorView>(record_views::<T>(out@)),
        decreases n - i,
    {
        let ghost prefix = rows@.take(i as int);
        assert(row_views::<T>(rows@.take(i as int + 1)).drop_last() =~= row_views::<T>(prefix));
        assert(row_views::<T>(rows@.take(i as int + 1)).last() == rows@[i as int]@);
        match T::from_row(&rows[i]) {
            Ok(x) => {
                let ghost before = out@;
                out.push(x);
                assert(record_views::<T>(out@) =~= record_views::<T>(before).push(x@));
            },
            Err(e) => {
                proof {
                    lemma_decode_all_error_extends::<T>(row_views::<T>(rows@), i as int + 1);
                    assert(row_views::<T>(rows@).take(i as int + 1) =~= row_views::<T>(rows@.take(i as int + 1)));
                }
                return Err(e);
            },
        }
        i = i + 1;
    }
    assert(rows@.take(n as int) =~= rows@);
    Ok(out)
}

/// A `channels` row.
pub struct ChannelRow {
    pub id: String,
    pub name: String,
    pub description: String,
    pub created_at: String,
}

pub struct ChannelRowView {
    pub id: Seq<char>,
    pub name: Seq<char>,
    pub description: Seq<char>,
    pub created_at: Seq<char>,
}

impl View for ChannelRow {
    type V = ChannelRowView;

    open spec fn view(&self) -> ChannelRowView {
        ChannelRowView {
            id: self.id@,
            name: self.name@,
            description: self.description@,
            created_at: self.created_at@,
        }
    }
}

impl StoredRecord for Channel {
    type Row = ChannelRow;

    open spec fn spec_encode(v: ChannelView) -> ChannelRowView {
        ChannelRowView {
            id: uuid_text(v.id),
            name: v.name,
            description: v.description,
            created_at: spec_rfc3339(v.created_at.0, v.created_at.1),
        }
    }

    open spec fn spec_decode(r: ChannelRowView) -> Result<ChannelView, ErrorView> {
        match spec_read_id(r.id, true) {
            Err(e) => Err(e),
            Ok(id) => match spec_read_instant(r.created_at, true) {
                Err(e) => Err(e),
                Ok(created_at) => Ok(ChannelView { id, name: r.name, description: r.description, created_at }),
            },
        }
    }

    open spec fn spec_round_trips(v: ChannelView) -> bool {
        crate::time::round_trips(v.created_at.0, v.created_at.1)
    }

    fn to_row(&self) -> (r: ChannelRow) {
        ChannelRow {
            id: id_to_text(self.id),
            name: self.name.clone(),
            description: self.description.clone(),
            created_at: self.created_at.to_text(),
        }
    }

    fn from_row(r: &ChannelRow) -> (res: Result<Channel, Error>) {
        let id = read_id(&r.id, true)?;
        let created_at = read_instant(&r.created_at, true)?;
        Ok(Channel { id, name: r.name.clone(), description: r.description.clone(), created_at })
    }
}

/// A `threads` row.
pub struct ThreadRow {
    pub id: String,
    pub channel_id: String,
    pub title: String,
    pub author: String,
    pub created_at: String,
}

pub struct ThreadRowView {
    pub id: Seq<char>,
    pub channel_id: Seq<char>,
    pub title: Seq<char>,
    pub author: Seq<char>,
    pub created_at: Seq<char>,
}

impl View for ThreadRow {
    type V = ThreadRowView;

    open spec fn view(&self) -> ThreadRowView {
        ThreadRowView {
            id: self.id@,
            channel_id: self.channel_id@,
            title: self.title@,
            author: self.author@,
            created_at: self.created_at@,
        }
    }
}

impl StoredRecord for Thread {
    type Row = ThreadRow;

    open spec fn spec_encode(v: ThreadView) -> ThreadRowView {
        ThreadRowView {
            id: uuid_text(v.id),
            channel_id: uuid_text(v.channel_id),
            title: v.title,
            author: v.author,
            created_at: spec_rfc3339(v.created_at.0, v.created_at.1),
        }
    }

    open spec fn spec_decode(r: ThreadRowView) -> Result<ThreadView, ErrorView> {
        match spec_read_id(r.id, true) {
            Err(e) => Err(e),
            Ok(id) => match spec_read_id(r.channel_id, true) {
                Err(e) => Err(e),
                Ok(channel_id) => match spec_read_instant(r.created_at, true) {
                    Err(e) => Err(e),
                    Ok(created_at) => Ok(ThreadView { id, channel_id, title: r.title, author: r.author, created_at }),
                },
            },
        }
    }

    open spec fn spec_round_trips(v: ThreadView) -> bool {
        crate::time::round_trips(v.created_at.0, v.created_at.1)
    }

    fn to_row(&self) -> (r: ThreadRow) {
        ThreadRow {
            id: id_to_text(self.id),
            channel_id: id_to_text(self.channel_id),
            title: self.title.clone(),
            author: self.author.clone(),
            created_at: self.created_at.to_text(),
        }
    }

    fn from_row(r: &ThreadRow) -> (res: Result<Thread, Error>) {
        let id = read_id(&r.id, true)?;
        let channel_id = read_id(&r.channel_id, true)?;
        let created_at = read_instant(&r.created_at, true)?;
        Ok(Thread { id, channel_id, title: r.title.clone(), author: r.author.clone(), created_at })
    }
}

/// A `posts` row.
pub struct PostRow {
    pub id: String,
    pub thread_id: String,
    pub author: String,
    pub content: String,
    pub created_at: String,
}

pub struct PostRowView {
    pub id: Seq<char>,
    pub thread_id: Seq<char>,
    pub author: Seq<char>,
    pub content: Seq<char>,
    pub created_at: Seq<char>,
}

impl View for PostRow {
    type V = PostRowView;

    open spec fn view(&self) -> PostRowView {
        PostRowView {
            id: self.id@,
            thread_id: self.thread_id@,
            author: self.author@,
            content: self.content@,
            created_at: self.created_at@,
        }
    }
}

/// The post a `posts` row holds. Read as a listed post (`wrapped`), a malformed
/// column is reported as a decoding error around the parser's message; read
/// for a feed, as the parser's message alone.
pub open spec fn spec_decode_post_row(r: PostRowView, wrapped: bool) -> Result<PostView, ErrorView> {
    match spec_read_id(r.id, wrapped) {
        Err(e) => Err(e),
        Ok(id) => match spec_read_id(r.thread_id, wrapped) {
            Err(e) => Err(e),
            Ok(thread_id) => match spec_read_instant(r.created_at, wrapped) {
                Err(e) => Err(e),
                Ok(created_at) => Ok(PostView { id, thread_id, author: r.author, content: r.content, created_at }),
            },
        },
    }
}

/// Reads a `posts` row, reporting a malformed column as `spec_decode_post_row` says.
pub fn decode_post_row(r: &PostRow, wrapped: bool) -> (res: Result<Post, Error>)
    ensures
        match res {
            Ok(x) => spec_decode_post_row(r@, wrapped) == Ok::<PostView, ErrorView>(x@),
            Err(e) => spec_decode_post_row(r@, wrapped) == Err::<PostView, ErrorView>(e@),
        },
{
    let id = read_id(&r.id, wrapped)?;
    let thread_id = read_id(&r.thread_id, wrapped)?;
    let created_at = read_instant(&r.created_at, wrapped)?;
    Ok(Post { id, thread_id, author: r.author.clone(), content: r.content.clone(), created_at })
}

impl StoredRecord for Post {
    type Row = PostRow;

    open spec fn spec_encode(v: PostView) -> PostRowView {
        PostRowView {
            id: uuid_text(v.id),
            thread_id: uuid_text(v.thread_id),
            author: v.author,
            content: v.content,
            created_at: spec_rfc3339(v.created_at.0, v.created_at.1),
        }
    }

    open spec fn spec_decode(r: PostRowView) -> Result<PostView, ErrorView> {
        spec_decode_post_row(r, true)
    }

    open spec fn spec_round_trips(v: PostView) -> bool {
        crate::time::round_trips(v.created_at.0, v.created_at.1)
    }

    fn to_row(&self) -> (r: PostRow) {
        PostRow {
            id: id_to_text(self.id),
            thread_id: id_to_text(self.thread_id),
            author: self.author.clone(),
            content: self.content.clone(),
            created_at: self.created_at.to_text(),
        }
    }

    fn from_row(r: &PostRow) -> (res: Result<Post, Error>) {
        decode_post_row(r, true)
    }
}

/// A `issues` row.
pub struct IssueRow {
    pub id: String,
    pub title: String,
    pub description: String,
    pub status: String,
    pub assignee: Option<String>,
    pub created_at: String,
    pub updated_at: String,
}

pub struct IssueRowView {
    pub id: Seq<char>,
    pub title: Seq<char>,
    pub description: Seq<char>,
    pub status: Seq<char>,
    pub assignee: Option<Seq<char>>,
    pub created_at: Seq<char>,
    pub updated_at: Seq<char>,
}

impl View for IssueRow {
    type V = IssueRowView;

    open spec fn view(&self) -> IssueRowView {
        IssueRowView {
            id: self.id@,
            title: self.title@,
            description: self.description@,
            status: self.status@,
            assignee: opt_text(self.assignee),
            created_at: self.created_at@,
            updated_at: self.updated_at@,
        }
    }
}

impl StoredRecord for Issue {
    type Row = IssueRow;

    open spec fn spec_encode(v: IssueView) -> IssueRowView {
        IssueRowView {
            id: uuid_text(v.id),
            title: v.title,
            description: v.description,
            status: status_text(v.status),
            assignee: v.assignee,
            created_at: spec_rfc3339(v.created_at.0, v.created_at.1),
            updated_at: spec_rfc3339(v.updated_at.0, v.updated_at.1),
        }
    }

    open spec fn spec_decode(r: IssueRowView) -> Result<IssueView, ErrorView> {
        match spec_read_id(r.id, false) {
            Err(e) => Err(e),
            Ok(id) => match spec_read_status(r.status) {
                Err(e) => Err(e),
                Ok(status) => match spec_read_instant(r.created_at, false) {
                    Err(e) => Err(e),
                    Ok(created_at) => match spec_read_instant(r.updated_at, false) {
                        Err(e) => Err(e),
                        Ok(updated_at) => Ok(IssueView { id, title: r.title, description: r.description, status, assignee: r.assignee, created_at, updated_at }),
                    },
                },
            },
        }
    }

    open spec fn spec_round_trips(v: IssueView) -> bool {
        crate::time::round_trips(v.created_at.0, v.created_at.1) && crate::time::round_trips(v.updated_at.0, v.updated_at.1)
    }

    fn to_row(&self) -> (r: IssueRow) {
        proof {
            lemma_status_text_round_trip(self.status);
        }
        IssueRow {
            id: id_to_text(self.id),
            title: self.title.clone(),
            description: self.description.clone(),
            status: self.status.to_text(),
            assignee: clone_opt_text(&self.assignee),
            created_at: self.created_at.to_text(),
            updated_at: self.updated_at.to_text(),
        }
    }

    fn from_row(r: &IssueRow) -> (res: Result<Issue, Error>) {
        let id = read_id(&r.id, false)?;
        let status = IssueStatus::parse(r.status.as_str())?;
        let created_at = read_instant(&r.created_at, false)?;
        let updated_at = read_instant(&r.updated_at, false)?;
        Ok(Issue { id, title: r.title.clone(), description: r.description.clone(), status, assignee: clone_opt_text(&r.assignee), created_at, updated_at })
    }
}

/// An `issue_events` row.
pub struct IssueEventRow {
    pub id: String,
    pub issue_id: String,
    pub from_status: String,
    pub to_status: String,
    pub note: Option<String>,
    pub timestamp: String,
}

pub struct IssueEventRowView {
    pub id: Seq<char>,
    pub issue_id: Seq<char>,
    pub from_status: Seq<char>,
    pub to_status: Seq<char>,
    pub note: Option<Seq<char>>,
    pub timestamp: Seq<char>,
}

impl View for IssueEventRow {
    type V = IssueEventRowView;

    open spec fn view(&self) -> IssueEventRowView {
        IssueEventRowView {
            id: self.id@,
            issue_id: self.issue_id@,
            from_status: self.from_status@,
            to_status: self.to_status@,
            note: opt_text(self.note),
            timestamp: self.timestamp@,
        }
    }
}

impl StoredRecord for IssueEvent {
    type Row = IssueEventRow;

    open spec fn spec_encode(v: IssueEventView) -> IssueEventRowView {
        IssueEventRowView {
            id: uuid_text(v.id),
            issue_id: uuid_text(v.issue_id),
            from_status: status_text(v.from_status),
            to_status: status_text(v.to_status),
            note: v.note,
            timestamp: spec_rfc3339(v.timestamp.0, v.timestamp.1),
        }
    }

    open spec fn spec_decode(r: IssueEventRowView) -> Result<IssueEventView, ErrorView> {
        match spec_read_id(r.id, false) {
            Err(e) => Err(e),
            Ok(id) => match spec_read_id(r.issue_id, false) {
                Err(e) => Err(e),
                Ok(issue_id) => match spec_read_status(r.from_status) {
                    Err(e) => Err(e),
                    Ok(from_status) => match spec_read_status(r.to_status) {
                        Err(e) => Err(e),
                        Ok(to_status) => match spec_read_instant(r.timestamp, false) {
                            Err(e) => Err(e),
                            Ok(timestamp) => Ok(IssueEventView { id, issue_id, from_status, to_status, note: r.note, timestamp }),
                        },
                    },
                },
            },
        }
    }

    open spec fn spec_round_trips(v: IssueEventView) -> bool {
        crate::time::round_trips(v.timestamp.0, v.timestamp.1)
    }

    fn to_row(&self) -> (r: IssueEventRow) {
        proof {
            lemma_status_text_round_trip(self.from_status);
            lemma_status_text_round_trip(self.to_status);
        }
        IssueEventRow {
            id: id_to_text(self.id),
            issue_id: id_to_text(self.issue_id),
            from_status: self.from_status.to_text(),
            to_status: self.to_status.to_text(),
            note: clone_opt_text(&self.note),
            timestamp: self.timestamp.to_text(),
        }
    }

    fn from_row(r: &IssueEventRow) -> (res: Result<IssueEvent, Error>) {
        let id = read_id(&r.id, false)?;
        let issue_id = read_id(&r.issue_id, false)?;
        let from_status = IssueStatus::parse(r.from_status.as_str())?;
        let to_status = IssueStatus::parse(r.to_status.as_str())?;
        let timestamp = read_instant(&r.timestamp, false)?;
        Ok(IssueEvent { id, issue_id, from_status, to_status, note: clone_opt_text(&r.note), timestamp })
    }
}

/// An `artifacts` row.
pub struct ArtifactRow {
    pub id: String,
    pub name: String,
    pub version: String,
    pub source_type: String,
    pub source_location: String,
    pub content_type: String,
    pub created_at: String,
}

pub struct ArtifactRowView {
    pub id: Seq<char>,
    pub name: Seq<char>,
    pub version: Seq<char>,
    pub source_type: Seq<char>,
    pub source_location: Seq<char>,
    pub content_type: Seq<char>,
    pub created_at: Seq<char>,
}

impl View for ArtifactRow {
    type V = ArtifactRowView;

    open spec fn view(&self) -> ArtifactRowView {
        ArtifactRowView {
            id: self.id@,
            name: self.name@,
            version: self.version@,
            source_type: self.source_type@,
            source_location: self.source_location@,
            content_type: self.content_type@,
            created_at: self.created_at@,
        }
    }
}

impl StoredRecord for Artifact {
    type Row = ArtifactRow;

    open spec fn spec_encode(v: ArtifactView) -> ArtifactRowView {
        ArtifactRowView {
            id: uuid_text(v.id),
            name: v.name,
            version: v.version,
            source_type: v.source_type,
            source_location: v.source_location,
            content_type: v.content_type,
            created_at: spec_rfc3339(v.created_at.0, v.created_at.1),
        }
    }

    open spec fn spec_decode(r: ArtifactRowView) -> Result<ArtifactView, ErrorView> {
        match spec_read_id(r.id, true) {
            Err(e) => Err(e),
            Ok(id) => match spec_read_instant(r.created_at, true) {
                Err(e) => Err(e),
                Ok(created_at) => Ok(ArtifactView { id, name: r.name, version: r.version, source_type: r.source_type, source_location: r.source_location, content_type: r.content_type, created_at }),
            },
        }
    }

    open spec fn spec_round_trips(v: ArtifactView) -> bool {
        crate::time::round_trips(v.created_at.0, v.created_at.1)
    }

    fn to_row(&self) -> (r: ArtifactRow) {
        ArtifactRow {
            id: id_to_text(self.id),
            name: self.name.clone(),
            version: self.version.clone(),
            source_type: self.source_type.clone(),
            source_location: self.source_location.clone(),
            content_type: self.content_type.clone(),
            created_at: self.created_at.to_text(),
        }
    }

    fn from_row(r: &ArtifactRow) -> (res: Result<Artifact, Error>) {
        let id = read_id(&r.id, true)?;
        let created_at = read_instant(&r.created_at, true)?;
        Ok(Artifact { id, name: r.name.clone(), version: r.version.clone(), source_type: r.source_type.clone(), source_location: r.source_location.clone(), content_type: r.content_type.clone(), created_at })
    }
}

/// A `users` row.
pub struct UserRow {
    pub id: String,
    pub created_at: String,
}

pub struct UserRowView {
    pub id: Seq<char>,
    pub created_at: Seq<char>,
}

impl View for UserRow {
    type V = UserRowView;

    open spec fn view(&self) -> UserRowView {
        UserRowView {
            id: self.id@,
            created_at: self.created_at@,
        }
    }
}

impl StoredRecord for User {
    type Row = UserRow;

    open spec fn spec_encode(v: UserView) -> UserRowView {
        UserRowView {
            id: uuid_text(v.id),
            created_at: spec_rfc3339(v.created_at.0, v.created_at.1),
        }
    }

    open spec fn spec_decode(r: UserRowView) -> Result<UserView, ErrorView> {
        match spec_read_id(r.id, false) {
            Err(e) => Err(e),
            Ok(id) => match spec_read_instant(r.created_at, false) {
                Err(e) => Err(e),
                Ok(created_at) => Ok(UserView { id, created_at }),
            },
        }
    }

    open spec fn spec_round_trips(v: UserView) -> bool {
        crate::time::round_trips(v.created_at.0, v.created_at.1)
    }

    fn to_row(&self) -> (r: UserRow) {
        UserRow {
            id: id_to_text(self.id),
            created_at: self.created_at.to_text(),
        }
    }

    fn from_row(r: &UserRow) -> (res: Result<User, Error>) {
        let id = read_id(&r.id, false)?;
        let created_at = read_instant(&r.created_at, false)?;
        Ok(User { id, created_at })
    }
}

/// A `channel_subscriptions` row.
pub struct ChannelSubscriptionRow {
    pub user_id: String,
    pub channel_id: String,
    pub subscribed_at: String,
}

pub struct ChannelSubscriptionRowView {
    pub user_id: Seq<char>,
    pub channel_id: Seq<char>,
    pub subscribed_at: Seq<char>,
}

impl View for ChannelSubscriptionRow {
    type V = ChannelSubscriptionRowView;

    open spec fn view(&self) -> ChannelSubscriptionRowView {
        ChannelSubscriptionRowView {
            user_id: self.user_id@,
            channel_id: self.channel_id@,
            subscribed_at: self.subscribed_at@,
        }
    }
}

impl StoredRecord for ChannelSubscription {
    type Row = ChannelSubscriptionRow;

    open spec fn spec_encode(v: ChannelSubscriptionView) -> ChannelSubscriptionRowView {
        ChannelSubscriptionRowView {
            user_id: uuid_text(v.user_id),
            channel_id: uuid_text(v.channel_id),
            subscribed_at: spec_rfc3339(v.subscribed_at.0, v.subscribed_at.1),
        }
    }

    open spec fn spec_decode(r: ChannelSubscriptionRowView) -> Result<ChannelSubscriptionView, ErrorView> {
        match spec_read_id(r.user_id, false) {
            Err(e) => Err(e),
            Ok(user_id) => match spec_read_id(r.channel_id, false) {
                Err(e) => Err(e),
                Ok(channel_id) => match spec_read_instant(r.subscribed_at, false) {
                    Err(e) => Err(e),
                    Ok(subscribed_at) => Ok(ChannelSubscriptionView { user_id, channel_id, subscribed_at }),
                },
            },
        }
    }

    open spec fn spec_round_trips(v: ChannelSubscriptionView) -> bool {
        crate::time::round_trips(v.subscribed_at.0, v.subscribed_at.1)
    }

    fn to_row(&self) -> (r: ChannelSubscriptionRow) {
        ChannelSubscriptionRow {
            user_id: id_to_text(self.user_id),
            channel_id: id_to_text(self.channel_id),
            subscribed_at: self.subscribed_at.to_text(),
        }
    }

    fn from_row(r: &ChannelSubscriptionRow) -> (res: Result<ChannelSubscription, Error>) {
        let user_id = read_id(&r.user_id, false)?;
        let channel_id = read_id(&r.channel_id, false)?;
        let subscribed_at = read_instant(&r.subscribed_at, false)?;
        Ok(ChannelSubscription { user_id, channel_id, subscribed_at })
    }
}

/// A `thread_subscriptions` row.
pub struct ThreadSubscriptionRow {
    pub user_id: String,
    pub thread_id: String,
    pub channel_id: String,
    pub subscribed_at: String,
}

pub struct ThreadSubscriptionRowView {
    pub user_id: Seq<char>,
    pub thread_id: Seq<char>,
    pub channel_id: Seq<char>,
    pub subscribed_at: Seq<char>,
}

impl View for ThreadSubscriptionRow {
    type V = ThreadSubscriptionRowView;

    open spec fn view(&self) -> ThreadSubscriptionRowView {
        ThreadSubscriptionRowView {
            user_id: self.user_id@,
            thread_id: self.thread_id@,
            channel_id: self.channel_id@,
            subscribed_at: self.subscribed_at@,
        }
    }
}

impl StoredRecord for ThreadSubscription {
    type Row = ThreadSubscriptionRow;

    open spec fn spec_encode(v: ThreadSubscriptionView) -> ThreadSubscriptionRowView {
        ThreadSubscriptionRowView {
            user_id: uuid_text(v.user_id),
            thread_id: uuid_text(v.thread_id),
            channel_id: uuid_text(v.channel_id),
            subscribed_at: spec_rfc3339(v.subscribed_at.0, v.subscribed_at.1),
        }
    }

    open spec fn spec_decode(r: ThreadSubscriptionRowView) -> Result<ThreadSubscriptionView, ErrorView> {
        match spec_read_id(r.user_id, false) {
            Err(e) => Err(e),
            Ok(user_id) => match spec_read_id(r.thread_id, false) {
                Err(e) => Err(e),
                Ok(thread_id) => match spec_read_id(r.channel_id, false) {
                    Err(e) => Err(e),
                    Ok(channel_id) => match spec_read_instant(r.subscribed_at, false) {
                        Err(e) => Err(e),
                        Ok(subscribed_at) => Ok(ThreadSubscriptionView { user_id, thread_id, channel_id, subscribed_at }),
                    },
                },
            },
        }
    }

    open spec fn spec_round_trips(v: ThreadSubscriptionView) -> bool {
        crate::time::round_trips(v.subscribed_at.0, v.subscribed_at.1)
    }

    fn to_row(&self) -> (r: ThreadSubscriptionRow) {
        ThreadSubscriptionRow {
            user_id: id_to_text(self.user_id),
            thread_id: id_to_text(self.thread_id),
            channel_id: id_to_text(self.channel_id),
            subscribed_at: self.subscribed_at.to_text(),
        }
    }

    fn from_row(r: &ThreadSubscriptionRow) -> (res: Result<ThreadSubscription, Error>) {
        let user_id = read_id(&r.user_id, false)?;
        let thread_id = read_id(&r.thread_id, false)?;
        let channel_id = read_id(&r.channel_id, false)?;
        let subscribed_at = read_instant(&r.subscribed_at, false)?;
        Ok(ThreadSubscription { user_id, thread_id, channel_id, subscribed_at })
    }
}


/// Law: a `channels` row keeps each field of the record in the column of
/// the same name (identifiers as UUID text, instants as RFC 3339 text,
/// statuses as their names), and reading a row takes each field from the
/// column of the same name.
pub proof fn lemma_channels_columns(v: ChannelView, r: ChannelRowView)
    ensures
        <Channel as StoredRecord>::spec_encode(v).id == uuid_text(v.id),
        <Channel as StoredRecord>::spec_encode(v).name == v.name,
        <Channel as StoredRecord>::spec_encode(v).description == v.description,
        <Channel as StoredRecord>::spec_encode(v).created_at == spec_rfc3339(v.created_at.0, v.created_at.1),
        <Channel as StoredRecord>::spec_decode(r) matches Ok(d) ==> {
            &&& spec_uuid_parse(r.id) == Ok::<u128, Seq<char>>(d.id)
            &&& d.name == r.name
            &&& d.description == r.description
            &&& spec_parse_instant(r.created_at) == Ok::<(i64, u32), Seq<char>>(d.created_at)
        },
{
}

/// Law: a `threads` row keeps each field of the record in the column of
/// the same name (identifiers as UUID text, instants as RFC 3339 text,
/// statuses as their names), and reading a row takes each field from the
/// column of the same name.
pub proof fn lemma_threads_columns(v: ThreadView, r: ThreadRowView)
    ensures
        <Thread as StoredRecord>::spec_encode(v).id == uuid_text(v.id),
        <Thread as StoredRecord>::spec_encode(v).channel_id == uuid_text(v.channel_id),
        <Thread as StoredRecord>::spec_encode(v).title == v.title,
        <Thread as StoredRecord>::spec_encode(v).author == v.author,
        <Thread as StoredRecord>::spec_encode(v).created_at == spec_rfc3339(v.created_at.0, v.created_at.1),
        <Thread as StoredRecord>::spec_decode(r) matches Ok(d) ==> {
            &&& spec_uuid_parse(r.id) == Ok::<u128, Seq<char>>(d.id)
            &&& spec_uuid_parse(r.channel_id) == Ok::<u128, Seq<char>>(d.channel_id)
            &&& d.title == r.title
            &&& d.author == r.author
            &&& spec_parse_instant(r.created_at) == Ok::<(i64, u32), Seq<char>>(d.created_at)
        },
{
}

/// Law: a `posts` row keeps each field of the record in the column of
/// the same name (identifiers as UUID text, instants as RFC 3339 text,
/// statuses as their names), and reading a row takes each field from the
/// column of the same name.
pub proof fn lemma_posts_columns(v: PostView, r: PostRowView)
    ensures
        <Post as StoredRecord>::spec_encode(v).id == uuid_text(v.id),
        <Post as StoredRecord>::spec_encode(v).thread_id == uuid_text(v.thread_id),
        <Post as StoredRecord>::spec_encode(v).author == v.author,
        <Post as StoredRecord>::spec_encode(v).content == v.content,
        <Post as StoredRecord>::spec_encode(v).created_at == spec_rfc3339(v.created_at.0, v.created_at.1),
        <Post as StoredRecord>::spec_decode(r) matches Ok(d) ==> {
            &&& spec_uuid_parse(r.id) == Ok::<u128, Seq<char>>(d.id)
            &&& spec_uuid_parse(r.thread_id) == Ok::<u128, Seq<char>>(d.thread_id)
            &&& d.author == r.author
            &&& d.content == r.content
            &&& spec_parse_instant(r.created_at) == Ok::<(i64, u32), Seq<char>>(d.created_at)
        },
{
}

/// Law: an `issues` row keeps each field of the record in the column of
/// the same name (identifiers as UUID text, instants as RFC 3339 text,
/// statuses as their names), and reading a row takes each field from the
/// column of the same name.
pub proof fn lemma_issues_columns(v: IssueView, r: IssueRowView)
    ensures
        <Issue as StoredRecord>::spec_encode(v).id == uuid_text(v.id),
        <Issue as StoredRecord>::spec_encode(v).title == v.title,
        <Issue as StoredRecord>::spec_encode(v).description == v.description,
        <Issue as StoredRecord>::spec_encode(v).status == status_text(v.status),
        <Issue as StoredRecord>::spec_encode(v).assignee == v.assignee,
        <Issue as StoredRecord>::spec_encode(v).created_at == spec_rfc3339(v.created_at.0, v.created_at.1),
        <Issue as StoredRecord>::spec_encode(v).updated_at == spec_rfc3339(v.updated_at.0, v.updated_at.1),
        <Issue as StoredRecord>::spec_decode(r) matches Ok(d) ==> {
            &&& spec_uuid_parse(r.id) == Ok::<u128, Seq<char>>(d.id)
            &&& d.title == r.title
            &&& d.description == r.description
            &&& status_from_text(r.status) == Some(d.status)
            &&& d.assignee == r.assignee
            &&& spec_parse_instant(r.created_at) == Ok::<(i64, u32), Seq<char>>(d.created_at)
            &&& spec_parse_instant(r.updated_at) == Ok::<(i64, u32), Seq<char>>(d.updated_at)
        },
{
}

/// Law: an `issue_events` row keeps each field of the record in the column of
/// the same name (identifiers as UUID text, instants as RFC 3339 text,
/// statuses as their names), and reading a row takes each field from the
/// column of the same name.
pub proof fn lemma_issue_events_columns(v: IssueEventView, r: IssueEventRowView)
    ensures
        <IssueEvent as StoredRecord>::spec_encode(v).id == uuid_text(v.id),
        <IssueEvent as StoredRecord>::spec_encode(v).issue_id == uuid_text(v.issue_id),
        <IssueEvent as StoredRecord>::spec_encode(v).from_status == status_text(v.from_status),
        <IssueEvent as StoredRecord>::spec_encode(v).to_status == status_text(v.to_status),
        <IssueEvent as StoredRecord>::spec_encode(v).note == v.note,
        <IssueEvent as StoredRecord>::spec_encode(v).timestamp == spec_rfc3339(v.timestamp.0, v.timestamp.1),
        <IssueEvent as StoredRecord>::spec_decode(r) matches Ok(d) ==> {
            &&& spec_uuid_parse(r.id) == Ok::<u128, Seq<char>>(d.id)
            &&& spec_uuid_parse(r.issue_id) == Ok::<u128, Seq<char>>(d.issue_id)
            &&& status_from_text(r.from_status) == Some(d.from_status)
            &&& status_from_text(r.to_status) == Some(d.to_status)
            &&& d.note == r.note
            &&& spec_parse_instant(r.timestamp) == Ok::<(i64, u32), Seq<char>>(d.timestamp)
        },
{
}

/// Law: an `artifacts` row keeps each field of the record in the column of
/// the same name (identifiers as UUID text, instants as RFC 3339 text,
/// statuses as their names), and reading a row takes each field from the
/// column of the same name.
pub proof fn lemma_artifacts_columns(v: ArtifactView, r: ArtifactRowView)
    ensures
        <Artifact as StoredRecord>::spec_encode(v).id == uuid_text(v.id),
        <Artifact as StoredRecord>::spec_encode(v).name == v.name,
        <Artifact as StoredRecord>::spec_encode(v).version == v.version,
        <Artifact as StoredRecord>::spec_encode(v).source_type == v.source_type,
        <Artifact as StoredRecord>::spec_encode(v).source_location == v.source_location,
        <Artifact as StoredRecord>::spec_encode(v).content_type == v.content_type,
        <Artifact as StoredRecord>::spec_encode(v).created_at == spec_rfc3339(v.created_at.0, v.created_at.1),
        <Artifact as StoredRecord>::spec_decode(r) matches Ok(d) ==> {
            &&& spec_uuid_parse(r.id) == Ok::<u128, Seq<char>>(d.id)
            &&& d.name == r.name
            &&& d.version == r.version
            &&& d.source_type == r.source_type
            &&& d.source_location == r.source_location
            &&& d.content_type == r.content_type
            &&& spec_parse_instant(r.created_at) == Ok::<(i64, u32), Seq<char>>(d.created_at)
        },
{
}

/// Law: an `users` row keeps each field of the record in the column of
/// the same name (identifiers as UUID text, instants as RFC 3339 text,
/// statuses as their names), and reading a row takes each field from the
/// column of the same name.
pub proof fn lemma_users_columns(v: UserView, r: UserRowView)
    ensures
        <User as StoredRecord>::spec_encode(v).id == uuid_text(v.id),
        <User as StoredRecord>::spec_encode(v).created_at == spec_rfc3339(v.created_at.0, v.created_at.1),
        <User as StoredRecord>::spec_decode(r) matches Ok(d) ==> {
            &&& spec_uuid_parse(r.id) == Ok::<u128, Seq<char>>(d.id)
            &&& spec_parse_instant(r.created_at) == Ok::<(i64, u32), Seq<char>>(d.created_at)
        },
{
}

/// Law: a `channel_subscriptions` row keeps each field of the record in the column of
/// the same name (identifiers as UUID text, instants as RFC 3339 text,
/// statuses as their names), and reading a row takes each field from the
/// column of the same name.
pub proof fn lemma_channel_subscriptions_columns(v: ChannelSubscriptionView, r: ChannelSubscriptionRowView)
    ensures
        <ChannelSubscription as StoredRecord>::spec_encode(v).user_id == uuid_text(v.user_id),
        <ChannelSubscription as StoredRecord>::spec_encode(v).channel_id == uuid_text(v.channel_id),
        <ChannelSubscription as StoredRecord>::spec_encode(v).subscribed_at == spec_rfc3339(v.subscribed_at.0, v.subscribed_at.1),
        <ChannelSubscription as StoredRecord>::spec_decode(r) matches Ok(d) ==> {
            &&& spec_uuid_parse(r.user_id) == Ok::<u128, Seq<char>>(d.user_id)
            &&& spec_uuid_parse(r.channel_id) == Ok::<u128, Seq<char>>(d.channel_id)
            &&& spec_parse_instant(r.subscribed_at) == Ok::<(i64, u32), Seq<char>>(d.subscribed_at)
        },
{
}

/// Law: a `thread_subscriptions` row keeps each field of the record in the column of
/// the same name (identifiers as UUID text, instants as RFC 3339 text,
/// statuses as their names), and reading a row takes each field from the
/// column of the same name.
pub proof fn lemma_thread_subscriptions_columns(v: ThreadSubscriptionView, r: ThreadSubscriptionRowView)
    ensures
        <ThreadSubscription as StoredRecord>::spec_encode(v).user_id == uuid_text(v.user_id),
        <ThreadSubscription as StoredRecord>::spec_encode(v).thread_id == uuid_text(v.thread_id),
        <ThreadSubscription as StoredRecord>::spec_encode(v).channel_id == uuid_text(v.channel_id),
        <ThreadSubscription as StoredRecord>::spec_encode(v).subscribed_at == spec_rfc3339(v.subscribed_at.0, v.subscribed_at.1),
        <ThreadSubscription as StoredRecord>::spec_decode(r) matches Ok(d) ==> {
            &&& spec_uuid_parse(r.user_id) == Ok::<u128, Seq<char>>(d.user_id)
            &&& spec_uuid_parse(r.thread_id) == Ok::<u128, Seq<char>>(d.thread_id)
            &&& spec_uuid_parse(r.channel_id) == Ok::<u128, Seq<char>>(d.channel_id)
            &&& spec_parse_instant(r.subscribed_at) == Ok::<(i64, u32), Seq<char>>(d.subscribed_at)
        },
{
}

} // verus!
