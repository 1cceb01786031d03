//! The records of the service, the inputs that create them, and their
//! mathematical views (identifiers as integers, texts as character sequences,
//! instants as `(secs, nanos)`).

use vstd::prelude::*;
use crate::ids::{is_random_uuid, new_id};
use crate::status::IssueStatus;
use crate::time::Timestamp;

verus! {

/// The view of an optional text.
pub open spec fn opt_text(o: Option<String>) -> Option<Seq<char>> {
    match o {
        Some(s) => Some(s@),
        None => None,
    }
}

/// A named place for discussion.
#[derive(Clone, Debug)]
pub struct Channel {
    pub id: u128,
    pub name: String,
    pub description: String,
    pub created_at: Timestamp,
}

pub struct ChannelView {
    pub id: u128,
    pub name: Seq<char>,
    pub description: Seq<char>,
    pub created_at: (i64, u32),
}

impl View for Channel {
    type V = ChannelView;

    open spec fn view(&self) -> ChannelView {
        ChannelView { id: self.id, name: self.name@, description: self.description@, created_at: self.created_at@ }
    }
}

/// What a client gives to open a channel.
#[derive(Clone, Debug)]
pub struct CreateChannel {
    pub name: String,
    pub description: String,
}

impl Channel {
    /// A new channel from the client's input, under a fresh random identifier
    /// and stamped with the current time.
    pub fn create(input: CreateChannel) -> (c: Channel)
        ensures
            is_random_uuid(c.id),
            c.created_at@.0 >= 0 && c.created_at@.1 < 1_000_000_000,
            c.name@ == input.name@,
            c.description@ == input.description@,
    {
        Channel { id: new_id(), name: input.name, description: input.description, created_at: Timestamp::now() }
    }
}


/// A discussion inside a channel.
#[derive(Clone, Debug)]
pub struct Thread {
    pub id: u128,
    pub channel_id: u128,
    pub title: String,
    pub author: String,
    pub created_at: Timestamp,
}

pub struct ThreadView {
    pub id: u128,
    pub channel_id: u128,
    pub title: Seq<char>,
    pub author: Seq<char>,
    pub created_at: (i64, u32),
}

impl View for Thread {
    type V = ThreadView;

    open spec fn view(&self) -> ThreadView {
        ThreadView {
            id: self.id,
            channel_id: self.channel_id,
            title: self.title@,
            author: self.author@,
            created_at: self.created_at@,
        }
    }
}

/// What a client gives to open a thread.
#[derive(Clone, Debug)]
pub struct CreateThread {
    pub title: String,
    pub author: String,
}

impl Thread {
    /// A new thread in channel `channel_id`, under a fresh random identifier and
    /// stamped with the current time.
    pub fn create(channel_id: u128, input: CreateThread) -> (t: Thread)
        ensures
            is_random_uuid(t.id),
            t.created_at@.0 >= 0 && t.created_at@.1 < 1_000_000_000,
            t.channel_id == channel_id,
            t.title@ == input.title@,
            t.author@ == input.author@,
    {
        Thread { id: new_id(), channel_id, title: input.title, author: input.author, created_at: Timestamp::now() }
    }
}

/// One message in a thread. Posts are only ever appended.
#[derive(Clone, Debug)]
pub struct Post {
    pub id: u128,
    pub thread_id: u128,
    pub author: String,
    pub content: String,
    pub created_at: Timestamp,
}

pub struct PostView {
    pub id: u128,
    pub thread_id: u128,
    pub author: Seq<char>,
    pub content: Seq<char>,
    pub created_at: (i64, u32),
}

impl View for Post {
    type V = PostView;

    open spec fn view(&self) -> PostView {
        PostView {
            id: self.id,
            thread_id: self.thread_id,
            author: self.author@,
            content: self.content@,
            created_at: self.created_at@,
        }
    }
}

/// What a client gives to append a post.
#[derive(Clone, Debug)]
pub struct CreatePost {
    pub author: String,
    pub content: String,
}

impl Post {
    /// A new post in thread `thread_id`, under a fresh random identifier and
    /// stamped with the current time.
    pub fn create(thread_id: u128, input: CreatePost) -> (p: Post)
        ensures
            is_random_uuid(p.id),
            p.created_at@.0 >= 0 && p.created_at@.1 < 1_000_000_000,
            p.thread_id == thread_id,
            p.author@ == input.author@,
            p.content@ == input.content@,
    {
        Post { id: new_id(), thread_id, author: input.author, content: input.content, created_at: Timestamp::now() }
    }
}

/// A card on the kanban board.
#[derive(Clone, Debug)]
pub struct Issue {
    pub id: u128,
    pub title: String,
    pub description: String,
    pub status: IssueStatus,
    pub assignee: Option<String>,
    pub created_at: Timestamp,
    pub updated_at: Timestamp,
}

pub struct IssueView {
    pub id: u128,
    pub title: Seq<char>,
    pub description: Seq<char>,
    pub status: IssueStatus,
    pub assignee: Option<Seq<char>>,
    pub created_at: (i64, u32),
    pub updated_at: (i64, u32),
}

impl View for Issue {
    type V = IssueView;

    open spec fn view(&self) -> IssueView {
        IssueView {
            id: self.id,
            title: self.title@,
            description: self.description@,
            status: self.status,
            assignee: opt_text(self.assignee),
            created_at: self.created_at@,
            updated_at: self.updated_at@,
        }
    }
}

/// What a client gives to open an issue.
#[derive(Clone, Debug)]
pub struct CreateIssue {
    pub title: String,
    pub description: String,
    pub assignee: Option<String>,
}

/// What a client gives to move an issue.
#[derive(Clone, Debug)]
pub struct UpdateIssueStatus {
    pub status: IssueStatus,
    pub note: Option<String>,
}

impl Issue {
    /// A new issue, in the backlog, under a fresh random identifier; created and
    /// last updated at the same current time.
    pub fn create(input: CreateIssue) -> (i: Issue)
        ensures
            is_random_uuid(i.id),
            i.created_at@.0 >= 0 && i.created_at@.1 < 1_000_000_000,
            i.title@ == input.title@,
            i.description@ == input.description@,
            opt_text(i.assignee) == opt_text(input.assignee),
            i.status == IssueStatus::Backlog,
            i.updated_at@ == i.created_at@,
    {
        let now = Timestamp::now();
        Issue {
            id: new_id(),
            title: input.title,
            description: input.description,
            status: IssueStatus::Backlog,
            assignee: input.assignee,
            created_at: now,
            updated_at: now,
        }
    }
}

/// One move of an issue from one status to another.
#[derive(Clone, Debug)]
pub struct IssueEvent {
    pub id: u128,
    pub issue_id: u128,
    pub from_status: IssueStatus,
    pub to_status: IssueStatus,
    pub note: Option<String>,
    pub timestamp: Timestamp,
}

pub struct IssueEventView {
    pub id: u128,
    pub issue_id: u128,
    pub from_status: IssueStatus,
    pub to_status: IssueStatus,
    pub note: Option<Seq<char>>,
    pub timestamp: (i64, u32),
}

impl View for IssueEvent {
    type V = IssueEventView;

    open spec fn view(&self) -> IssueEventView {
        IssueEventView {
            id: self.id,
            issue_id: self.issue_id,
            from_status: self.from_status,
            to_status: self.to_status,
            note: opt_text(self.note),
            timestamp: self.timestamp@,
        }
    }
}

/// A versioned document kept by the service.
#[derive(Clone, Debug)]
pub struct Artifact {
    pub id: u128,
    pub name: String,
    pub version: String,
    pub source_type: String,
    pub source_location: String,
    pub content_type: String,
    pub created_at: Timestamp,
}

pub struct ArtifactView {
    pub id: u128,
    pub name: Seq<char>,
    pub version: Seq<char>,
    pub source_type: Seq<char>,
    pub source_location: Seq<char>,
    pub content_type: Seq<char>,
    pub created_at: (i64, u32),
}

impl View for Artifact {
    type V = ArtifactView;

    open spec fn view(&self) -> ArtifactView {
        ArtifactView {
            id: self.id,
            name: self.name@,
            version: self.version@,
            source_type: self.source_type@,
            source_location: self.source_location@,
            content_type: self.content_type@,
            created_at: self.created_at@,
        }
    }
}

/// What a client gives to store an artifact; the content is optional.
#[derive(Clone, Debug)]
pub struct CreateArtifact {
    pub name: String,
    pub version: String,
    pub source_type: String,
    pub source_location: String,
    pub content_type: String,
    pub content: Option<Vec<u8>>,
}

/// The view of optional content.
pub open spec fn opt_bytes(o: Option<Vec<u8>>) -> Option<Seq<u8>> {
    match o {
        Some(v) => Some(v@),
        None => None,
    }
}

impl Artifact {
    /// A new artifact from the client's input, under a fresh random identifier
    /// and stamped with the current time, with the content to store beside it.
    pub fn create(input: CreateArtifact) -> (r: (Artifact, Option<Vec<u8>>))
        ensures
            is_random_uuid(r.0.id),
            r.0.created_at@.0 >= 0 && r.0.created_at@.1 < 1_000_000_000,
            r.0.name@ == input.name@,
            r.0.version@ == input.version@,
            r.0.source_type@ == input.source_type@,
            r.0.source_location@ == input.source_location@,
            r.0.content_type@ == input.content_type@,
            opt_bytes(r.1) == opt_bytes(input.content),
    {
        let artifact = Artifact {
            id: new_id(),
            name: input.name,
            version: input.version,
            source_type: input.source_type,
            source_location: input.source_location,
            content_type: input.content_type,
            created_at: Timestamp::now(),
        };
        (artifact, input.content)
    }
}

/// A registered user.
#[derive(Clone, Debug)]
pub struct User {
    pub id: u128,
    pub created_at: Timestamp,
}

pub struct UserView {
    pub id: u128,
    pub created_at: (i64, u32),
}

impl View for User {
    type V = UserView;

    open spec fn view(&self) -> UserView {
        UserView { id: self.id, created_at: self.created_at@ }
    }
}

impl User {
    /// A newly registered user, under a fresh random identifier.
    pub fn register() -> (u: User)
        ensures
            is_random_uuid(u.id),
            u.created_at@.0 >= 0 && u.created_at@.1 < 1_000_000_000,
    {
        User { id: new_id(), created_at: Timestamp::now() }
    }
}

/// A user following a channel.
#[derive(Clone, Debug)]
pub struct ChannelSubscription {
    pub user_id: u128,
    pub channel_id: u128,
    pub subscribed_at: Timestamp,
}

pub struct ChannelSubscriptionView {
    pub user_id: u128,
    pub channel_id: u128,
    pub subscribed_at: (i64, u32),
}

impl View for ChannelSubscription {
    type V = ChannelSubscriptionView;

    open spec fn view(&self) -> ChannelSubscriptionView {
        ChannelSubscriptionView {
            user_id: self.user_id,
            channel_id: self.channel_id,
            subscribed_at: self.subscribed_at@,
        }
    }
}

impl ChannelSubscription {
    /// The subscription of `user_id` to `channel_id` as it would start now.
    pub fn begin(user_id: u128, channel_id: u128) -> (s: ChannelSubscription)
        ensures
            s.user_id == user_id,
            s.channel_id == channel_id,
            s.subscribed_at@.0 >= 0 && s.subscribed_at@.1 < 1_000_000_000,
    {
        ChannelSubscription { user_id, channel_id, subscribed_at: Timestamp::now() }
    }
}

/// A user following a thread; the feed of the user shows its new posts.
#[derive(Clone, Debug)]
pub struct ThreadSubscription {
    pub user_id: u128,
    pub channel_id: u128,
    pub thread_id: u128,
    pub subscribed_at: Timestamp,
}

pub struct ThreadSubscriptionView {
    pub user_id: u128,
    pub channel_id: u128,
    pub thread_id: u128,
    pub subscribed_at: (i64, u32),
}

impl View for ThreadSubscription {
    type V = ThreadSubscriptionView;

    open spec fn view(&self) -> ThreadSubscriptionView {
        ThreadSubscriptionView {
            user_id: self.user_id,
            channel_id: self.channel_id,
            thread_id: self.thread_id,
            subscribed_at: self.subscribed_at@,
        }
    }
}

impl ThreadSubscription {
    /// The subscription of `user_id` to thread `thread_id` of `channel_id` as it would start now.
    pub fn begin(user_id: u128, channel_id: u128, thread_id: u128) -> (s: ThreadSubscription)
        ensures
            s.user_id == user_id,
            s.channel_id == channel_id,
            s.thread_id == thread_id,
            s.subscribed_at@.0 >= 0 && s.subscribed_at@.1 < 1_000_000_000,
    {
        ThreadSubscription { user_id, channel_id, thread_id, subscribed_at: Timestamp::now() }
    }
}

/// A post in a user's feed, with where it was posted.
#[derive(Clone, Debug)]
pub struct FeedPost {
    pub post: Post,
    pub channel_id: u128,
    pub thread_id: u128,
}

pub struct FeedPostView {
    pub post: PostView,
    pub channel_id: u128,
    pub thread_id: u128,
}

impl View for FeedPost {
    type V = FeedPostView;

    open spec fn view(&self) -> FeedPostView {
        FeedPostView { post: self.post@, channel_id: self.channel_id, thread_id: self.thread_id }
    }
}

} // verus!
