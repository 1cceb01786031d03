//! The service's scenarios, played against tables held in memory: records are
//! written as rows, and read back from them, by the library.

use klondike::codec::{decode_rows, ArtifactRow, ChannelRow, IssueEventRow, IssueRow, PostRow, StoredRecord, ThreadRow};
use klondike::error::{found_or_not_found, Resource};
use klondike::ids::{id_to_text, new_id};
use klondike::issues::StatusChange;
use klondike::migrate::{MigrationStep, Migrator, SchemaVersion};
use klondike::records::{
    Artifact, Channel, CreateArtifact, CreateChannel, CreateIssue, CreatePost, CreateThread, Issue,
    IssueEvent, Post, Thread, UpdateIssueStatus,
};
use klondike::status::IssueStatus;
use klondike::store::decode_found;

#[derive(Default)]
struct Tables {
    channels: Vec<ChannelRow>,
    threads: Vec<ThreadRow>,
    posts: Vec<PostRow>,
    issues: Vec<IssueRow>,
    events: Vec<IssueEventRow>,
    artifacts: Vec<(ArtifactRow, Option<Vec<u8>>)>,
}

fn take<R>(rows: &[R], keep: impl Fn(&R) -> bool, copy: impl Fn(&R) -> R) -> Vec<R> {
    rows.iter().filter(|r| keep(r)).map(copy).collect()
}

fn copy_channel(r: &ChannelRow) -> ChannelRow {
    ChannelRow { id: r.id.clone(), name: r.name.clone(), description: r.description.clone(), created_at: r.created_at.clone() }
}

fn copy_thread(r: &ThreadRow) -> ThreadRow {
    ThreadRow { id: r.id.clone(), channel_id: r.channel_id.clone(), title: r.title.clone(), author: r.author.clone(), created_at: r.created_at.clone() }
}

fn copy_post(r: &PostRow) -> PostRow {
    PostRow { id: r.id.clone(), thread_id: r.thread_id.clone(), author: r.author.clone(), content: r.content.clone(), created_at: r.created_at.clone() }
}

fn copy_issue(r: &IssueRow) -> IssueRow {
    IssueRow {
        id: r.id.clone(),
        title: r.title.clone(),
        description: r.description.clone(),
        status: r.status.clone(),
        assignee: r.assignee.clone(),
        created_at: r.created_at.clone(),
        updated_at: r.updated_at.clone(),
    }
}

fn copy_event(r: &IssueEventRow) -> IssueEventRow {
    IssueEventRow {
        id: r.id.clone(),
        issue_id: r.issue_id.clone(),
        from_status: r.from_status.clone(),
        to_status: r.to_status.clone(),
        note: r.note.clone(),
        timestamp: r.timestamp.clone(),
    }
}

fn copy_artifact(r: &ArtifactRow) -> ArtifactRow {
    ArtifactRow {
        id: r.id.clone(),
        name: r.name.clone(),
        version: r.version.clone(),
        source_type: r.source_type.clone(),
        source_location: r.source_location.clone(),
        content_type: r.content_type.clone(),
        created_at: r.created_at.clone(),
    }
}

impl Tables {
    fn create_channel(&mut self, input: CreateChannel) -> Channel {
        let c = Channel::create(input);
        self.channels.push(c.to_row());
        c
    }

    fn get_channel(&self, id: u128) -> Result<Channel, klondike::error::Error> {
        let row = take(&self.channels, |r| r.id == id_to_text(id), copy_channel).pop();
        decode_found::<Channel>(row, Resource::Channel, id)
    }

    fn create_thread(&mut self, channel_id: u128, input: CreateThread) -> Thread {
        let t = Thread::create(channel_id, input);
        self.threads.push(t.to_row());
        t
    }

    fn create_post(&mut self, thread_id: u128, input: CreatePost) -> Post {
        let p = Post::create(thread_id, input);
        self.posts.push(p.to_row());
        p
    }

    fn list_posts(&self, thread_id: u128) -> Vec<Post> {
        decode_rows::<Post>(&take(&self.posts, |r| r.thread_id == id_to_text(thread_id), copy_post)).unwrap()
    }

    fn get_issue(&self, id: u128) -> Issue {
        decode_found::<Issue>(take(&self.issues, |r| r.id == id_to_text(id), copy_issue).pop(), Resource::Issue, id).unwrap()
    }

    fn update_status(&mut self, id: u128, input: UpdateIssueStatus) -> Issue {
        let current = self.get_issue(id);
        let change = StatusChange::request(&current, input);
        let u = change.update_row();
        let mut changed = 0;
        for r in self.issues.iter_mut() {
            if r.id == u.issue_id && r.status == u.from_status {
                r.status = u.to_status.clone();
                r.updated_at = u.updated_at.clone();
                changed += 1;
            }
        }
        let event = change.settle(changed).unwrap();
        self.events.push(event.to_row());
        self.get_issue(id)
    }
}

#[test]
fn channel_create_get_list() {
    let mut k = Tables::default();
    let created = k.create_channel(CreateChannel { name: "general".into(), description: "General discussion".into() });
    assert_eq!(created.name, "general");
    assert_eq!(created.description, "General discussion");
    let fetched = k.get_channel(created.id).unwrap();
    assert_eq!(fetched.id, created.id);
    assert_eq!(fetched.name, "general");
    let channels = decode_rows::<Channel>(&take(&k.channels, |_| true, copy_channel)).unwrap();
    assert_eq!(channels.len(), 1);
    assert_eq!(channels[0].id, created.id);
}

#[test]
fn thread_in_channel() {
    let mut k = Tables::default();
    let channel = k.create_channel(CreateChannel { name: "dev".into(), description: "Dev chat".into() });
    let thread = k.create_thread(channel.id, CreateThread { title: "RFC: new API".into(), author: "alice".into() });
    assert_eq!(thread.channel_id, channel.id);
    assert_eq!(thread.title, "RFC: new API");
    assert_eq!(thread.author, "alice");
    let threads = decode_rows::<Thread>(&take(&k.threads, |r| r.channel_id == id_to_text(channel.id), copy_thread)).unwrap();
    assert_eq!(threads.len(), 1);
    assert_eq!(threads[0].id, thread.id);
    let fetched = decode_found::<Thread>(take(&k.threads, |r| r.id == id_to_text(thread.id), copy_thread).pop(), Resource::Thread, thread.id).unwrap();
    assert_eq!(fetched.title, "RFC: new API");
}

#[test]
fn integration_test_posts_append_and_order() {
    let mut k = Tables::default();
    let channel = k.create_channel(CreateChannel { name: "chat".into(), description: "Chat".into() });
    let thread = k.create_thread(channel.id, CreateThread { title: "Hello".into(), author: "bob".into() });
    let p1 = k.create_post(thread.id, CreatePost { author: "bob".into(), content: "First post".into() });
    let p2 = k.create_post(thread.id, CreatePost { author: "alice".into(), content: "Second post".into() });
    let p3 = k.create_post(thread.id, CreatePost { author: "bob".into(), content: "Third post".into() });
    let posts = k.list_posts(thread.id);
    assert_eq!(posts.len(), 3);
    assert_eq!(posts[0].id, p1.id);
    assert_eq!(posts[1].id, p2.id);
    assert_eq!(posts[2].id, p3.id);
    assert_eq!(posts[0].content, "First post");
    assert_eq!(posts[1].content, "Second post");
    assert_eq!(posts[2].content, "Third post");
}

#[test]
fn issue_status_transitions_and_events() {
    let mut k = Tables::default();
    let issue = Issue::create(CreateIssue {
        title: "Fix bug".into(),
        description: "Something is broken".into(),
        assignee: Some("alice".into()),
    });
    k.issues.push(issue.to_row());
    assert_eq!(issue.status, IssueStatus::Backlog);
    assert_eq!(issue.assignee, Some("alice".into()));

    let issue = k.update_status(issue.id, UpdateIssueStatus { status: IssueStatus::InProgress, note: Some("Starting work".into()) });
    assert_eq!(issue.status, IssueStatus::InProgress);
    let issue = k.update_status(issue.id, UpdateIssueStatus { status: IssueStatus::Done, note: Some("Fixed in commit abc123".into()) });
    assert_eq!(issue.status, IssueStatus::Done);

    let events = decode_rows::<IssueEvent>(&take(&k.events, |r| r.issue_id == id_to_text(issue.id), copy_event)).unwrap();
    assert_eq!(events.len(), 2);
    assert_eq!(events[0].from_status, IssueStatus::Backlog);
    assert_eq!(events[0].to_status, IssueStatus::InProgress);
    assert_eq!(events[0].note, Some("Starting work".into()));
    assert_eq!(events[1].from_status, IssueStatus::InProgress);
    assert_eq!(events[1].to_status, IssueStatus::Done);
    assert_eq!(events[1].note, Some("Fixed in commit abc123".into()));

    let fetched = k.get_issue(issue.id);
    assert_eq!(fetched.status, IssueStatus::Done);
}

#[test]
fn integration_test_artifact_create_and_read_back() {
    let mut k = Tables::default();
    let (artifact, content) = Artifact::create(CreateArtifact {
        name: "design-doc".into(),
        version: "1.0.0".into(),
        source_type: "markdown".into(),
        source_location: "/docs/design.md".into(),
        content_type: "text/markdown".into(),
        content: Some(b"# Design Doc\nHello world".to_vec()),
    });
    k.artifacts.push((artifact.to_row(), content));
    assert_eq!(artifact.name, "design-doc");
    assert_eq!(artifact.version, "1.0.0");
    assert_eq!(artifact.source_type, "markdown");
    assert_eq!(artifact.source_location, "/docs/design.md");
    assert_eq!(artifact.content_type, "text/markdown");

    let row = k.artifacts.iter().find(|(r, _)| r.id == id_to_text(artifact.id)).map(|(r, _)| copy_artifact(r));
    let fetched = decode_found::<Artifact>(row, Resource::Artifact, artifact.id).unwrap();
    assert_eq!(fetched.id, artifact.id);
    assert_eq!(fetched.name, "design-doc");
    assert_eq!(fetched.version, "1.0.0");

    let stored = k.artifacts.iter().find(|(r, _)| r.id == id_to_text(artifact.id)).map(|(_, c)| c.clone());
    let content = found_or_not_found(stored, Resource::Artifact, artifact.id).unwrap();
    assert_eq!(content, Some(b"# Design Doc\nHello world".to_vec()));
}

#[test]
fn artifact_list_and_versioning() {
    let mut k = Tables::default();
    let mut ids = Vec::new();
    for (version, loc) in [("1.0.0", "/db/schema.sql"), ("2.0.0", "/db/schema_v2.sql"), ("3.0.0", "/db/schema_v3.sql")] {
        let (a, c) = Artifact::create(CreateArtifact {
            name: "schema".into(),
            version: version.into(),
            source_type: "sql".into(),
            source_location: loc.into(),
            content_type: "text/sql".into(),
            content: None,
        });
        ids.push(a.id);
        k.artifacts.push((a.to_row(), c));
    }
    let rows: Vec<ArtifactRow> = k.artifacts.iter().map(|(r, _)| copy_artifact(r)).collect();
    let all = decode_rows::<Artifact>(&rows).unwrap();
    assert_eq!(all.len(), 3);
    assert_eq!(all[0].id, ids[0]);
    assert_eq!(all[0].version, "1.0.0");
    assert_eq!(all[1].id, ids[1]);
    assert_eq!(all[1].version, "2.0.0");
    assert_eq!(all[2].id, ids[2]);
    assert_eq!(all[2].version, "3.0.0");
    let content = found_or_not_found(Some(k.artifacts[0].1.clone()), Resource::Artifact, ids[0]).unwrap();
    assert_eq!(content, None);
}

#[test]
fn get_nonexistent_channel_returns_not_found() {
    let k = Tables::default();
    let result = k.get_channel(new_id());
    assert!(result.is_err());
    assert_eq!(result.err().map(|e| e.status_code()), Some(404));
}

#[test]
fn migrate_is_idempotent() {
    // An in-memory stand-in for the database, which refuses to create a table twice.
    let mut recorded: Vec<i64> = Vec::new();
    let mut created: Vec<SchemaVersion> = Vec::new();
    let mut version_table = false;
    for _ in 0..2 {
        let mut m = Migrator::new();
        while !m.is_finished() {
            let answer = match m.step() {
                MigrationStep::CreateVersionTable => {
                    version_table = true;
                    0
                }
                MigrationStep::CountRecordedVersions => recorded.len() as i64,
                MigrationStep::CountChannelsTable => created.contains(&SchemaVersion::Initial) as i64,
                MigrationStep::CountContentColumn => created.contains(&SchemaVersion::ArtifactContent) as i64,
                MigrationStep::CountUsersTable => created.contains(&SchemaVersion::Users) as i64,
                MigrationStep::RecordVersion(v) => {
                    assert!(!recorded.contains(&v.number()));
                    recorded.push(v.number());
                    0
                }
                MigrationStep::CountVersion(v) => recorded.contains(&v.number()) as i64,
                MigrationStep::RunMigration(v) => {
                    assert!(!created.contains(&v));
                    created.push(v);
                    0
                }
                MigrationStep::Finished => 0,
            };
            m.advance(answer);
        }
    }
    assert!(version_table);
    assert_eq!(recorded, vec![1, 2, 3]);
    assert_eq!(created, vec![SchemaVersion::Initial, SchemaVersion::ArtifactContent, SchemaVersion::Users]);
}
