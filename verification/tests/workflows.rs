use klondike::error::{found_or_not_found, Error, Resource};
use klondike::codec::PostRow;
use klondike::feed::{feed_entries, read_thread, text_is_after, unread_posts, FeedSubscription, FeedSubscriptionRow};
use klondike::ids::{id_to_text, new_id};
use klondike::issues::StatusChange;
use klondike::migrate::{MigrationStep, Migrator, SchemaVersion};
use klondike::codec::StoredRecord;
use klondike::records::{Channel, ChannelSubscription, CreateIssue, Issue, Post, UpdateIssueStatus};
use klondike::status::IssueStatus;
use klondike::store::{content_status, decode_found, require_user};
use klondike::time::Timestamp;

fn at(secs: i64) -> Timestamp {
    Timestamp::from_parts(secs, 0).unwrap()
}

fn post(thread_id: u128, secs: i64, content: &str) -> Post {
    Post { id: new_id(), thread_id, author: "bob".into(), content: content.into(), created_at: at(secs) }
}

#[test]
fn status_change_goes_from_the_status_read() {
    let issue = Issue::create(CreateIssue { title: "Fix bug".into(), description: "d".into(), assignee: None });
    let change = StatusChange::request(&issue, UpdateIssueStatus { status: IssueStatus::InProgress, note: Some("Starting work".into()) });
    assert_eq!(change.issue_id, issue.id);
    assert_eq!(change.from, IssueStatus::Backlog);
    assert_eq!(change.to, IssueStatus::InProgress);
    let row = change.update_row();
    assert_eq!(row.issue_id, id_to_text(issue.id));
    assert_eq!(row.from_status, "backlog");
    assert_eq!(row.to_status, "in_progress");
    assert_eq!(row.updated_at, change.at.to_text());
    let event = change.clone().settle(1).unwrap();
    assert_eq!(event.issue_id, issue.id);
    assert_eq!(event.from_status, IssueStatus::Backlog);
    assert_eq!(event.to_status, IssueStatus::InProgress);
    assert_eq!(event.note, Some("Starting work".into()));
    assert_eq!(event.timestamp, change.at);
    assert_ne!(event.id, issue.id);
}

#[test]
fn status_change_that_changed_no_row_is_not_found() {
    let issue = Issue::create(CreateIssue { title: "t".into(), description: "d".into(), assignee: None });
    let change = StatusChange::request(&issue, UpdateIssueStatus { status: IssueStatus::Done, note: None });
    assert_eq!(change.settle(0).err(), Some(Error::NotFound { resource: Resource::Issue, id: issue.id }));
}

#[test]
fn chained_status_changes_record_the_history() {
    let mut issue = Issue::create(CreateIssue { title: "Fix bug".into(), description: "d".into(), assignee: Some("alice".into()) });
    let mut events = Vec::new();
    for (to, note) in [(IssueStatus::InProgress, "Starting work"), (IssueStatus::Done, "Fixed in commit abc123")] {
        let change = StatusChange::request(&issue, UpdateIssueStatus { status: to, note: Some(note.into()) });
        let at = change.at;
        events.push(change.settle(1).unwrap());
        issue.status = to;
        issue.updated_at = at;
    }
    assert_eq!(events.len(), 2);
    assert_eq!((events[0].from_status, events[0].to_status), (IssueStatus::Backlog, IssueStatus::InProgress));
    assert_eq!((events[1].from_status, events[1].to_status), (IssueStatus::InProgress, IssueStatus::Done));
    assert_eq!(events[1].note, Some("Fixed in commit abc123".into()));
}

fn rows(posts: &[Post]) -> Vec<PostRow> {
    posts.iter().map(|p| p.to_row()).collect()
}

fn contents(rows: &[PostRow]) -> Vec<String> {
    rows.iter().map(|r| r.content.clone()).collect()
}

#[test]
fn unread_posts_are_those_after_the_cursor() {
    let th = new_id();
    let posts = vec![post(th, 10, "a"), post(th, 20, "b"), post(th, 20, "c"), post(th, 30, "d")];
    assert_eq!(unread_posts(rows(&posts), &None).len(), 4);
    let after = unread_posts(rows(&posts), &Some(at(20).to_text()));
    assert_eq!(contents(&after), vec!["d"]);
    let after = unread_posts(rows(&posts), &Some(at(15).to_text()));
    assert_eq!(contents(&after), vec!["b", "c", "d"]);
}

#[test]
fn texts_compare_by_code_point() {
    assert!(text_is_after("b", "a"));
    assert!(text_is_after("ab", "a"));
    assert!(!text_is_after("a", "ab"));
    assert!(!text_is_after("a", "a"));
    assert!(text_is_after("2015-05-15T00:00:00.5+00:00", "2015-05-15T00:00:00+00:00"));
    assert!(!text_is_after("", ""));
}

#[test]
fn reading_a_thread_moves_the_marker_and_a_second_read_is_empty() {
    let th = new_id();
    let ch = new_id();
    let sub = FeedSubscription { thread_id: th, channel_id: ch, last_read_post_id: None };
    let posts = vec![post(th, 10, "First"), post(th, 20, "Second")];
    let read = read_thread(rows(&posts), &None);
    assert_eq!(read.new_marker, Some(id_to_text(posts[1].id)));
    let entries = feed_entries(&sub, &read.unread).unwrap();
    assert_eq!(entries.len(), 2);
    assert_eq!(entries[0].post.content, "First");
    assert_eq!(entries[1].channel_id, ch);
    assert_eq!(entries[1].thread_id, th);
    let cursor = Some(posts[1].created_at.to_text());
    let again = read_thread(rows(&posts), &cursor);
    assert_eq!(again.unread.len(), 0);
    assert_eq!(again.new_marker, None);
    let mut more = posts.clone();
    more.push(post(th, 25, "Third"));
    let next = read_thread(rows(&more), &cursor);
    assert_eq!(contents(&next.unread), vec!["Third"]);
}

#[test]
fn a_malformed_unread_row_fails_the_feed_with_the_parser_message() {
    let th = new_id();
    let sub = FeedSubscription { thread_id: th, channel_id: new_id(), last_read_post_id: None };
    let mut bad = rows(&[post(th, 10, "x")]);
    bad[0].id = "nope".into();
    assert_eq!(
        feed_entries(&sub, &bad).err(),
        Some(Error::Storage(uuid::Uuid::parse_str("nope").unwrap_err().to_string()))
    );
    // a marker whose stored instant is no date-time still orders by its text
    let all = read_thread(rows(&[post(th, 10, "x")]), &Some("garbage".into()));
    assert_eq!(all.unread.len(), 0);
    let all = read_thread(rows(&[post(th, 10, "x")]), &Some("0".into()));
    assert_eq!(all.unread.len(), 1);
}

#[test]
fn feed_subscription_rows() {
    let th = new_id();
    let ch = new_id();
    let s = FeedSubscription::from_row(FeedSubscriptionRow {
        thread_id: id_to_text(th),
        channel_id: id_to_text(ch),
        last_read_post_id: Some("p".into()),
    })
    .unwrap();
    assert_eq!((s.thread_id, s.channel_id, s.last_read_post_id), (th, ch, Some("p".to_string())));
    let bad = FeedSubscription::from_row(FeedSubscriptionRow { thread_id: id_to_text(th), channel_id: "?".into(), last_read_post_id: None });
    assert_eq!(bad.err(), Some(Error::Storage(uuid::Uuid::parse_str("?").unwrap_err().to_string())));
}

/// A database as the migrator sees it, answering its statements.
#[derive(Clone, Debug, PartialEq)]
struct FakeSchema {
    version_table: bool,
    recorded: Vec<i64>,
    channels: bool,
    content: bool,
    users: bool,
    ran: Vec<SchemaVersion>,
}

impl FakeSchema {
    fn answer(&mut self, step: MigrationStep) -> i64 {
        match step {
            MigrationStep::CreateVersionTable => {
                self.version_table = true;
                0
            }
            MigrationStep::CountRecordedVersions => self.recorded.len() as i64,
            MigrationStep::CountChannelsTable => self.channels as i64,
            MigrationStep::CountContentColumn => self.content as i64,
            MigrationStep::CountUsersTable => self.users as i64,
            MigrationStep::RecordVersion(v) => {
                assert!(!self.recorded.contains(&v.number()), "version recorded twice");
                self.recorded.push(v.number());
                0
            }
            MigrationStep::CountVersion(v) => self.recorded.contains(&v.number()) as i64,
            MigrationStep::RunMigration(v) => {
                match v {
                    SchemaVersion::Initial => {
                        assert!(!self.channels, "initial schema created twice");
                        self.channels = true
                    }
                    SchemaVersion::ArtifactContent => {
                        assert!(!self.content, "content column added twice");
                        self.content = true
                    }
                    SchemaVersion::Users => {
                        assert!(!self.users, "users table created twice");
                        self.users = true
                    }
                }
                self.ran.push(v);
                0
            }
            MigrationStep::Finished => 0,
        }
    }

    fn migrate(&mut self) {
        let mut m = Migrator::new();
        let mut steps = 0;
        while !m.is_finished() {
            let a = self.answer(m.step());
            m.advance(a);
            steps += 1;
            assert!(steps <= 17);
        }
        assert_eq!(m.step(), MigrationStep::Finished);
    }
}

fn empty_schema() -> FakeSchema {
    FakeSchema { version_table: false, recorded: vec![], channels: false, content: false, users: false, ran: vec![] }
}

#[test]
fn migrating_an_empty_database_runs_each_migration_once() {
    let mut db = empty_schema();
    db.migrate();
    assert_eq!(db.ran, vec![SchemaVersion::Initial, SchemaVersion::ArtifactContent, SchemaVersion::Users]);
    assert_eq!(db.recorded, vec![1, 2, 3]);
    let once = db.clone();
    db.migrate();
    assert_eq!(db, once);
}

#[test]
fn migrating_a_database_from_before_version_tracking() {
    let mut db = FakeSchema { channels: true, content: true, ..empty_schema() };
    db.migrate();
    assert_eq!(db.ran, vec![SchemaVersion::Users]);
    let mut recorded = db.recorded.clone();
    recorded.sort();
    assert_eq!(recorded, vec![1, 2, 3]);
    let mut old = FakeSchema { channels: true, content: true, users: true, ..empty_schema() };
    old.migrate();
    assert!(old.ran.is_empty());
}

#[test]
fn migrating_a_partly_tracked_database_applies_the_rest() {
    let mut db = FakeSchema { version_table: true, recorded: vec![1], channels: true, ..empty_schema() };
    db.migrate();
    assert_eq!(db.ran, vec![SchemaVersion::ArtifactContent, SchemaVersion::Users]);
}

#[test]
fn storage_decisions() {
    let u = new_id();
    assert_eq!(require_user(u, 0), Err(Error::NotFound { resource: Resource::User, id: u }));
    assert_eq!(require_user(u, 1), Ok(()));
    let id = new_id();
    let missing = decode_found::<Channel>(None, Resource::Channel, id);
    assert_eq!(missing.err(), Some(Error::NotFound { resource: Resource::Channel, id }));
    let sub = ChannelSubscription::begin(u, id);
    let found = decode_found::<ChannelSubscription>(Some(sub.to_row()), Resource::Channel, id).unwrap();
    assert_eq!((found.user_id, found.channel_id, found.subscribed_at), (u, id, sub.subscribed_at));
    assert_eq!(content_status(&Some(b"Hello".to_vec())), 200);
    assert_eq!(content_status(&None), 204);
    assert_eq!(found_or_not_found(Some(None::<Vec<u8>>), Resource::Artifact, id), Ok(None));
    assert_eq!(
        found_or_not_found::<Option<Vec<u8>>>(None, Resource::Artifact, id).err().map(|e| e.status_code()),
        Some(404)
    );
}
