use klondike::codec::{decode_post_row, decode_rows, ChannelRow, IssueEventRow, IssueRow, PostRow, StoredRecord};
use klondike::error::{Error, Resource};
use klondike::ids::{id_from_text, id_to_text, new_id};
use klondike::records::{
    Artifact, Channel, CreateArtifact, CreateChannel, CreateIssue, CreatePost, CreateThread, Issue,
    IssueEvent, Post, Thread, User,
};
use klondike::status::IssueStatus;
use klondike::time::Timestamp;

fn at(secs: i64, nanos: u32) -> Timestamp {
    Timestamp::from_parts(secs, nanos).unwrap()
}

#[test]
fn uuid_text_is_hyphenated_lower_case() {
    let text = id_to_text(0xa1a2a3a4b1b2c1c2d1d2d3d4d5d6d7d8);
    assert_eq!(text, "a1a2a3a4-b1b2-c1c2-d1d2-d3d4d5d6d7d8");
    assert_eq!(id_from_text(&text), Ok(0xa1a2a3a4b1b2c1c2d1d2d3d4d5d6d7d8));
}

#[test]
fn uuid_text_reads_other_forms_and_rejects_garbage() {
    assert_eq!(id_from_text("A1A2A3A4B1B2C1C2D1D2D3D4D5D6D7D8"), Ok(0xa1a2a3a4b1b2c1c2d1d2d3d4d5d6d7d8));
    assert_eq!(id_from_text("not-a-uuid"), Err(uuid::Uuid::parse_str("not-a-uuid").unwrap_err().to_string()));
    assert!(id_from_text("").is_err());
}

#[test]
fn new_ids_are_random_version_four() {
    let a = new_id();
    let b = new_id();
    assert_ne!(a, b);
    assert_eq!((a >> 76) & 0xf, 4);
    assert_eq!((a >> 62) & 0x3, 2);
}

#[test]
fn timestamps_write_rfc3339_and_read_back() {
    let t = at(1431648000, 0);
    assert_eq!(t.to_text(), "2015-05-15T00:00:00+00:00");
    let u = at(1431648000, 123_000_000);
    assert_eq!(u.to_text(), "2015-05-15T00:00:00.123+00:00");
    assert_eq!(Timestamp::from_text(&u.to_text()), Ok(u));
    assert_eq!(Timestamp::from_text("2015-05-15T02:00:00+02:00"), Ok(t));
    assert_eq!(
        Timestamp::from_text("yesterday"),
        Err("yesterday".parse::<chrono::DateTime<chrono::Utc>>().unwrap_err().to_string())
    );
}

#[test]
fn timestamps_outside_the_calendar_do_not_exist() {
    assert!(Timestamp::from_parts(0, 2_000_000_000).is_none());
    assert!(Timestamp::from_parts(i64::MAX, 0).is_none());
    assert!(at(10, 5).is_after(&at(10, 4)));
    assert!(!at(10, 4).is_after(&at(10, 4)));
    assert!(at(11, 0).is_after(&at(10, 999_999_999)));
}

#[test]
fn now_is_after_the_epoch() {
    let t = Timestamp::now();
    assert!(t.secs() > 1_600_000_000);
    assert!(t.nanos() < 1_000_000_000);
}

#[test]
fn status_texts() {
    let all = [IssueStatus::Backlog, IssueStatus::InProgress, IssueStatus::Done, IssueStatus::Blocked];
    let texts = ["backlog", "in_progress", "done", "blocked"];
    for (s, t) in all.iter().zip(texts.iter()) {
        assert_eq!(s.as_str(), *t);
        assert_eq!(s.to_text(), *t);
        assert_eq!(IssueStatus::parse(t), Ok(*s));
    }
    assert_eq!(
        IssueStatus::parse("archived"),
        Err(Error::InvalidInput("unknown issue status: archived".to_string()))
    );
    assert!(IssueStatus::parse("Done").is_err());
}

#[test]
fn error_status_codes() {
    assert_eq!(Error::not_found(Resource::Channel, 7).status_code(), 404);
    assert_eq!(Error::InvalidInput("x".to_string()).status_code(), 400);
    assert_eq!(Error::Storage("x".to_string()).status_code(), 500);
    assert_eq!(Resource::Artifact.name(), "artifact");
}

#[test]
fn channel_row_round_trip() {
    let c = Channel::create(CreateChannel { name: "general".into(), description: "General discussion".into() });
    assert_eq!(c.name, "general");
    assert_eq!(c.description, "General discussion");
    let row = c.to_row();
    assert_eq!(row.id, id_to_text(c.id));
    assert_eq!(row.created_at, c.created_at.to_text());
    let back = Channel::from_row(&row).unwrap();
    assert_eq!(back.id, c.id);
    assert_eq!(back.name, c.name);
    assert_eq!(back.description, c.description);
    assert_eq!(back.created_at, c.created_at);
}

#[test]
fn malformed_columns_name_the_column() {
    let good = Channel::create(CreateChannel { name: "n".into(), description: "d".into() }).to_row();
    let bad_id = ChannelRow { id: "42".into(), ..good };
    assert_eq!(
        Channel::from_row(&bad_id).err(),
        Some(Error::Storage(format!("error occurred while decoding: {}", uuid::Uuid::parse_str("42").unwrap_err())))
    );
    let good = Channel::create(CreateChannel { name: "n".into(), description: "d".into() }).to_row();
    let bad_time = ChannelRow { created_at: "later".into(), ..good };
    assert_eq!(
        Channel::from_row(&bad_time).err(),
        Some(Error::Storage(format!(
            "error occurred while decoding: {}",
            "later".parse::<chrono::DateTime<chrono::Utc>>().unwrap_err()
        )))
    );
}

#[test]
fn thread_and_post_rows_round_trip() {
    let ch = new_id();
    let t = Thread::create(ch, CreateThread { title: "RFC: new API".into(), author: "alice".into() });
    assert_eq!(t.channel_id, ch);
    let back = Thread::from_row(&t.to_row()).unwrap();
    assert_eq!((back.id, back.channel_id, back.title.as_str(), back.author.as_str()), (t.id, ch, "RFC: new API", "alice"));
    let p = Post::create(t.id, CreatePost { author: "bob".into(), content: "First post".into() });
    let back = Post::from_row(&p.to_row()).unwrap();
    assert_eq!((back.id, back.thread_id, back.content.as_str()), (p.id, t.id, "First post"));
    assert_eq!(back.created_at, p.created_at);
}

#[test]
fn new_issue_is_in_backlog() {
    let i = Issue::create(CreateIssue {
        title: "Fix bug".into(),
        description: "Something is broken".into(),
        assignee: Some("alice".into()),
    });
    assert_eq!(i.status, IssueStatus::Backlog);
    assert_eq!(i.assignee, Some("alice".into()));
    assert_eq!(i.created_at, i.updated_at);
    let row = i.to_row();
    assert_eq!(row.status, "backlog");
    let back = Issue::from_row(&row).unwrap();
    assert_eq!(back.status, IssueStatus::Backlog);
    assert_eq!(back.assignee, Some("alice".into()));
}

#[test]
fn issue_row_with_unknown_status_fails() {
    let mut row: IssueRow = Issue::create(CreateIssue { title: "t".into(), description: "d".into(), assignee: None }).to_row();
    row.status = "wontfix".into();
    assert_eq!(
        Issue::from_row(&row).err(),
        Some(Error::InvalidInput("unknown issue status: wontfix".to_string()))
    );
}

#[test]
fn artifact_keeps_content_beside_it() {
    let (a, content) = Artifact::create(CreateArtifact {
        name: "design-doc".into(),
        version: "1.0.0".into(),
        source_type: "markdown".into(),
        source_location: "/docs/design.md".into(),
        content_type: "text/markdown".into(),
        content: Some(b"# Design Doc\nHello world".to_vec()),
    });
    assert_eq!(content, Some(b"# Design Doc\nHello world".to_vec()));
    assert_eq!(a.version, "1.0.0");
    let back = Artifact::from_row(&a.to_row()).unwrap();
    assert_eq!(back.source_location, "/docs/design.md");
    assert_eq!(back.content_type, "text/markdown");
}

#[test]
fn user_row_round_trip() {
    let u = User::register();
    let back = User::from_row(&u.to_row()).unwrap();
    assert_eq!(back.id, u.id);
    assert_eq!(back.created_at, u.created_at);
}

#[test]
fn row_lists_keep_order_and_stop_at_first_bad_row() {
    let th = new_id();
    let posts: Vec<Post> = ["First post", "Second post", "Third post"]
        .iter()
        .map(|c| Post::create(th, CreatePost { author: "bob".into(), content: c.to_string() }))
        .collect();
    let rows: Vec<PostRow> = posts.iter().map(|p| p.to_row()).collect();
    let back = decode_rows::<Post>(&rows).unwrap();
    assert_eq!(back.len(), 3);
    for (a, b) in back.iter().zip(posts.iter()) {
        assert_eq!(a.id, b.id);
        assert_eq!(a.content, b.content);
    }
    let mut rows: Vec<PostRow> = posts.iter().map(|p| p.to_row()).collect();
    rows[1].thread_id = "x".into();
    rows[2].id = "y".into();
    assert_eq!(
        decode_rows::<Post>(&rows).err(),
        Some(Error::Storage(format!("error occurred while decoding: {}", uuid::Uuid::parse_str("x").unwrap_err())))
    );
    let empty: Vec<PostRow> = Vec::new();
    assert_eq!(decode_rows::<Post>(&empty).unwrap().len(), 0);
}

#[test]
fn sub_second_precision_survives_storage() {
    for nanos in [1_000_000, 1_000, 1, 999_999_999] {
        let t = at(1_700_000_000, nanos);
        assert_eq!(Timestamp::from_text(&t.to_text()), Ok(t));
    }
    assert_eq!(at(1_700_000_000, 1_000).to_text(), "2023-11-14T22:13:20.000001+00:00");
}

#[test]
fn rows_read_outside_listings_carry_the_parser_message_alone() {
    let th = new_id();
    let mut row = Post::create(th, CreatePost { author: "a".into(), content: "c".into() }).to_row();
    row.created_at = "soon".into();
    let text = "soon".parse::<chrono::DateTime<chrono::Utc>>().unwrap_err().to_string();
    assert_eq!(decode_post_row(&row, false).err(), Some(Error::Storage(text.clone())));
    assert_eq!(decode_post_row(&row, true).err(), Some(Error::Storage(format!("error occurred while decoding: {}", text))));
    let ev = IssueEventRow {
        id: "bad".into(),
        issue_id: id_to_text(new_id()),
        from_status: "backlog".into(),
        to_status: "done".into(),
        note: None,
        timestamp: Timestamp::now().to_text(),
    };
    assert_eq!(IssueEvent::from_row(&ev).err(), Some(Error::Storage(uuid::Uuid::parse_str("bad").unwrap_err().to_string())));
}
