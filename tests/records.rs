use buffmod::auth::session_entries;
use buffmod::db_api::{social_post_event, EventKind, SocialMediaPost, SocialMediaStatus};
use buffmod::storage::{database_relative_path, StorageError};

fn post(platform: &str, status: SocialMediaStatus) -> SocialMediaPost {
    SocialMediaPost {
        id: None,
        event_id: None,
        platform: platform.to_string(),
        content: "hello".to_string(),
        status,
    }
}

#[test]
fn event_kind_text_round_trips() {
    for k in [EventKind::Default, EventKind::SocialMedia, EventKind::Meeting] {
        assert_eq!(EventKind::from_sql_text(k.as_sql_text()), Some(k));
    }
    assert_eq!(EventKind::SocialMedia.as_sql_text(), "socialmedia");
    assert_eq!(EventKind::from_sql_text("Meeting"), None);
}

#[test]
fn post_status_text_round_trips() {
    for s in [SocialMediaStatus::Drafted, SocialMediaStatus::Scheduled, SocialMediaStatus::Posted] {
        assert_eq!(SocialMediaStatus::from_sql_text(s.as_sql_text()), Some(s));
    }
    assert_eq!(SocialMediaStatus::Posted.as_sql_text(), "posted");
    assert_eq!(SocialMediaStatus::from_sql_text(""), None);
}

#[test]
fn draft_post_has_no_event() {
    let p = post("x", SocialMediaStatus::Drafted);
    assert!(social_post_event(&p, "2025-01-01T10:00".to_string()).is_none());
}

#[test]
fn scheduled_post_gets_open_event() {
    let p = post("instagram::facebook", SocialMediaStatus::Scheduled);
    let e = social_post_event(&p, "2025-01-01T10:00".to_string()).unwrap();
    assert_eq!(e.kind, EventKind::SocialMedia);
    assert_eq!(e.title, "Social Media Post for (instagram, facebook)");
    assert_eq!(e.schedule_time, "2025-01-01T10:00");
    assert!(!e.completed);
    assert!(e.id.is_none() && e.end_time.is_none() && e.client_id.is_none());
}

#[test]
fn posted_post_gets_completed_event() {
    let p = post("a:::b", SocialMediaStatus::Posted);
    let e = social_post_event(&p, "t".to_string()).unwrap();
    assert_eq!(e.title, "Social Media Post for (a, :b)");
    assert!(e.completed);
}

#[test]
fn sign_in_report_holds_identity_only() {
    let entries = session_entries("u1");
    assert_eq!(entries.len(), 1);
    assert_eq!(entries[0].key, "user_id");
    assert_eq!(entries[0].value, "u1");
}

#[test]
fn store_path_is_per_identity() {
    assert_eq!(database_relative_path("u1"), Ok("buffmod/storage/u1.db".to_string()));
    assert_eq!(database_relative_path(""), Err(StorageError::InvalidDbPath));
}

#[test]
fn only_rejected_key_is_not_retryable() {
    assert!(!StorageError::KeyRejected.is_retryable());
    assert!(StorageError::OpenError.is_retryable());
    assert!(StorageError::DirectoryError.is_retryable());
}

#[test]
fn storage_errors_have_messages() {
    assert_eq!(
        StorageError::KeyRejected.message(),
        "The database rejected the key. Please sign in again."
    );
    assert_eq!(StorageError::InvalidDbPath.message(), "No database path can be formed for this user.");
}
