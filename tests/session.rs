use buffmod::monitor::{monitor_delay, SESSION_EXPIRY_BUFFER};
use buffmod::secret::SecretKey;
use buffmod::session::{SessionError, SessionSnapshot, SharedSessionState};

fn key(byte: u8) -> SecretKey {
    SecretKey::from_bytes(vec![byte; 32])
}

#[test]
fn starts_locked_at_generation_zero() {
    let s: SharedSessionState<&str> = SharedSessionState::new();
    assert!(s.is_locked());
    assert_eq!(s.generation(), 0);
    assert!(s.key().is_none());
    assert_eq!(
        s.snapshot(),
        SessionSnapshot { unlocked: false, generation: 0, deadline: None }
    );
}

#[test]
fn unlock_then_lock_leaves_no_key() {
    let mut s = SharedSessionState::new();
    let out = s.unlock(key(7), "store-a", 1000);
    assert_eq!(out.generation, 1);
    assert!(out.superseded.is_none());
    assert_eq!(s.key().unwrap().as_bytes(), &[7u8; 32][..]);
    let closed = s.lock().unwrap();
    assert!(s.is_locked());
    assert!(s.key().is_none());
    assert_eq!(closed.handle, "store-a");
    assert_eq!(closed.generation, 1);
    assert!(closed.key.is_zeroed());
    assert_eq!(closed.key.len(), 32);
    assert_eq!(s.generation(), 1);
}

#[test]
fn lock_when_locked_does_nothing() {
    let mut s: SharedSessionState<u32> = SharedSessionState::new();
    assert!(s.lock().is_none());
    assert!(s.is_locked());
    assert_eq!(s.generation(), 0);
}

#[test]
fn second_unlock_supersedes_first() {
    let mut s = SharedSessionState::new();
    s.unlock(key(1), "alice.db", 100);
    let out = s.unlock(key(2), "bob.db", 200);
    assert_eq!(out.generation, 2);
    let old = out.superseded.unwrap();
    assert_eq!(old.handle, "alice.db");
    assert_eq!(old.generation, 1);
    assert!(old.key.is_zeroed());
    assert_eq!(s.with_store(|h| h.to_string()), Ok("bob.db".to_string()));
    assert_eq!(s.key().unwrap().as_bytes(), &[2u8; 32][..]);
    assert_eq!(
        s.snapshot(),
        SessionSnapshot { unlocked: true, generation: 2, deadline: Some(200) }
    );
}

#[test]
fn with_store_fails_when_locked() {
    let s: SharedSessionState<u32> = SharedSessionState::new();
    assert_eq!(s.with_store(|h| *h + 1), Err(SessionError::SessionLocked));
}

#[test]
fn monitor_with_past_deadline_fires_at_once_and_locks() {
    let now: i64 = 1_700_000_000;
    let mut s = SharedSessionState::new();
    let g = s.unlock(key(3), 9u8, now - 1).generation;
    assert_eq!(monitor_delay(now - 1, now), 0);
    let closed = s.expire(g).unwrap();
    assert_eq!(closed.handle, 9u8);
    assert!(closed.key.is_zeroed());
    assert!(s.is_locked());
}

#[test]
fn stale_monitor_does_not_lock_new_session() {
    let mut s = SharedSessionState::new();
    let g = s.unlock(key(4), "first", 500).generation;
    let g2 = s.unlock(key(5), "second", 900).generation;
    assert_eq!(g2, g + 1);
    assert!(s.expire(g).is_none());
    assert!(!s.is_locked());
    assert_eq!(s.with_store(|h| h.to_string()), Ok("second".to_string()));
    assert!(s.expire(g2).is_some());
    assert!(s.is_locked());
}

#[test]
fn monitor_after_lock_is_inert() {
    let mut s = SharedSessionState::new();
    let g = s.unlock(key(6), 1u16, 500).generation;
    s.lock();
    assert!(s.expire(g).is_none());
    assert!(s.is_locked());
    assert_eq!(s.generation(), g);
}

#[test]
fn monitor_delay_subtracts_buffer() {
    assert_eq!(SESSION_EXPIRY_BUFFER, 10);
    assert_eq!(monitor_delay(1000, 900), 90);
    assert_eq!(monitor_delay(1000, 990), 0);
    assert_eq!(monitor_delay(1000, 989), 1);
    assert_eq!(monitor_delay(i64::MAX, i64::MIN), u64::MAX - 10);
    assert_eq!(monitor_delay(i64::MIN, i64::MAX), 0);
}

#[test]
fn wipe_zeroes_key() {
    let mut k = key(0xAB);
    assert!(!k.is_zeroed());
    k.wipe();
    assert!(k.is_zeroed());
    assert_eq!(k.len(), 32);
}

#[test]
fn session_error_has_message() {
    assert_eq!(
        SessionError::SessionLocked.message(),
        "The database is locked. Please sign in first."
    );
}
