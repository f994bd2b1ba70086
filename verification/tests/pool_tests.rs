use imap_pool::config::ConnectionConfig;
use imap_pool::config::Config;
use imap_pool::config::Credentials;
use imap_pool::pool::AcquireOutcome;
use imap_pool::pool::Error;
use imap_pool::pool::Manager;
use imap_pool::pool::Pool;
use imap_pool::pool::PooledSession;
use imap_pool::session::CommandKind;
use imap_pool::session::CommandOutcome;
use imap_pool::session::ImapError;
use imap_pool::session::SelectState;
use imap_pool::session::SessionWrapper;

fn checkout(pool: &mut Pool) -> PooledSession {
    match pool.acquire() {
        AcquireOutcome::Reused(s) => s,
        AcquireOutcome::NeedsCreate => pool.install(SessionWrapper::new()),
        AcquireOutcome::Exhausted => panic!("pool exhausted"),
    }
}

#[test]
fn sessions_are_created_lazily_on_demand() {
    let mut pool = Pool::new(2);
    assert_eq!(pool.idle_count(), 0);
    assert_eq!(pool.in_use(), 0);
    match pool.acquire() {
        AcquireOutcome::NeedsCreate => {}
        _ => panic!("an empty pool under capacity must ask for a fresh session"),
    }
    let h = pool.install(SessionWrapper::new());
    assert_eq!(pool.in_use(), 1);
    assert_eq!(h.session.select_state(), SelectState::Unselected);
}

#[test]
fn at_most_capacity_sessions_in_use() {
    let mut pool = Pool::new(2);
    let _a = checkout(&mut pool);
    let _b = checkout(&mut pool);
    assert_eq!(pool.in_use(), 2);
    match pool.acquire() {
        AcquireOutcome::Exhausted => {}
        _ => panic!("a full pool must report exhaustion, not lend a third session"),
    }
    assert_eq!(pool.in_use(), 2);
}

#[test]
fn recycle_then_reuse_returns_the_same_session_unselected() {
    let mut pool = Pool::new(1);
    let mut h = checkout(&mut pool);
    let id = h.id;
    // The caller used the session, then the clear sequence completed.
    h.session.apply(CommandKind::Select, CommandOutcome::Completed);
    h.session.apply(CommandKind::Examine, CommandOutcome::Completed);
    h.session.apply(CommandKind::Close, CommandOutcome::Completed);
    assert!(pool.release(h, true).is_ok());
    assert_eq!(pool.idle_count(), 1);
    match pool.acquire() {
        AcquireOutcome::Reused(s) => {
            assert_eq!(s.id, id);
            assert_eq!(s.session.select_state(), SelectState::Unselected);
        }
        _ => panic!("the recycled session must be reused"),
    }
}

#[test]
fn failed_recycle_discards_and_replaces_on_demand() {
    let mut pool = Pool::new(1);
    let mut h = checkout(&mut pool);
    let discarded_id = h.id;
    // The clear sequence was lost to a transport failure: the session closed.
    h.session.apply(CommandKind::Examine, CommandOutcome::Lost);
    assert_eq!(pool.release(h, false), Err(ImapError::Recycle));
    // Accounting reflects the removal; nothing is idle.
    assert_eq!(pool.in_use(), 0);
    assert_eq!(pool.idle_count(), 0);
    // The next acquisition creates a replacement instead of reusing it.
    match pool.acquire() {
        AcquireOutcome::NeedsCreate => {}
        _ => panic!("a discarded session must not be handed out again"),
    }
    let replacement = pool.install(SessionWrapper::new());
    assert_ne!(replacement.id, discarded_id);
}

#[test]
fn rejected_clear_discards_despite_unselected_model() {
    let mut pool = Pool::new(1);
    let mut h = checkout(&mut pool);
    let discarded_id = h.id;
    // The clear sequence's examine was rejected by the server: the model
    // recovers to the unselected state, but clear() itself failed, so the
    // session must be discarded — the server's real state cannot be trusted.
    h.session.apply(CommandKind::Examine, CommandOutcome::Rejected);
    assert_eq!(h.session.select_state(), SelectState::Unselected);
    assert_eq!(pool.release(h, false), Err(ImapError::Recycle));
    assert_eq!(pool.in_use(), 0);
    assert_eq!(pool.idle_count(), 0);
    match pool.acquire() {
        AcquireOutcome::NeedsCreate => {}
        _ => panic!("a session whose clear failed must not be handed out again"),
    }
    let replacement = pool.install(SessionWrapper::new());
    assert_ne!(replacement.id, discarded_id);
}

#[test]
fn still_selected_session_is_not_reused() {
    let mut pool = Pool::new(1);
    let mut h = checkout(&mut pool);
    // The clear commands reported completion, yet a residual selection
    // remains: the session still may not rejoin the idle set.
    h.session.apply(CommandKind::Select, CommandOutcome::Completed);
    assert_eq!(pool.release(h, true), Err(ImapError::Recycle));
    assert_eq!(pool.idle_count(), 0);
}

#[test]
fn manager_keeps_the_connection_config() {
    let config = Config {
        server_url: "mail.example.org".to_string(),
        server_port: 993,
        user: "user".to_string(),
        password: "pw".to_string(),
        port: 8080,
    };
    let cc = config.connection_config();
    assert_eq!(cc.domain, "mail.example.org");
    assert_eq!(cc.port, 993);
    assert!(!cc.accept_invalid_certs);
    let manager = Manager::new(cc);
    assert_eq!(manager.config().credentials.user, "user");
    assert_eq!(manager.config().domain, "mail.example.org");
}

#[test]
fn recycle_check_accepts_only_a_completed_clear_left_unselected() {
    let manager = Manager::new(ConnectionConfig {
        credentials: Credentials { user: "u".to_string(), password: "p".to_string() },
        domain: "localhost".to_string(),
        port: 3993,
        accept_invalid_certs: true,
    });
    let clean = SessionWrapper::new();
    assert!(manager.recycle_check(&clean, true).is_ok());
    // A failed clear discards the session even when the model is unselected.
    assert_eq!(
        manager.recycle_check(&clean, false),
        Err(Error::ClientError(ImapError::Recycle))
    );
    let mut dirty = SessionWrapper::new();
    dirty.apply(CommandKind::Select, CommandOutcome::Completed);
    assert_eq!(
        manager.recycle_check(&dirty, true),
        Err(Error::ClientError(ImapError::Recycle))
    );
    let mut closed = SessionWrapper::new();
    closed.apply(CommandKind::Fetch, CommandOutcome::Lost);
    assert!(manager.recycle_check(&closed, true).is_err());
}
