use imap_pool::session::connect_result;
use imap_pool::session::may_issue;
use imap_pool::session::outcome_error;
use imap_pool::session::CommandKind;
use imap_pool::session::CommandOutcome;
use imap_pool::session::ConnectOutcome;
use imap_pool::session::ImapError;
use imap_pool::session::SelectState;
use imap_pool::session::SessionWrapper;

#[test]
fn new_session_is_unselected() {
    let s = SessionWrapper::new();
    assert_eq!(s.select_state(), SelectState::Unselected);
}

#[test]
fn examine_enters_read_only_and_select_enters_read_write() {
    let mut s = SessionWrapper::new();
    s.apply(CommandKind::Examine, CommandOutcome::Completed);
    assert_eq!(s.select_state(), SelectState::SelectedReadOnly);
    s.apply(CommandKind::Select, CommandOutcome::Completed);
    assert_eq!(s.select_state(), SelectState::SelectedReadWrite);
}

#[test]
fn fetch_and_store_keep_the_selection() {
    let mut s = SessionWrapper::new();
    s.apply(CommandKind::Examine, CommandOutcome::Completed);
    s.apply(CommandKind::Fetch, CommandOutcome::Completed);
    assert_eq!(s.select_state(), SelectState::SelectedReadOnly);
    s.apply(CommandKind::Select, CommandOutcome::Completed);
    s.apply(CommandKind::Store, CommandOutcome::Completed);
    assert_eq!(s.select_state(), SelectState::SelectedReadWrite);
}

#[test]
fn clear_sequence_returns_to_unselected() {
    let mut s = SessionWrapper::new();
    s.apply(CommandKind::Select, CommandOutcome::Completed);
    s.apply(CommandKind::Examine, CommandOutcome::Completed);
    s.apply(CommandKind::Close, CommandOutcome::Completed);
    assert_eq!(s.select_state(), SelectState::Unselected);
}

#[test]
fn protocol_rejection_is_recoverable_to_unselected() {
    let mut s = SessionWrapper::new();
    s.apply(CommandKind::Select, CommandOutcome::Completed);
    s.apply(CommandKind::Examine, CommandOutcome::Rejected);
    assert_eq!(s.select_state(), SelectState::Unselected);
}

#[test]
fn transport_loss_closes_from_any_state() {
    let mut s = SessionWrapper::new();
    s.apply(CommandKind::Examine, CommandOutcome::Completed);
    s.apply(CommandKind::Fetch, CommandOutcome::Lost);
    assert_eq!(s.select_state(), SelectState::Closed);
}

#[test]
fn logout_closes() {
    let mut s = SessionWrapper::new();
    s.apply(CommandKind::Logout, CommandOutcome::Completed);
    assert_eq!(s.select_state(), SelectState::Closed);
}

#[test]
fn cancellation_closes_the_session() {
    let mut s = SessionWrapper::new();
    s.apply(CommandKind::Examine, CommandOutcome::Completed);
    s.cancel();
    assert_eq!(s.select_state(), SelectState::Closed);
}

#[test]
fn command_permissions_follow_the_selection_mode() {
    // Nothing may be issued on a closed session.
    for k in [
        CommandKind::Examine,
        CommandKind::Select,
        CommandKind::Close,
        CommandKind::Logout,
        CommandKind::Fetch,
        CommandKind::Store,
    ] {
        assert!(!may_issue(SelectState::Closed, k));
    }
    // Fetching needs a selection; a store needs the read-write mode.
    assert!(!may_issue(SelectState::Unselected, CommandKind::Fetch));
    assert!(may_issue(SelectState::SelectedReadOnly, CommandKind::Fetch));
    assert!(may_issue(SelectState::SelectedReadWrite, CommandKind::Fetch));
    assert!(!may_issue(SelectState::SelectedReadOnly, CommandKind::Store));
    assert!(may_issue(SelectState::SelectedReadWrite, CommandKind::Store));
    // Closing needs something selected.
    assert!(!may_issue(SelectState::Unselected, CommandKind::Close));
    assert!(may_issue(SelectState::SelectedReadOnly, CommandKind::Close));
}

#[test]
fn outcome_errors_by_kind() {
    assert_eq!(outcome_error(CommandOutcome::Completed), None);
    assert_eq!(outcome_error(CommandOutcome::Rejected), Some(ImapError::Protocol));
    assert_eq!(outcome_error(CommandOutcome::Lost), Some(ImapError::Transport));
}

#[test]
fn connect_outcomes_are_distinguishable() {
    match connect_result(ConnectOutcome::Authenticated) {
        Ok(s) => assert_eq!(s.select_state(), SelectState::Unselected),
        Err(_) => panic!("authenticated connect must yield a session"),
    }
    assert_eq!(
        connect_result(ConnectOutcome::LoginRejected).unwrap_err(),
        ImapError::Authentication
    );
    assert_eq!(
        connect_result(ConnectOutcome::TransportFailed).unwrap_err(),
        ImapError::Transport
    );
}
