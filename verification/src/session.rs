//! The session wrapper: a state machine over the mailbox-selection mode of
//! one authenticated session, the command sequences of its operations, and
//! the error taxonomy its callers see.
//!
//! The asynchronous protocol exchange happens outside: the caller issues each
//! planned command against the real connection and feeds the observed outcome
//! back through [`SessionWrapper::apply`].

use vstd::prelude::*;

verus! {

use vstd::string::StringExecFns;
use crate::command::spec_uid_set;
use crate::command::spec_store_query;
use crate::command::uid_set;
use crate::command::store_query;
use crate::command::fetch_range;
use crate::command::fetch_query;
use crate::flag::Flag;

/// The mailbox-selection mode of one session. At most one mailbox context is
/// active on a session at any time; a closed session cannot be reused.
#[derive(Debug, Clone, Copy, PartialEq, Eq, Structural)]
pub enum SelectState {
    Unselected,
    SelectedReadOnly,
    SelectedReadWrite,
    Closed,
}

/// What kind of protocol command completed, for its effect on the selection
/// state.
#[derive(Debug, Clone, Copy, PartialEq, Eq, Structural)]
pub enum CommandKind {
    Examine,
    Select,
    Close,
    Logout,
    Fetch,
    Store,
}

/// How one protocol command ended: completed; rejected by the server as a
/// well-formed protocol failure; or lost to a transport failure.
#[derive(Debug, Clone, Copy, PartialEq, Eq, Structural)]
pub enum CommandOutcome {
    Completed,
    Rejected,
    Lost,
}

/// The error taxonomy callers see. Transport failures are fatal for the
/// session; protocol failures are recoverable; authentication failures end a
/// session-creation attempt; a recycle failure stays inside the pool.
#[derive(Debug, Clone, Copy, PartialEq, Eq, Structural)]
pub enum ImapError {
    Transport,
    Authentication,
    Protocol,
    Recycle,
}

/// The selection state after one command ends in one outcome: a transport
/// loss closes the session from any state; a protocol rejection leaves it
/// usable, back in the unselected state; a completed command enters the mode
/// it asked for.
pub open spec fn spec_step(s: SelectState, k: CommandKind, o: CommandOutcome) -> SelectState {
    match o {
        CommandOutcome::Lost => SelectState::Closed,
        CommandOutcome::Rejected => SelectState::Unselected,
        CommandOutcome::Completed => match k {
            CommandKind::Examine => SelectState::SelectedReadOnly,
            CommandKind::Select => SelectState::SelectedReadWrite,
            CommandKind::Close => SelectState::Unselected,
            CommandKind::Logout => SelectState::Closed,
            CommandKind::Fetch => s,
            CommandKind::Store => s,
        },
    }
}

/// Owns the selection state of one authenticated session.
#[derive(Debug)]
pub struct SessionWrapper {
    state: SelectState,
}

impl View for SessionWrapper {
    type V = SelectState;

    closed spec fn view(&self) -> SelectState {
        self.state
    }
}

impl SessionWrapper {
    /// A freshly authenticated session starts unselected.
    pub fn new() -> (s: Self)
        ensures
            s@ == SelectState::Unselected,
    {
        SessionWrapper { state: SelectState::Unselected }
    }

    /// The current selection state.
    pub fn select_state(&self) -> (s: SelectState)
        ensures
            s == self@,
    {
        self.state
    }

    /// Records the outcome of one issued command. A closed session must not
    /// be driven further: it is discarded by the pool.
    pub fn apply(&mut self, k: CommandKind, o: CommandOutcome)
        requires
            old(self)@ != SelectState::Closed,
        ensures
            final(self)@ == spec_step(old(self)@, k, o),
    {
        self.state = match o {
            CommandOutcome::Lost => SelectState::Closed,
            CommandOutcome::Rejected => SelectState::Unselected,
            CommandOutcome::Completed => match k {
                CommandKind::Examine => SelectState::SelectedReadOnly,
                CommandKind::Select => SelectState::SelectedReadWrite,
                CommandKind::Close => SelectState::Unselected,
                CommandKind::Logout => SelectState::Closed,
                CommandKind::Fetch => self.state,
                CommandKind::Store => self.state,
            },
        };
    }

    /// Records that an in-flight operation was abandoned by its caller. The
    /// session's protocol state can no longer be trusted, so it is treated
    /// like a transport failure and must be discarded, never recycled.
    pub fn cancel(&mut self)
        ensures
            final(self)@ == SelectState::Closed,
    {
        self.state = SelectState::Closed;
    }
}

/// One protocol command, with its rendered arguments.
#[derive(Debug, PartialEq, Eq)]
pub enum Command {
    Examine { mailbox: String },
    Select { mailbox: String },
    Close,
    Logout,
    Fetch { range: String, query: String },
    Store { uid_set: String, query: String },
}

/// Mathematical model of a command.
pub enum CommandModel {
    Examine { mailbox: Seq<char> },
    Select { mailbox: Seq<char> },
    Close,
    Logout,
    Fetch { range: Seq<char>, query: Seq<char> },
    Store { uid_set: Seq<char>, query: Seq<char> },
}

impl View for Command {
    type V = CommandModel;

    open spec fn view(&self) -> CommandModel {
        match self {
            Command::Examine { mailbox } => CommandModel::Examine { mailbox: mailbox@ },
            Command::Select { mailbox } => CommandModel::Select { mailbox: mailbox@ },
            Command::Close => CommandModel::Close,
            Command::Logout => CommandModel::Logout,
            Command::Fetch { range, query } => CommandModel::Fetch {
                range: range@,
                query: query@,
            },
            Command::Store { uid_set, query } => CommandModel::Store {
                uid_set: uid_set@,
                query: query@,
            },
        }
    }
}

impl Command {
    /// The kind of this command, for its effect on the selection state.
    pub fn kind(&self) -> (k: CommandKind)
        ensures
            k == spec_kind(self@),
    {
        match self {
            Command::Examine { .. } => CommandKind::Examine,
            Command::Select { .. } => CommandKind::Select,
            Command::Close => CommandKind::Close,
            Command::Logout => CommandKind::Logout,
            Command::Fetch { .. } => CommandKind::Fetch,
            Command::Store { .. } => CommandKind::Store,
        }
    }
}

/// The kind of a command.
pub open spec fn spec_kind(c: CommandModel) -> CommandKind {
    match c {
        CommandModel::Examine { .. } => CommandKind::Examine,
        CommandModel::Select { .. } => CommandKind::Select,
        CommandModel::Close => CommandKind::Close,
        CommandModel::Logout => CommandKind::Logout,
        CommandModel::Fetch { .. } => CommandKind::Fetch,
        CommandModel::Store { .. } => CommandKind::Store,
    }
}

/// The command sequence of a fetch: enter the mailbox read-only, then request
/// body text, uid, size and flags of the full message range.
pub fn fetch_commands(mailbox: &str) -> (v: Vec<Command>)
    ensures
        v@.len() == 2,
        v@[0]@ == (CommandModel::Examine { mailbox: mailbox@ }),
        v@[1]@ == (CommandModel::Fetch {
            range: "1:*"@,
            query: "(RFC822 UID RFC822.SIZE RFC822.TEXT FLAGS)"@,
        }),
{
    let mut v: Vec<Command> = Vec::new();
    v.push(Command::Examine { mailbox: String::from_str(mailbox) });
    v.push(
        Command::Fetch {
            range: String::from_str(fetch_range()),
            query: String::from_str(fetch_query()),
        },
    );
    v
}

/// The command sequence of a flag mutation: enter the mailbox read-write,
/// then store — addressed by unique id, never by transient sequence number —
/// the query that replaces each addressed message's flag set. An empty uid
/// set is a no-op that still succeeds, so it issues nothing.
pub fn set_flags_commands(mailbox: &str, uids: &Vec<u32>, flags: &Vec<Flag>) -> (v: Vec<Command>)
    ensures
        uids@.len() == 0 ==> v@.len() == 0,
        uids@.len() > 0 ==> v@.len() == 2,
        uids@.len() > 0 ==> v@[0]@ == (CommandModel::Select { mailbox: mailbox@ }),
        uids@.len() > 0 ==> v@[1]@ == (CommandModel::Store {
            uid_set: spec_uid_set(uids@),
            query: spec_store_query(flags.deep_view()),
        }),
{
    let mut v: Vec<Command> = Vec::new();
    if uids.len() == 0 {
        return v;
    }
    v.push(Command::Select { mailbox: String::from_str(mailbox) });
    v.push(Command::Store { uid_set: uid_set(uids), query: store_query(flags) });
    v
}

/// One flag-mutation request: the mailbox, the addressed uids, and the
/// flags that replace each addressed message's flag set.
#[derive(Debug)]
pub struct SetFlagCommand {
    pub folder: String,
    pub uids: Vec<u32>,
    pub flags: Vec<Flag>,
}

impl SetFlagCommand {
    /// The command sequence carrying out this request.
    pub fn commands(&self) -> (v: Vec<Command>)
        ensures
            self.uids@.len() == 0 ==> v@.len() == 0,
            self.uids@.len() > 0 ==> v@.len() == 2,
            self.uids@.len() > 0 ==> v@[0]@ == (CommandModel::Select { mailbox: self.folder@ }),
            self.uids@.len() > 0 ==> v@[1]@ == (CommandModel::Store {
                uid_set: spec_uid_set(self.uids@),
                query: spec_store_query(self.flags.deep_view()),
            }),
    {
        set_flags_commands(self.folder.as_str(), &self.uids, &self.flags)
    }
}

/// The command sequence that normalizes a session between checkouts: enter
/// the inbox read-only, then close it — which, per the protocol's close
/// semantics, also expunges messages marked deleted.
pub fn clear_commands() -> (v: Vec<Command>)
    ensures
        v@.len() == 2,
        v@[0]@ == (CommandModel::Examine { mailbox: "INBOX"@ }),
        v@[1]@ == CommandModel::Close,
{
    let mut v: Vec<Command> = Vec::new();
    v.push(Command::Examine { mailbox: String::from_str("INBOX") });
    v.push(Command::Close);
    v
}

/// The error a single command outcome surfaces to the caller, if any.
pub fn outcome_error(o: CommandOutcome) -> (r: Option<ImapError>)
    ensures
        o == CommandOutcome::Completed ==> r is None,
        o == CommandOutcome::Rejected ==> r == Some(ImapError::Protocol),
        o == CommandOutcome::Lost ==> r == Some(ImapError::Transport),
{
    match o {
        CommandOutcome::Completed => None,
        CommandOutcome::Rejected => Some(ImapError::Protocol),
        CommandOutcome::Lost => Some(ImapError::Transport),
    }
}

/// Whether a session in the given state may issue a command of the given
/// kind: fetching needs a mailbox selection, a store needs a read-write
/// selection, closing needs something selected, and a closed session may
/// issue nothing at all.
pub open spec fn spec_may_issue(s: SelectState, k: CommandKind) -> bool {
    match k {
        CommandKind::Examine => s != SelectState::Closed,
        CommandKind::Select => s != SelectState::Closed,
        CommandKind::Logout => s != SelectState::Closed,
        CommandKind::Close => s == SelectState::SelectedReadOnly || s
            == SelectState::SelectedReadWrite,
        CommandKind::Fetch => s == SelectState::SelectedReadOnly || s
            == SelectState::SelectedReadWrite,
        CommandKind::Store => s == SelectState::SelectedReadWrite,
    }
}

/// Whether a session in the given state may issue the given command kind.
pub fn may_issue(s: SelectState, k: CommandKind) -> (r: bool)
    ensures
        r == spec_may_issue(s, k),
{
    match k {
        CommandKind::Examine => s != SelectState::Closed,
        CommandKind::Select => s != SelectState::Closed,
        CommandKind::Logout => s != SelectState::Closed,
        CommandKind::Close => s == SelectState::SelectedReadOnly || s
            == SelectState::SelectedReadWrite,
        CommandKind::Fetch => s == SelectState::SelectedReadOnly || s
            == SelectState::SelectedReadWrite,
        CommandKind::Store => s == SelectState::SelectedReadWrite,
    }
}

/// Law: the fetch sequence is issuable in order from any non-closed state —
/// the examine is permitted at once, and its completion puts the session in
/// a state that permits the fetch itself.
pub proof fn lemma_fetch_sequence_well_formed(s: SelectState)
    requires
        s != SelectState::Closed,
    ensures
        spec_may_issue(s, CommandKind::Examine),
        spec_may_issue(
            spec_step(s, CommandKind::Examine, CommandOutcome::Completed),
            CommandKind::Fetch,
        ),
{
}

/// Law: the flag-mutation sequence is issuable in order from any non-closed
/// state — the select is permitted at once, and only its completion, which
/// enters the read-write mode, permits the store.
pub proof fn lemma_set_flags_sequence_well_formed(s: SelectState)
    requires
        s != SelectState::Closed,
    ensures
        spec_may_issue(s, CommandKind::Select),
        spec_may_issue(
            spec_step(s, CommandKind::Select, CommandOutcome::Completed),
            CommandKind::Store,
        ),
{
}

/// Law: the clear sequence is issuable in order from any non-closed state —
/// the examine is permitted at once, and its completion permits the close.
pub proof fn lemma_clear_sequence_well_formed(s: SelectState)
    requires
        s != SelectState::Closed,
    ensures
        spec_may_issue(s, CommandKind::Examine),
        spec_may_issue(
            spec_step(s, CommandKind::Examine, CommandOutcome::Completed),
            CommandKind::Close,
        ),
{
}

/// How a session-creation attempt ended: the transport opened and the login
/// was accepted; the transport opened but the login was rejected (the
/// half-open connection must be closed before this is reported); or the
/// secure transport could not be established at all.
#[derive(Debug, Clone, Copy, PartialEq, Eq, Structural)]
pub enum ConnectOutcome {
    Authenticated,
    LoginRejected,
    TransportFailed,
}

/// Turns the outcome of a session-creation attempt into the session or the
/// error the pool must see: a fresh session starts unselected, and login
/// failure is distinguishable from transport failure, so that each can get
/// its own retry policy.
pub fn connect_result(o: ConnectOutcome) -> (r: Result<SessionWrapper, ImapError>)
    ensures
        o == ConnectOutcome::Authenticated ==> (r matches Ok(s) && s@ == SelectState::Unselected),
        o == ConnectOutcome::LoginRejected ==> r == Err::<SessionWrapper, ImapError>(
            ImapError::Authentication,
        ),
        o == ConnectOutcome::TransportFailed ==> r == Err::<SessionWrapper, ImapError>(
            ImapError::Transport,
        ),
{
    match o {
        ConnectOutcome::Authenticated => Ok(SessionWrapper::new()),
        ConnectOutcome::LoginRejected => Err(ImapError::Authentication),
        ConnectOutcome::TransportFailed => Err(ImapError::Transport),
    }
}

/// Law: a completed clear sequence — examine then close — leaves any
/// non-closed session in the unselected state, with no residual mailbox
/// selection.
pub proof fn lemma_clear_normalizes(s: SelectState)
    requires
        s != SelectState::Closed,
    ensures
        spec_step(
            spec_step(s, CommandKind::Examine, CommandOutcome::Completed),
            CommandKind::Close,
            CommandOutcome::Completed,
        ) == SelectState::Unselected,
{
}

/// Law: a transport loss closes the session whatever was in flight, and a
/// protocol rejection always leaves it usable, back in the unselected state.
pub proof fn lemma_failure_semantics(s: SelectState, k: CommandKind)
    ensures
        spec_step(s, k, CommandOutcome::Lost) == SelectState::Closed,
        spec_step(s, k, CommandOutcome::Rejected) == SelectState::Unselected,
{
}

} // verus!
