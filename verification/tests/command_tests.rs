use imap_pool::command::fetch_query;
use imap_pool::command::fetch_range;
use imap_pool::command::flag_list;
use imap_pool::command::store_query;
use imap_pool::command::uid_set;
use imap_pool::decimal::u32_to_dec;
use imap_pool::flag::Flag;
use imap_pool::session::clear_commands;
use imap_pool::session::fetch_commands;
use imap_pool::session::set_flags_commands;
use imap_pool::session::Command;
use imap_pool::session::CommandKind;
use imap_pool::session::SetFlagCommand;

#[test]
fn decimal_rendering_exact() {
    assert_eq!(u32_to_dec(0), "0");
    assert_eq!(u32_to_dec(7), "7");
    assert_eq!(u32_to_dec(10), "10");
    assert_eq!(u32_to_dec(42), "42");
    assert_eq!(u32_to_dec(305), "305");
    assert_eq!(u32_to_dec(u32::MAX), "4294967295");
}

#[test]
fn uid_set_exact() {
    assert_eq!(uid_set(&vec![]), "");
    assert_eq!(uid_set(&vec![42]), "42");
    assert_eq!(uid_set(&vec![1, 2, 3]), "1,2,3");
    assert_eq!(uid_set(&vec![10, 10]), "10,10");
}

#[test]
fn flag_list_exact() {
    assert_eq!(flag_list(&vec![]), "");
    assert_eq!(flag_list(&vec![Flag::Seen]), "\\Seen");
    assert_eq!(
        flag_list(&vec![Flag::Seen, Flag::Deleted, Flag::Custom("Urgent".to_string())]),
        "\\Seen \\Deleted Urgent"
    );
}

#[test]
fn store_query_replaces_not_adds() {
    // The chosen mutation semantics: the query replaces the whole flag set.
    assert_eq!(store_query(&vec![Flag::Seen]), "FLAGS (\\Seen)");
    assert_eq!(store_query(&vec![]), "FLAGS ()");
    assert_eq!(store_query(&vec![Flag::Seen, Flag::Draft]), "FLAGS (\\Seen \\Draft)");
}

#[test]
fn fetch_expressions_exact() {
    assert_eq!(fetch_range(), "1:*");
    assert_eq!(fetch_query(), "(RFC822 UID RFC822.SIZE RFC822.TEXT FLAGS)");
}

#[test]
fn fetch_commands_examine_then_fetch() {
    let v = fetch_commands("INBOX");
    assert_eq!(v.len(), 2);
    assert_eq!(v[0], Command::Examine { mailbox: "INBOX".to_string() });
    assert_eq!(
        v[1],
        Command::Fetch {
            range: "1:*".to_string(),
            query: "(RFC822 UID RFC822.SIZE RFC822.TEXT FLAGS)".to_string(),
        }
    );
    assert_eq!(v[0].kind(), CommandKind::Examine);
    assert_eq!(v[1].kind(), CommandKind::Fetch);
}

#[test]
fn set_flags_commands_select_then_store_by_uid() {
    let v = set_flags_commands("INBOX", &vec![42], &vec![Flag::Seen]);
    assert_eq!(v.len(), 2);
    assert_eq!(v[0], Command::Select { mailbox: "INBOX".to_string() });
    assert_eq!(
        v[1],
        Command::Store { uid_set: "42".to_string(), query: "FLAGS (\\Seen)".to_string() }
    );
}

#[test]
fn set_flags_empty_uids_is_noop() {
    let v = set_flags_commands("INBOX", &vec![], &vec![Flag::Seen]);
    assert!(v.is_empty());
}

#[test]
fn set_flag_command_renders_like_the_free_function() {
    let cmd = SetFlagCommand {
        folder: "Archive".to_string(),
        uids: vec![7, 9],
        flags: vec![Flag::Deleted],
    };
    let v = cmd.commands();
    assert_eq!(v.len(), 2);
    assert_eq!(v[0], Command::Select { mailbox: "Archive".to_string() });
    assert_eq!(
        v[1],
        Command::Store { uid_set: "7,9".to_string(), query: "FLAGS (\\Deleted)".to_string() }
    );
}

#[test]
fn clear_commands_examine_inbox_then_close() {
    let v = clear_commands();
    assert_eq!(v.len(), 2);
    assert_eq!(v[0], Command::Examine { mailbox: "INBOX".to_string() });
    assert_eq!(v[1], Command::Close);
}
