use imap_pool::flag::Flag;
use imap_pool::message::decode_records;
use imap_pool::message::parse_flags;
use imap_pool::message::RawRecord;

fn record(uid: u32, body: &[u8], flags: &[&str]) -> RawRecord {
    RawRecord {
        body: body.to_vec(),
        uid,
        size: body.len() as u32,
        flags: flags.iter().map(|t| t.to_string()).collect(),
    }
}

#[test]
fn empty_mailbox_decodes_to_empty_result() {
    let out = decode_records(&vec![]);
    assert!(out.is_empty());
}

#[test]
fn decode_keeps_server_sequence_order() {
    // Server sequence order 1, 2, 3 — uids deliberately out of order.
    let records = vec![
        record(30, b"third uploaded", &[]),
        record(10, b"first uploaded", &[]),
        record(20, b"second uploaded", &[]),
    ];
    let out = decode_records(&records);
    let uids: Vec<u32> = out.iter().map(|m| m.uid).collect();
    assert_eq!(uids, vec![30, 10, 20]);
    assert_eq!(out[0].body, "third uploaded");
    assert_eq!(out[1].body, "first uploaded");
    assert_eq!(out[2].body, "second uploaded");
}

#[test]
fn invalid_utf8_body_is_skipped_not_fatal() {
    let records = vec![
        record(1, b"fine", &[]),
        record(2, &[0xff, 0xfe, 0x41], &[]),
        record(3, b"also fine", &[]),
    ];
    let out = decode_records(&records);
    assert_eq!(out.len(), 2);
    assert_eq!(out[0].uid, 1);
    assert_eq!(out[1].uid, 3);
}

#[test]
fn body_is_decoded_not_copied() {
    // A multi-byte encoding: the decoded text has fewer chars than bytes.
    let records = vec![record(5, "caf\u{e9} r\u{e9}sum\u{e9}".as_bytes(), &[])];
    let out = decode_records(&records);
    assert_eq!(out.len(), 1);
    assert_eq!(out[0].body, "café résumé");
    assert_eq!(out[0].size, 14);
    assert_eq!(out[0].body.chars().count(), 11);
}

#[test]
fn decode_parses_flag_tokens() {
    let records = vec![record(42, b"hello", &["\\Seen", "NotJunk"])];
    let out = decode_records(&records);
    assert_eq!(out[0].flags, vec![Flag::Seen, Flag::Custom("NotJunk".to_string())]);
}

#[test]
fn parse_flags_in_order() {
    let tokens = vec!["\\Deleted".to_string(), "\\Recent".to_string(), "x".to_string()];
    assert_eq!(
        parse_flags(&tokens),
        vec![Flag::Deleted, Flag::Recent, Flag::Custom("x".to_string())]
    );
}
