use imap_pool::send::sender_address;
use imap_pool::send::SendEmailRequest;

#[test]
fn sender_address_is_user_at_localhost() {
    assert_eq!(sender_address("alice"), "alice@localhost");
    assert_eq!(sender_address(""), "@localhost");
}

#[test]
fn send_request_carries_its_fields() {
    let req = SendEmailRequest {
        to: "bob@localhost".to_string(),
        subject: "test".to_string(),
        body: "This is a test".to_string(),
    };
    assert_eq!(req.to, "bob@localhost");
    assert_eq!(req.subject, "test");
    assert_eq!(req.body, "This is a test");
}
