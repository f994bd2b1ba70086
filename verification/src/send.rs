//! Values of the outbound-mail path. Sending itself is a stateless,
//! connection-per-call transport owned by the calling layer; only the data
//! it carries and the address rendering live here.

use vstd::prelude::*;

verus! {

use vstd::string::StringExecFns;

/// One outbound message: recipient, subject, and plain-text body.
#[derive(Debug, Clone)]
pub struct SendEmailRequest {
    pub to: String,
    pub body: String,
    pub subject: String,
}

/// Mathematical model of an outbound message.
pub struct SendEmailRequestModel {
    pub to: Seq<char>,
    pub body: Seq<char>,
    pub subject: Seq<char>,
}

impl View for SendEmailRequest {
    type V = SendEmailRequestModel;

    open spec fn view(&self) -> SendEmailRequestModel {
        SendEmailRequestModel { to: self.to@, body: self.body@, subject: self.subject@ }
    }
}

/// The local sender address of an account: its user name at the local host.
pub fn sender_address(user: &str) -> (r: String)
    ensures
        r@ == user@ + "@localhost"@,
{
    let mut s = String::from_str(user);
    s.append("@localhost");
    s
}

} // verus!
