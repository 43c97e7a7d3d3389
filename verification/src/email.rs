//! What the core asks the email gateway to send.
//!
//! The gateway itself is an outside collaborator that performs the
//! network call; the core only decides recipient, subject and bodies.

use vstd::prelude::*;

use crate::domain::SubscriberEmail;

verus! {

/// One email, ready for the gateway: a validated recipient and the
/// three content fields the transport carries.
pub struct EmailInstruction {
    pub recipient: SubscriberEmail,
    pub subject: String,
    pub text_body: String,
    pub html_body: String,
}

} // verus!
