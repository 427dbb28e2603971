//! Chat messages between accounts.

use vstd::prelude::*;
use crate::text::{is_blank, trim};

verus! {

broadcast use vstd::string::group_string_axioms;

/// Why a message is refused.
#[derive(PartialEq, Eq, Structural, Clone, Copy, Debug)]
pub enum MessageError {
    EmptyReceiverOrMessage,
}

/// The text of a refused message.
pub fn message_error_text(e: MessageError) -> (m: String)
    ensures
        m@ == "Receiver and message content cannot be empty"@,
{
    String::from_str("Receiver and message content cannot be empty")
}

/// Checks a message before it is sent: the receiver must be named and the
/// text must not be blank.
pub fn validate_message(receiver_email: &str, message: &str) -> (r: Result<(), MessageError>)
    ensures
        r is Ok <==> (receiver_email@.len() > 0 && trim(message@).len() > 0),
        r is Err ==> r == Err::<(), MessageError>(MessageError::EmptyReceiverOrMessage),
{
    if receiver_email.unicode_len() == 0 || is_blank(message) {
        Err(MessageError::EmptyReceiverOrMessage)
    } else {
        Ok(())
    }
}

} // verus!
