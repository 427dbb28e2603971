use ecom_api::messaging::{message_error_text, validate_message, MessageError};

#[test]
fn messages_need_a_receiver_and_text() {
    assert_eq!(validate_message("b@x.com", "halo"), Ok(()));
    assert_eq!(validate_message("", "halo"), Err(MessageError::EmptyReceiverOrMessage));
    assert_eq!(validate_message("b@x.com", "   \n\t"), Err(MessageError::EmptyReceiverOrMessage));
    assert_eq!(validate_message("b@x.com", ""), Err(MessageError::EmptyReceiverOrMessage));
    assert_eq!(
        message_error_text(MessageError::EmptyReceiverOrMessage),
        "Receiver and message content cannot be empty"
    );
}
