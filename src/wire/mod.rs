pub mod header;
pub mod message_kind;
pub mod session;
pub mod shell_messages;
pub mod signing;
pub mod wire_message;
