//! The wire models of the gateway's public and upstream surfaces.
pub mod anthropic;
pub mod chat;
pub mod chat_laws;
pub mod chat_text;
pub mod chat_text_laws;
pub mod fields;
pub mod form_laws;
pub mod item_doc;
pub mod item_laws;
pub mod item_text;
pub mod message_laws;
pub mod message_text;
pub mod payload_laws;
pub mod payloads;
pub mod piece_laws;
pub mod read;
pub mod read_chat;
pub mod read_completion;
pub mod read_item_laws;
pub mod read_laws;
pub mod read_message_laws;
pub mod read_messages;
pub mod read_request;
pub mod read_request_laws;
pub mod reading;
pub mod request_doc;
pub mod request_laws;
pub mod request_round_trip;
pub mod request_text;
pub mod responses;
pub mod round_trip;
pub mod shorthand;
pub mod wire;
pub mod written;
