pub mod responses;
pub mod anthropic;
pub mod chat;
