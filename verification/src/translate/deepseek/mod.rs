pub mod anthropic;
pub mod chat;
pub mod provider;
