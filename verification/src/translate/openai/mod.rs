pub mod chat;
pub mod provider;
