pub mod chat;
pub mod convert;
pub mod provider;
