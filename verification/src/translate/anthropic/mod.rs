pub mod anthropic;
pub mod provider;
