pub mod chat;
pub mod fight;
