pub mod dto;
pub mod fight;
