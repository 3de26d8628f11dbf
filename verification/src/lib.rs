//! A chat bot that settles fights between the members of a Discord channel.
//!
//! A member challenges another by mentioning them; the house champion wins
//! every fight it takes part in, chance settles the others, and the outcome is
//! announced in the channel with a finisher naming both fighters.
pub mod adapters_primary;
pub mod adapters_secondary;
pub mod config;
pub mod domain;
