pub mod api;
pub mod test;

pub use api::API;
