pub mod random;

pub use random::Random;
