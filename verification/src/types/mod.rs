pub mod shared;
pub mod messages;
pub mod errors;
