pub mod messages;
