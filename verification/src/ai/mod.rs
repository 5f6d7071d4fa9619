pub mod client;
pub mod layout;
