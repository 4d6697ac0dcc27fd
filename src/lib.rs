pub mod permissions;
pub mod reminder;
pub mod service;
pub mod store;
