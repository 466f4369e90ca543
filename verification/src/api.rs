//! The request handlers, one module per route scope.

pub mod login;
pub mod modify;
pub mod problem;
pub mod profile;
pub mod register;
pub mod send_email;
pub mod stats;
pub mod users;
pub mod verify_email;
