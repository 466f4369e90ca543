//! Account, activation, token and statistics rules of the YWT tutoring backend,
//! stated over an in-memory model of the credential store and proved with Verus.
//!
//! The store (`db`) holds the collections of the service as plain documents
//! (`model`). Every change to it is one `Write`; the store applies a write and
//! records it, so that a server can replay the recorded writes on its
//! database. The handlers (`api`) take the store, the acting identity and the
//! request, answer with a response or an `ApiError`, and are specified by what
//! they return and by the writes they apply. What holds across requests is
//! proved in `laws`.
//!
//! Six things are left to other crates and believed as their wrappers state
//! them: the syntax of email addresses (`utils`), the clock and the text form
//! of timestamps (`clock`), password hashes (`password`), the signature of
//! tokens (`jwt`), random characters (`api::register`) and base64
//! (`api::problem`).

pub mod api;
pub mod clock;
pub mod config;
pub mod db;
pub mod email;
pub mod error;
pub mod jwt;
pub mod laws;
pub mod model;
pub mod password;
pub mod seqs;
pub mod startup;
pub mod tags;
pub mod text;
pub mod utils;
