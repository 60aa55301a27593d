//! The core of an authentication service: who may log in, which session
//! tokens are good, and how a second factor is asked for and answered.
//!
//! - `domain` holds the values that everything else speaks of (emails,
//!   passwords, login attempt identifiers, second-factor codes, users),
//!   the errors, and the three kinds of store with what each owes: the
//!   credential store, the revocation store and the challenge store.
//! - `services` holds the password hasher and the stores themselves: in
//!   memory, and over a cache or a database that is reached through a
//!   connection handed in from outside.
//! - `utils` holds the session token codec and the text helpers that it
//!   is written with.
//! - `routes` holds the protocol: signup, login, the answer to a
//!   challenge, logout, and the check of a token.
//! - `app_state` holds what the routes work on.
//!
//! Time never comes from a clock in here: every function that depends on
//! it takes the present instant, in seconds, as an argument.

pub mod app_state;
pub mod domain;
pub mod routes;
pub mod services;
pub mod utils;
