//! Passwordless authentication and session handling, written without I/O.
//!
//! Every operation is a small state machine: a step takes the current state
//! and the outcome of the last request, and answers with the next request
//! for the caller to perform, or with the final result. The two stores and
//! the mail transport stay on the caller's side.
//!
//! - [`challenge`]: issuing a login challenge and checking the answer.
//! - [`registration`]: registration codes and the creation of accounts.
//! - [`session`]: creating sessions and resolving session tokens.
//! - [`flow`]: states, steps, and the function that takes a step.
//! - [`effect`]: the requests to the caller and their outcomes.
//! - [`cookie`], [`mail`], [`key`], [`token`], [`ident`], [`error`]: the
//!   values that the operations are made of.
//! - [`store`], [`database`]: how the two stores behave, and what is proved
//!   of the operations when the stores behave so.

pub mod challenge;
pub mod cookie;
pub mod database;
pub mod effect;
pub mod error;
pub mod flow;
pub mod ident;
pub mod key;
pub mod mail;
pub mod registration;
pub mod session;
pub mod store;
pub mod token;
