//! Decision logic of a small notes service.
//!
//! The service answers six kinds of requests over one table of notes. This
//! library holds what it decides: which statement a request binds
//! ([`handler`], [`statement`]), which response the outcome of a statement
//! is turned into ([`handler`], [`response`]), which method and path lead
//! to which handler ([`routes`]), and how the database is readied at
//! startup ([`startup`]). Running the statements and speaking HTTP is left
//! to the program around it.
//!
//! [`table`] models the notes table for proofs, and [`laws`] states what
//! follows for whole requests.

pub mod clock;
pub mod config;
pub mod handler;
pub mod ident;
pub mod laws;
pub mod model;
pub mod response;
pub mod routes;
pub mod schema;
pub mod startup;
pub mod statement;
pub mod table;
pub mod text;
