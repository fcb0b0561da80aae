//! Particle-count readings: the record model, its text forms, and the rules
//! of the stores and the service that keep them.
//!
//! A reading counts the particles above four sizes. It is submitted as its
//! four counts (`model::NewParticleCount`) and stored with an identifier and
//! the time of storing (`model::ParticleCount`). The modules follow a
//! reading on its way:
//!
//! - `form` and `panel`: counts typed into a form, read as numbers, and
//!   what the messages of the form do to it;
//! - `wire`: counts submitted as a JSON object;
//! - `text_log`: stored readings as lines of delimited text;
//! - `relational`: stored readings as rows of a table;
//! - `service`: the decisions of the request handlers that list and insert.
//!
//! Under them lie `decimal` (numerals), `instant` (times), `identity`
//! (identifiers), `columns` (the names of the fields) and `text`.
//!
//! Every function here is verified against its contract, and none panics on
//! any input; reading the clock and drawing a random identifier fail only
//! where the system has neither to give. Files, sockets and the database
//! are left to the caller: the functions take what was read and hand back
//! what is to be written. The calendar, the random identifiers and the
//! splitting of delimited text and of JSON come from other crates. Each such
//! call stands in a function of its own marked `external_body`, whose doc
//! comment names the call and says what is taken on trust of it.

pub mod columns;
pub mod decimal;
pub mod form;
pub mod identity;
pub mod instant;
pub mod model;
pub mod panel;
pub mod relational;
pub mod service;
pub mod text;
pub mod text_log;
pub mod wire;
