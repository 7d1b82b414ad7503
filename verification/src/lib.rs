//! The configuration of a reverse proxy, as its settings editor sees it: the
//! schema of the stored document and the engine that resolves a document, in
//! which every setting is optional, into the effective configuration.
//!
//! - [`models`] holds the schema: the raw document, the effective
//!   configuration and the proxy rules, each with its view.
//! - [`resolve`] holds the defaults of the two build profiles, the
//!   constraints on the settings, and the resolution itself.
//! - [`edit`] holds the edits of one setting at a time.
//! - [`editor`] holds the two operations of the settings editor, as decisions
//!   on what the caller found in storage.
//! - [`address`], [`number`] and [`text`] read the texts that the settings
//!   are written in: IP literals, decimal numbers, names.
//!
//! Every operation is a function of its arguments alone. Nothing is kept
//! between calls, and nothing is read or written: storage is the caller's.

pub mod address;
pub mod edit;
pub mod editor;
pub mod models;
pub mod number;
pub mod profile;
pub mod resolve;
pub mod text;
