//! Strict decoding and validation of an encoded player state.
//!
//! A request carries a player state as base64 text over a JSON document.
//! The library decodes the text, binds the document to the declared schema
//! in a permissive or a strict mode, checks the value ranges that the schema
//! cannot express, and maps every outcome to a status code and a message.
//!
//! - `decoder`: base64 text to bytes.
//! - `json`: the model of a JSON document, and the parser behind it.
//! - `schema`: the declared player state.
//! - `binder`: from a document to a player state, in either mode.
//! - `validator`: the value ranges of a bound state.
//! - `response`: from an outcome to a status code and a message.
//! - `endpoints`: the permissive and the strict pipeline.
//! - `text`: decimal notation.

pub mod binder;
pub mod decoder;
pub mod endpoints;
pub mod json;
pub mod response;
pub mod schema;
pub mod text;
pub mod validator;
