//! The execution engine of smart functions: scripted programs stored on a
//! ledger under content-derived addresses, run on a request and giving a
//! response, with their storage writes committed or dropped as one.
//!
//! The script engine itself stays outside: it is handed to the pipeline as
//! three functions, one that parses a module, one that evaluates its top
//! level and one that calls its handler, and the pipeline is proved for
//! whatever they report.

pub mod address;
pub mod bytes;
pub mod context;
pub mod continuation;
pub mod deploy;
pub mod engine;
pub mod error;
pub mod headers;
pub mod kv;
pub mod laws;
pub mod ledger;
pub mod message;
pub mod operation;
pub mod receipt;
pub mod run;
pub mod script;
