//! Verified core of a graph-vector database: the query interpreter's lowering, the
//! compatibility query translation, storage metadata, schema migrations, access
//! tokens, runtime settings, diagnostics, the storage engine's step decisions, and the
//! command-line tool's choices.
use vstd::prelude::*;

pub mod clock;
pub mod text;
pub mod value;
pub mod json;
pub mod tools;
pub mod folds;
pub mod names;
pub mod compat;
pub mod hql;
pub mod lower;
pub mod runtime;
pub mod migration;
pub mod metadata;
pub mod auth;
pub mod schemas;
pub mod settings;
pub mod diagnostics;
pub mod gateway;
pub mod cli;
pub mod stress;
pub mod parser;
pub mod engine;
pub mod memory;
pub mod vector_ops;
pub mod studio;
pub mod maintenance;
pub mod execution;

verus! {
} // verus!
