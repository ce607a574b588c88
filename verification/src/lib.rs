//! Static auditing of dependency supply chains: the effect data model, the
//! resolution of identifiers to canonical paths, and the audit chain that
//! carries policies from dependencies to their dependents.

pub mod text;
pub mod ident;
pub mod sink;
pub mod span;
pub mod effect;
pub mod util;
pub mod package;
pub mod graph;
pub mod policy;
pub mod audit_chain;
pub mod chain;
pub mod syntax;
pub mod hacky_resolver;
pub mod resolve;
pub mod scanner;
pub mod codec;
