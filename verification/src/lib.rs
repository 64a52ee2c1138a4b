//! Verified core of a Lua language analysis: the type model and its checks,
//! declarations and reference indexes, flow narrowing rules, and the
//! decisions behind hovers, completions and semantic tokens.
pub mod base;
pub mod assoc;
pub mod types;
pub mod signature;
pub mod decl;
pub mod reference;
pub mod infer;
pub mod diagnostics;
pub mod hover;
pub mod completion;
pub mod doc_tags;
pub mod resources;
pub mod meta;
pub mod type_check;
pub mod member;
pub mod config;
pub mod client;
pub mod semantic_tokens;
pub mod flow;
