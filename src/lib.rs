//! Search aggregation for scientific papers: query matching, merging of hits from several
//! sources, the local catalog, and the state machines of the interactive session.
pub mod text;
pub mod query;
pub mod number;
pub mod pattern;
pub mod identifier;
pub mod paper;
pub mod hits;
pub mod merge;
pub mod session;
pub mod fetch;
pub mod library;
pub mod remotes;
