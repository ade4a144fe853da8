//! The core of a catalog service for downloadable lots: a composer that
//! turns a sparse search request into a bounded, parameterized query plan,
//! and an assembler that builds the public view of one lot with whichever
//! sub-resources the caller asked for. Reading the store, authentication
//! and transport stay with the caller.
pub mod comments;
pub mod date;
pub mod deps;
pub mod error;
pub mod filter;
pub mod lot;
pub mod query;
pub mod size;
pub mod text;
pub mod votes;
