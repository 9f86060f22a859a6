//! Mirror resolution engine: rewrites artifact identifiers (container image
//! references, release-archive URLs) against an ordered rule document and
//! plans the external steps that fetch the artifact through the mirror.

pub mod config;
pub mod docker;
pub mod error;
pub mod github;
pub mod pattern;
pub mod registry;
pub mod strutil;
