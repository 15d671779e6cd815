//! Discover, select and fetch newer releases of a running program, and
//! replace its executable safely.
//!
//! The crate verifies the release-resolution pipeline (version-tag parsing
//! and comparison, release filtering, paginated fetching, selection of the
//! newest matching release) together with the bookkeeping of a streamed
//! download (progress accounting) and the crash-safe swap of the running
//! binary. Network and filesystem work is performed by the embedding
//! application through the small interfaces this crate defines.

pub mod download;
pub mod error;
pub mod github;
pub mod release;
pub mod replace;
pub mod version;
