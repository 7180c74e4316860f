//! A verified core for a catalog-page scraping pipeline: deterministic
//! cache-path derivation, locator validation, micro-format property
//! extraction, screenshot-URL normalization, and the cache-first fetch
//! policy, with network and markup parsing delegated to outside crates
//! behind narrow trusted wrappers.

pub mod api;
pub mod download;
pub mod error;
pub mod extract;
pub mod net;
pub mod numtext;
pub mod page;
pub mod props;
pub mod urls;
