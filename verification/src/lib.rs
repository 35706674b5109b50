//! Cross-catalog resource resolution for streaming-music links.
//!
//! The crate recognizes track and album links of several streaming catalogs
//! in free-form message text, resolves shortened links hop by hop, walks a
//! catalog's paged album listings, and matches a resource of one catalog
//! against candidates of another using barcodes, ISRCs, durations and
//! normalized titles.

pub mod auth;
pub mod db;
pub mod matcher;
pub mod model;
pub mod normalize;
pub mod paginate;
pub mod shortlink;
pub mod spotify;
pub mod text;
pub mod tidal;
pub mod youtube;
