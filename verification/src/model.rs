//! Resource references grouped by the service they belong to, the shape
//! the orchestrator hands around after extraction and matching.

use vstd::prelude::*;

use crate::matcher::{AlbumMeta, TrackMeta};
use crate::spotify::IdType;
use crate::tidal::TidalResource;
use crate::youtube::YoutubeResource;

verus! {

/// Resource references of one service, as extracted from a message or
/// produced by matching.
#[derive(Clone, Debug)]
pub enum ServiceResources {
    Tidal(Vec<TidalResource>),
    Spotify(Vec<IdType>),
    Youtube(Vec<YoutubeResource>),
}

/// A Tidal resource hydrated with the metadata the matcher consumes.
pub enum FullTidalResource {
    Track(TrackMeta),
    Album(AlbumMeta),
}

} // verus!
