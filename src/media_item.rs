use vstd::prelude::*;

verus! {

/// Payload of the item metadata endpoint: exactly one metadata record.
pub struct PlexMediaItem {
    pub metadata: [PlexMediaItemMetadata; 1],
}

/// Metadata of one media item.
pub struct PlexMediaItemMetadata {
    /// External identifiers of the item (`imdb://tt...`, `tmdb://...`);
    /// possibly none.
    pub guid: Vec<PlexMediaItemGuidItem>,
}

/// One external identifier of a media item.
pub struct PlexMediaItemGuidItem {
    pub id: String,
}

} // verus!
