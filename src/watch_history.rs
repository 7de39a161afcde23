use vstd::prelude::*;

verus! {

/// One page of the server's viewing history, most recent view first.
///
/// `size` and `total_size` are advisory: paging never relies on them.
pub struct PlexWatchHistory {
    pub metadata: Vec<PlexWatchHistoryItem>,
    /// Number of items the server says this page holds.
    pub size: u32,
    /// Number of items the server says the whole history holds.
    pub total_size: u32,
}

/// One viewing event of the history.
#[derive(Debug, Clone, PartialEq, Eq)]
pub struct PlexWatchHistoryItem {
    /// Title of the media item.
    pub title: String,
    /// Stable identifier of the item; absent for some legacy entries.
    pub rating_key: Option<String>,
    /// Identifier of the library section the item belongs to.
    pub library_section_id: String,
    /// Day of the view as a `YYYY-MM-DD` string.
    pub viewed_at: String,
}

} // verus!
