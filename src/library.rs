use vstd::prelude::*;

verus! {

/// Location of a library section on the server.
#[derive(Debug, Clone, Copy, PartialEq, Eq)]
pub struct PlexLibrarySectionDirectoryLocation {
    pub id: u32,
}

/// One library section (Movies, TV Shows, ...).
pub struct PlexLibrarySectionsDirectory {
    /// Title of the section.
    pub title: String,
    /// The section's location; the history is filtered by its id.
    pub location: [PlexLibrarySectionDirectoryLocation; 1],
}

/// Payload of the library sections endpoint.
pub struct PlexLibrarySection {
    /// Every section known to the server.
    pub directory: Vec<PlexLibrarySectionsDirectory>,
}

} // verus!
