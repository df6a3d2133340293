use vstd::prelude::*;
use crate::api_structs::{Empty, Items, Image, ExternalUrls, SearchDataItem};
use crate::api_structs::artists::Artist;

verus! {

/// Search envelope for album queries: one paginated page of albums.
pub struct SearchData {
    pub albums: SearchDataItem<Album>,
}

impl SearchData {
    /// The defined empty search result for the album resource type.
    pub open spec fn is_empty_result(self) -> bool {
        self.albums.is_empty_page()
    }
}

impl Default for SearchData {
    fn default() -> (r: Self)
        ensures
            r.is_empty_result(),
    {
        Self { albums: SearchDataItem::default() }
    }
}

impl Default for SearchDataItem<Album> {
    fn default() -> (r: Self)
        ensures
            r.is_empty_page(),
    {
        Self {
            previous: None,
            offset: 0,
            total: 0,
            items: Vec::new(),
            next: None,
            href: String::new(),
            limit: 0,
        }
    }
}

/// Envelope for the saved-albums collection: a flat wrapper holding the
/// items and a total count.
pub struct Saved {
    pub total: u32,
    pub items: Vec<SavedAlbumsItem>,
}

impl Items<SavedAlbumsItem> for Saved {
    open spec fn items_spec(self) -> Seq<SavedAlbumsItem> {
        self.items@
    }

    fn items(self) -> (r: Vec<SavedAlbumsItem>)
        ensures
            r@ == self.items_spec(),
    {
        self.items
    }
}

impl Empty<Saved, SavedAlbumsItem> for Saved {
    fn empty() -> (r: Saved)
        ensures
            r.items_spec().len() == 0,
    {
        Saved { total: 0, items: Vec::new() }
    }
}

/// One record of the saved-albums collection.
pub struct SavedAlbumsItem {
    pub added_at: String,
    pub album: Album,
}

pub struct Album {
    pub album_type: String,
    pub artists: Vec<Artist>,
    pub external_urls: ExternalUrls,
    pub href: String,
    pub id: String,
    pub images: Vec<Image>,
    pub name: String,
    pub total_tracks: u32,
    pub tracks: Option<Tracks>,
    pub obj_type: String,
}

impl Album {
    /// Returns the album's track listing when both the track wrapper and
    /// its item list are present; `None` when either is absent.
    pub fn get_track_list(&self) -> (r: Option<&Vec<TracksItem>>)
        ensures
            match r {
                Some(v) => {
                    match self.tracks {
                        Some(t) => t.items is Some && v@ == t.items->0@,
                        None => false,
                    }
                },
                None => {
                    match self.tracks {
                        Some(t) => t.items is None,
                        None => true,
                    }
                },
            },
    {
        let tracks = match &self.tracks {
            Some(t) => t,
            None => return None,
        };

        let track_list = match &tracks.items {
            Some(tl) => tl,
            None => return None,
        };

        Some(track_list)
    }
}

/// Track wrapper inside an album record.
pub struct Tracks {
    pub items: Option<Vec<TracksItem>>,
    pub total: u32,
}

/// One track of an album's track listing.
pub struct TracksItem {
    pub name: String,
    pub duration_ms: u32,
    pub explicit: bool,
    pub external_urls: ExternalUrls,
    pub href: String,
    pub id: String,
    pub track_number: u32,
}

/// Normalizes the decoded saved-albums envelope loaded from the fixed
/// storage path; the file reading and decoding happen at the caller's edge.
pub fn get_saved(loaded: Option<Saved>) -> (r: Vec<SavedAlbumsItem>)
    ensures
        match loaded {
            Some(t) => r@ == t.items_spec(),
            None => r@.len() == 0,
        },
{
    get_saved_p(loaded)
}

/// Normalizes a decoded saved-albums envelope loaded from any path.
pub fn get_saved_p(loaded: Option<Saved>) -> (r: Vec<SavedAlbumsItem>)
    ensures
        match loaded {
            Some(t) => r@ == t.items_spec(),
            None => r@.len() == 0,
        },
{
    crate::api_structs::normalize_decoded::<Saved, SavedAlbumsItem>(loaded)
}

} // verus!
