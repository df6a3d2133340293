use vstd::prelude::*;
use crate::api_structs::{Empty, Items, Image, ExternalUrls, Owner, SearchDataItem};

verus! {

/// Search envelope for playlist queries: one paginated page of playlists.
pub struct SearchData {
    pub playlists: SearchDataItem<Playlist>,
}

impl SearchData {
    /// The defined empty search result for the playlist resource type.
    pub open spec fn is_empty_result(self) -> bool {
        self.playlists.is_empty_page()
    }
}

impl Default for SearchData {
    fn default() -> (r: Self)
        ensures
            r.is_empty_result(),
    {
        Self { playlists: SearchDataItem::default() }
    }
}

impl Default for SearchDataItem<Playlist> {
    fn default() -> (r: Self)
        ensures
            r.is_empty_page(),
    {
        Self {
            href: String::new(),
            next: None,
            limit: 0,
            offset: 0,
            previous: None,
            items: Vec::new(),
            total: 0,
        }
    }
}

/// Envelope for the followed-playlists collection: a flat wrapper holding
/// the items and a total count.
pub struct Followed {
    pub items: Vec<Playlist>,
    pub total: u32,
}

impl Items<Playlist> for Followed {
    open spec fn items_spec(self) -> Seq<Playlist> {
        self.items@
    }

    fn items(self) -> (r: Vec<Playlist>)
        ensures
            r@ == self.items_spec(),
    {
        self.items
    }
}

impl Empty<Followed, Playlist> for Followed {
    fn empty() -> (r: Followed)
        ensures
            r.items_spec().len() == 0,
    {
        Followed { items: Vec::new(), total: 0 }
    }
}

/// One followed playlist.
pub struct Playlist {
    pub collaborative: bool,
    pub description: String,
    pub external_urls: ExternalUrls,
    pub href: String,
    pub id: String,
    pub images: Vec<Image>,
    pub name: String,
    pub owner: Option<Owner>,
    pub public: Option<bool>,
    pub tracks: Tracks,
    pub obj_type: String,
}

/// Track summary inside a playlist record.
pub struct Tracks {
    pub href: String,
    pub total: u32,
}

/// Normalizes the decoded followed-playlists envelope loaded from the fixed
/// storage path; the file reading and decoding happen at the caller's edge.
pub fn get_followed(loaded: Option<Followed>) -> (r: Vec<Playlist>)
    ensures
        match loaded {
            Some(t) => r@ == t.items_spec(),
            None => r@.len() == 0,
        },
{
    get_followed_p(loaded)
}

/// Normalizes a decoded followed-playlists envelope loaded from any path.
pub fn get_followed_p(loaded: Option<Followed>) -> (r: Vec<Playlist>)
    ensures
        match loaded {
            Some(t) => r@ == t.items_spec(),
            None => r@.len() == 0,
        },
{
    crate::api_structs::normalize_decoded::<Followed, Playlist>(loaded)
}

} // verus!
