use vstd::prelude::*;
use crate::api_structs::{Empty, Items, ExternalUrls};

verus! {

/// Envelope for the followed-artists collection: the API nests the items
/// one level down, inside an artists wrapper.
pub struct Followed {
    pub artists: FollowedArtistsItems,
}

impl Items<Artist> for Followed {
    open spec fn items_spec(self) -> Seq<Artist> {
        self.artists.items@
    }

    fn items(self) -> (r: Vec<Artist>)
        ensures
            r@ == self.items_spec(),
    {
        self.artists.items
    }
}

impl Empty<Followed, Artist> for Followed {
    fn empty() -> (r: Followed)
        ensures
            r.items_spec().len() == 0,
    {
        Followed { artists: FollowedArtistsItems { items: Vec::new(), total: 0 } }
    }
}

/// Inner wrapper of the followed-artists envelope.
pub struct FollowedArtistsItems {
    pub items: Vec<Artist>,
    pub total: u32,
}

/// One followed artist.
pub struct Artist {
    pub external_urls: ExternalUrls,
    pub genres: Option<Vec<String>>,
    pub href: String,
    pub id: String,
    pub name: String,
    pub obj_type: String,
}

/// Normalizes the decoded followed-artists envelope loaded from the fixed
/// storage path; the file reading and decoding happen at the caller's edge.
pub fn get_followed(loaded: Option<Followed>) -> (r: Vec<Artist>)
    ensures
        match loaded {
            Some(t) => r@ == t.items_spec(),
            None => r@.len() == 0,
        },
{
    get_followed_p(loaded)
}

/// Normalizes a decoded followed-artists envelope loaded from any path.
pub fn get_followed_p(loaded: Option<Followed>) -> (r: Vec<Artist>)
    ensures
        match loaded {
            Some(t) => r@ == t.items_spec(),
            None => r@.len() == 0,
        },
{
    crate::api_structs::normalize_decoded::<Followed, Artist>(loaded)
}

} // verus!
