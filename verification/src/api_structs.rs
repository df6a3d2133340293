pub mod albums;
pub mod artists;
pub mod playlists;

use vstd::prelude::*;

verus! {

/// One page of search results: the items of interest plus the pagination
/// metadata that the catalog API reports alongside them.
pub struct SearchDataItem<T> {
    pub href: String,
    pub items: Vec<T>,
    pub limit: u32,
    pub next: Option<String>,
    pub offset: u32,
    pub previous: Option<String>,
    pub total: u32,
}

impl<T> SearchDataItem<T> {
    /// A page counts as empty when it carries no items and all of its
    /// pagination metadata is zeroed out.
    pub open spec fn is_empty_page(self) -> bool {
        &&& self.href@.len() == 0
        &&& self.items@.len() == 0
        &&& self.limit == 0
        &&& self.next is None
        &&& self.offset == 0
        &&& self.previous is None
        &&& self.total == 0
    }
}

pub struct ExternalUrls {
    pub spotify: String,
}

pub struct Owner {
    pub display_name: String,
    pub href: String,
    pub id: String,
    pub obj_type: String,
}

pub struct Image {
    pub width: Option<i32>,
    pub height: Option<i32>,
    pub url: String,
}

/// Capability of an envelope to surrender its flat item collection,
/// whatever the nesting depth of the wrapper shape.
pub trait Items<R>: Sized {
    /// The item collection this envelope wraps, as a mathematical sequence.
    spec fn items_spec(self) -> Seq<R>;

    /// Consumes the envelope and returns its flat item collection,
    /// preserving the source order.
    fn items(self) -> (r: Vec<R>)
        ensures
            r@ == self.items_spec(),
    ;
}

/// Capability of an envelope to produce a zero-value instance, used when a
/// response body cannot be decoded. Producing it never fails, and the
/// instance wraps no items at all.
pub trait Empty<T, R> where T: Items<R> {
    fn empty() -> (r: T)
        ensures
            r.items_spec().len() == 0,
    ;
}

/// Law of the capability pair: for every envelope type used by the
/// pipeline, the empty instance unwraps to the empty item collection,
/// without failing.
pub fn empty_unwraps_empty<T: Empty<T, R> + Items<R>, R>() -> (r: Vec<R>)
    ensures
        r@.len() == 0,
{
    <T as Empty<T, R>>::empty().items()
}

/// Normalizes an optionally decoded envelope: a decoded envelope yields its
/// own item collection; a missing one degrades to the empty collection via
/// the envelope type's zero value.
pub fn normalize_decoded<T: Empty<T, R> + Items<R>, R>(loaded: Option<T>) -> (r: Vec<R>)
    ensures
        match loaded {
            Some(t) => r@ == t.items_spec(),
            None => r@.len() == 0,
        },
{
    match loaded {
        Some(t) => t.items(),
        None => <T as Empty<T, R>>::empty().items(),
    }
}

/// Resource-type discriminator for search requests.
pub enum SearchType {
    Playlist,
    Album,
}

impl SearchType {
    /// The discriminator string interpolated into search URLs.
    pub open spec fn spec_str(&self) -> Seq<char> {
        match self {
            SearchType::Playlist => "playlist"@,
            SearchType::Album => "album"@,
        }
    }

    pub fn as_str(&self) -> (r: &'static str)
        ensures
            r@ == self.spec_str(),
    {
        match self {
            SearchType::Playlist => "playlist",
            SearchType::Album => "album",
        }
    }
}

} // verus!
