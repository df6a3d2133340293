use spotify_sync::api_structs::albums::{Album, Saved, SavedAlbumsItem, Tracks, TracksItem};
use spotify_sync::api_structs::artists;
use spotify_sync::api_structs::playlists;
use spotify_sync::api_structs::empty_unwraps_empty;
use spotify_sync::api_structs::{Empty, ExternalUrls, Items};

fn env_urls(s: &str) -> ExternalUrls {
    ExternalUrls { spotify: s.to_string() }
}

fn env_album(name: &str, id: &str, tracks: Option<Tracks>) -> Album {
    Album {
        album_type: "album".to_string(),
        artists: Vec::new(),
        external_urls: env_urls("https://example.invalid/album"),
        href: "https://example.invalid/href".to_string(),
        id: id.to_string(),
        images: Vec::new(),
        name: name.to_string(),
        total_tracks: 0,
        tracks,
        obj_type: "album".to_string(),
    }
}

fn env_track(name: &str) -> TracksItem {
    TracksItem {
        name: name.to_string(),
        duration_ms: 1000,
        explicit: false,
        external_urls: env_urls("https://example.invalid/track"),
        href: "h".to_string(),
        id: "t".to_string(),
        track_number: 1,
    }
}

fn env_artist(name: &str) -> artists::Artist {
    artists::Artist {
        external_urls: env_urls("https://example.invalid/artist"),
        genres: None,
        href: "h".to_string(),
        id: "a".to_string(),
        name: name.to_string(),
        obj_type: "artist".to_string(),
    }
}

#[test]
fn empty_unwraps_empty_for_each_pipeline_envelope() {
    assert!(empty_unwraps_empty::<Saved, SavedAlbumsItem>().is_empty());
    assert!(empty_unwraps_empty::<artists::Followed, artists::Artist>().is_empty());
    assert!(empty_unwraps_empty::<playlists::Followed, playlists::Playlist>().is_empty());
}

#[test]
fn saved_empty_unwraps_empty() {
    let e = <Saved as Empty<Saved, SavedAlbumsItem>>::empty();
    assert_eq!(e.total, 0);
    assert!(e.items().is_empty());
}

#[test]
fn followed_artists_empty_unwraps_empty() {
    let e = <artists::Followed as Empty<artists::Followed, artists::Artist>>::empty();
    assert_eq!(e.artists.total, 0);
    assert!(e.items().is_empty());
}

#[test]
fn followed_playlists_empty_unwraps_empty() {
    let e = <playlists::Followed as Empty<playlists::Followed, playlists::Playlist>>::empty();
    assert_eq!(e.total, 0);
    assert!(e.items().is_empty());
}

#[test]
fn saved_items_preserves_order() {
    let saved = Saved {
        total: 2,
        items: vec![
            SavedAlbumsItem { added_at: "2020".to_string(), album: env_album("first", "1", None) },
            SavedAlbumsItem { added_at: "2021".to_string(), album: env_album("second", "2", None) },
        ],
    };
    let items = saved.items();
    assert_eq!(items.len(), 2);
    assert_eq!(items[0].album.name, "first");
    assert_eq!(items[1].album.name, "second");
}

#[test]
fn get_track_list_present() {
    let album = env_album(
        "a",
        "1",
        Some(Tracks { items: Some(vec![env_track("one"), env_track("two")]), total: 2 }),
    );
    let tl = album.get_track_list().expect("track list expected");
    assert_eq!(tl.len(), 2);
    assert_eq!(tl[0].name, "one");
    assert_eq!(tl[1].name, "two");
}

#[test]
fn get_track_list_absent_items() {
    let album = env_album("a", "1", Some(Tracks { items: None, total: 0 }));
    assert!(album.get_track_list().is_none());
}

#[test]
fn get_track_list_absent_tracks() {
    let album = env_album("a", "1", None);
    assert!(album.get_track_list().is_none());
}

#[test]
fn get_saved_none_is_empty() {
    assert!(spotify_sync::api_structs::albums::get_saved(None).is_empty());
    assert!(spotify_sync::api_structs::albums::get_saved_p(None).is_empty());
}

#[test]
fn get_followed_none_is_empty() {
    assert!(spotify_sync::api_structs::artists::get_followed(None).is_empty());
    assert!(spotify_sync::api_structs::artists::get_followed_p(None).is_empty());
    assert!(spotify_sync::api_structs::playlists::get_followed(None).is_empty());
    assert!(spotify_sync::api_structs::playlists::get_followed_p(None).is_empty());
}

#[test]
fn get_followed_unwraps_nested_artists() {
    let env = artists::Followed {
        artists: artists::FollowedArtistsItems {
            items: vec![env_artist("x"), env_artist("y")],
            total: 2,
        },
    };
    let items = artists::get_followed(Some(env));
    assert_eq!(items.len(), 2);
    assert_eq!(items[0].name, "x");
    assert_eq!(items[1].name, "y");
}

fn artist_to_json(a: &artists::Artist) -> serde_json::Value {
    let mut urls = serde_json::Map::new();
    urls.insert("spotify".to_string(), serde_json::Value::String(a.external_urls.spotify.clone()));
    let mut m = serde_json::Map::new();
    m.insert("external_urls".to_string(), serde_json::Value::Object(urls));
    m.insert("href".to_string(), serde_json::Value::String(a.href.clone()));
    m.insert("id".to_string(), serde_json::Value::String(a.id.clone()));
    m.insert("name".to_string(), serde_json::Value::String(a.name.clone()));
    m.insert("type".to_string(), serde_json::Value::String(a.obj_type.clone()));
    serde_json::Value::Object(m)
}

fn artist_from_json(v: &serde_json::Value) -> artists::Artist {
    artists::Artist {
        external_urls: ExternalUrls {
            spotify: v["external_urls"]["spotify"].as_str().unwrap().to_string(),
        },
        genres: None,
        href: v["href"].as_str().unwrap().to_string(),
        id: v["id"].as_str().unwrap().to_string(),
        name: v["name"].as_str().unwrap().to_string(),
        obj_type: v["type"].as_str().unwrap().to_string(),
    }
}

#[test]
fn roundtrip_followed_artists_items() {
    // Serialize an item collection to the storage side channel's JSON form,
    // read it back, and run it through the envelope's normalization path.
    let original = vec![env_artist("alpha"), env_artist("beta"), env_artist("gamma")];
    let json = serde_json::Value::Array(original.iter().map(artist_to_json).collect());
    let text = serde_json::to_string_pretty(&json).unwrap();

    let parsed: serde_json::Value = serde_json::from_str(&text).unwrap();
    let loaded: Vec<artists::Artist> =
        parsed.as_array().unwrap().iter().map(artist_from_json).collect();
    let total = loaded.len() as u32;
    let envelope = artists::Followed {
        artists: artists::FollowedArtistsItems { items: loaded, total },
    };
    let items = artists::get_followed_p(Some(envelope));

    assert_eq!(items.len(), original.len());
    for (got, want) in items.iter().zip(original.iter()) {
        assert_eq!(got.name, want.name);
        assert_eq!(got.id, want.id);
        assert_eq!(got.href, want.href);
        assert_eq!(got.obj_type, want.obj_type);
        assert_eq!(got.external_urls.spotify, want.external_urls.spotify);
    }
}
