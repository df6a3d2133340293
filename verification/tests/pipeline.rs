use spotify_sync::api_structs::artists::{Artist, Followed, FollowedArtistsItems};
use spotify_sync::api_structs::ExternalUrls;
use spotify_sync::{ApiError, FetchAction, FetchEvent, RefreshTokenResponse, SpotifyAPI};

fn pipe_artist(name: &str) -> Artist {
    Artist {
        external_urls: ExternalUrls { spotify: "https://example.invalid".to_string() },
        genres: None,
        href: "h".to_string(),
        id: "a".to_string(),
        name: name.to_string(),
        obj_type: "artist".to_string(),
    }
}

fn pipe_client() -> SpotifyAPI {
    SpotifyAPI::new(
        "id".to_string(),
        "secret".to_string(),
        "tok0".to_string(),
        "ref0".to_string(),
    )
}

#[test]
fn fetch_transport_error_skips_persistence() {
    let r = SpotifyAPI::update_data::<Followed, Artist>(FetchEvent::TransportError);
    assert!(matches!(r, FetchAction::Skipped(ApiError::Transport)));
}

#[test]
fn fetch_status_error_skips_persistence() {
    let ev = FetchEvent::<Followed>::Response { status: 404, payload: None };
    let r = SpotifyAPI::update_data::<Followed, Artist>(ev);
    assert!(matches!(r, FetchAction::Skipped(ApiError::Status(404))));
}

#[test]
fn fetch_malformed_body_persists_empty_collection() {
    let ev = FetchEvent::<Followed>::Response { status: 200, payload: None };
    let r = SpotifyAPI::update_data::<Followed, Artist>(ev);
    match r {
        FetchAction::Persist(v) => assert!(v.is_empty()),
        FetchAction::Skipped(_) => panic!("malformed body must still persist"),
    }
}

#[test]
fn fetch_decoded_body_persists_items_in_order() {
    let env = Followed {
        artists: FollowedArtistsItems {
            items: vec![pipe_artist("one"), pipe_artist("two")],
            total: 2,
        },
    };
    let ev = FetchEvent::Response { status: 200, payload: Some(env) };
    let r = SpotifyAPI::update_data::<Followed, Artist>(ev);
    match r {
        FetchAction::Persist(v) => {
            assert_eq!(v.len(), 2);
            assert_eq!(v[0].name, "one");
            assert_eq!(v[1].name, "two");
        },
        FetchAction::Skipped(_) => panic!("decoded body must persist"),
    }
}

#[test]
fn new_stores_credentials() {
    let api = pipe_client();
    assert_eq!(api.access_token(), "tok0");
    assert_eq!(api.current_refresh_token(), "ref0");
}

#[test]
fn refresh_without_rotation_keeps_old_refresh_token() {
    let mut api = pipe_client();
    let ev = FetchEvent::Response {
        status: 200,
        payload: Some(RefreshTokenResponse {
            access_token: "tok1".to_string(),
            refresh_token: None,
        }),
    };
    api.refresh_token(ev);
    assert_eq!(api.access_token(), "tok1");
    assert_eq!(api.current_refresh_token(), "ref0");
}

#[test]
fn refresh_with_rotation_replaces_both_tokens() {
    let mut api = pipe_client();
    let ev = FetchEvent::Response {
        status: 200,
        payload: Some(RefreshTokenResponse {
            access_token: "tok1".to_string(),
            refresh_token: Some("ref1".to_string()),
        }),
    };
    api.refresh_token(ev);
    assert_eq!(api.access_token(), "tok1");
    assert_eq!(api.current_refresh_token(), "ref1");
}

#[test]
fn refresh_transport_failure_leaves_tokens_unchanged() {
    let mut api = pipe_client();
    api.refresh_token(FetchEvent::TransportError);
    assert_eq!(api.access_token(), "tok0");
    assert_eq!(api.current_refresh_token(), "ref0");
}

#[test]
fn refresh_status_failure_leaves_tokens_unchanged() {
    let mut api = pipe_client();
    let ev = FetchEvent::<RefreshTokenResponse>::Response { status: 401, payload: None };
    api.refresh_token(ev);
    assert_eq!(api.access_token(), "tok0");
    assert_eq!(api.current_refresh_token(), "ref0");
}

#[test]
fn refresh_malformed_body_leaves_tokens_unchanged() {
    let mut api = pipe_client();
    let ev = FetchEvent::<RefreshTokenResponse>::Response { status: 200, payload: None };
    api.refresh_token(ev);
    assert_eq!(api.access_token(), "tok0");
    assert_eq!(api.current_refresh_token(), "ref0");
}
