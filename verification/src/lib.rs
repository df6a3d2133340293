pub mod api_structs;

use vstd::prelude::*;
use vstd::string::StringExecFns;
use base64::Engine;
use crate::api_structs::SearchType;

verus! {

/// The decimal digit character for one digit value.
pub open spec fn spec_digit_char(d: int) -> char {
    if d == 0 {
        '0'
    } else if d == 1 {
        '1'
    } else if d == 2 {
        '2'
    } else if d == 3 {
        '3'
    } else if d == 4 {
        '4'
    } else if d == 5 {
        '5'
    } else if d == 6 {
        '6'
    } else if d == 7 {
        '7'
    } else if d == 8 {
        '8'
    } else {
        '9'
    }
}

/// The decimal representation of a nonnegative integer, most significant
/// digit first, with no leading zeros except for zero itself.
pub open spec fn spec_decimal(n: int) -> Seq<char>
    decreases n,
{
    if n < 10 {
        seq![spec_digit_char(n)]
    } else {
        spec_decimal(n / 10).push(spec_digit_char(n % 10))
    }
}

/// The string slice holding one decimal digit.
fn decimal_digit_str(d: u32) -> (r: &'static str)
    requires
        d < 10,
    ensures
        r@ == seq![spec_digit_char(d as int)],
{
    if d == 0 {
        proof {
            reveal_strlit("0");
            assert("0"@ =~= seq![spec_digit_char(0)]);
        }
        "0"
    } else if d == 1 {
        proof {
            reveal_strlit("1");
            assert("1"@ =~= seq![spec_digit_char(1)]);
        }
        "1"
    } else if d == 2 {
        proof {
            reveal_strlit("2");
            assert("2"@ =~= seq![spec_digit_char(2)]);
        }
        "2"
    } else if d == 3 {
        proof {
            reveal_strlit("3");
            assert("3"@ =~= seq![spec_digit_char(3)]);
        }
        "3"
    } else if d == 4 {
        proof {
            reveal_strlit("4");
            assert("4"@ =~= seq![spec_digit_char(4)]);
        }
        "4"
    } else if d == 5 {
        proof {
            reveal_strlit("5");
            assert("5"@ =~= seq![spec_digit_char(5)]);
        }
        "5"
    } else if d == 6 {
        proof {
            reveal_strlit("6");
            assert("6"@ =~= seq![spec_digit_char(6)]);
        }
        "6"
    } else if d == 7 {
        proof {
            reveal_strlit("7");
            assert("7"@ =~= seq![spec_digit_char(7)]);
        }
        "7"
    } else if d == 8 {
        proof {
            reveal_strlit("8");
            assert("8"@ =~= seq![spec_digit_char(8)]);
        }
        "8"
    } else {
        proof {
            reveal_strlit("9");
            assert("9"@ =~= seq![spec_digit_char(9)]);
        }
        "9"
    }
}

/// Renders a result-count limit as its decimal digits.
pub fn u32_to_string(n: u32) -> (r: String)
    ensures
        r@ == spec_decimal(n as int),
    decreases n,
{
    if n < 10 {
        String::from_str(decimal_digit_str(n))
    } else {
        let mut s = u32_to_string(n / 10);
        s.append(decimal_digit_str(n % 10));
        proof {
            assert(s@ =~= spec_decimal(n as int));
        }
        s
    }
}

/// What the base64 standard-alphabet encoding of a string reads as; it
/// depends on the characters of the input alone.
pub uninterp spec fn base64_standard_of(s: Seq<char>) -> Seq<char>;

/// Relies on base64's `Engine::encode` with the `STANDARD` engine: it
/// encodes the UTF-8 bytes of the input with the standard alphabet and
/// padding, a function of the input characters alone. The length bound
/// keeps the encoder's output-size computation away from overflow.
#[verifier::external_body]
fn base64_encode(s: &str) -> (r: String)
    requires
        s@.len() <= usize::MAX as int / 16,
    ensures
        r@ == base64_standard_of(s@),
{
    base64::engine::general_purpose::STANDARD.encode(s)
}

/// Builds the search URL: the fixed search endpoint with the query terms,
/// the resource-type discriminator, and the result-count limit
/// interpolated directly, as the catalog API expects them. Query terms are
/// interpolated as given; callers pre-sanitize them.
pub fn search_url(search_terms: &str, search_type: &SearchType, limit: u32) -> (r: String)
    ensures
        r@ == "https://api.spotify.com/v1/search?q="@ + search_terms@ + "&type="@
            + search_type.spec_str() + "&limit="@ + spec_decimal(limit as int),
{
    let mut s = String::from_str("https://api.spotify.com/v1/search?q=");
    s.append(search_terms);
    s.append("&type=");
    s.append(search_type.as_str());
    s.append("&limit=");
    let l = u32_to_string(limit);
    s.append(l.as_str());
    s
}

/// Binds the search URL to the album resource type.
pub fn search_album_url(search_terms: &str, limit: u32) -> (r: String)
    ensures
        r@ == "https://api.spotify.com/v1/search?q="@ + search_terms@ + "&type="@ + "album"@
            + "&limit="@ + spec_decimal(limit as int),
{
    search_url(search_terms, &SearchType::Album, limit)
}

/// Binds the search URL to the playlist resource type.
pub fn search_playlist_url(search_terms: &str, limit: u32) -> (r: String)
    ensures
        r@ == "https://api.spotify.com/v1/search?q="@ + search_terms@ + "&type="@ + "playlist"@
            + "&limit="@ + spec_decimal(limit as int),
{
    search_url(search_terms, &SearchType::Playlist, limit)
}

/// Builds the per-album track-listing URL for one album identifier.
pub fn album_tracks_url(album_id: &str) -> (r: String)
    ensures
        r@ == "https://api.spotify.com/v1/albums/"@ + album_id@ + "/tracks"@,
{
    let mut s = String::from_str("https://api.spotify.com/v1/albums/");
    s.append(album_id);
    s.append("/tracks");
    s
}

/// True exactly when an HTTP status code lies in the success range.
pub open spec fn spec_status_is_success(status: u16) -> bool {
    200 <= status && status < 300
}

/// Classifies an HTTP status code: success is the 2xx range.
pub fn status_is_success(status: u16) -> (r: bool)
    ensures
        r == spec_status_is_success(status),
{
    200 <= status && status < 300
}

/// An authenticated GET request, ready for the transport: the URL and the
/// value of the authorization header. The JSON accept and content-type
/// headers are fixed for every such request and added at the edge.
pub struct ApiRequest {
    pub url: String,
    pub authorization: String,
}

/// The token-refresh POST request, ready for the transport: the token
/// endpoint, the value of the authorization header, and the two
/// form-encoded body fields.
pub struct TokenRequest {
    pub url: String,
    pub authorization: String,
    pub grant_type: String,
    pub refresh_token: String,
}

/// What one authenticated HTTP exchange produced, as seen by the decision
/// logic: either the transport failed outright, or a response arrived with
/// a status code and a body that either decoded into the expected envelope
/// (`Some`) or was malformed for it (`None`).
pub enum FetchEvent<E> {
    TransportError,
    Response { status: u16, payload: Option<E> },
}

/// The failure classes a call can report: transport failure, a response
/// outside the success range, or a body that would not decode.
pub enum ApiError {
    Transport,
    Status(u16),
    Decode,
}

/// What the fetch-and-persist pipeline decides to do with an exchange:
/// skip persistence and report one failure, or persist the given item
/// collection.
pub enum FetchAction<R> {
    Skipped(ApiError),
    Persist(Vec<R>),
}

/// Body of a successful token-refresh response: the new access token, and
/// a new refresh token only when the server chose to rotate it.
pub struct RefreshTokenResponse {
    pub access_token: String,
    pub refresh_token: Option<String>,
}

/// The credentialed API client: owns the credential set and decides, for
/// every exchange, what follows from its outcome. The network transport
/// and the storage side channel live at the caller's edge.
///
/// Known gap kept on purpose: the client never checks access-token expiry
/// before use and performs no automatic refresh; a refresh happens only
/// when a caller explicitly asks for one.
pub struct SpotifyAPI {
    client_id: String,
    client_secret: String,
    token: String,
    refresh_token: String,
}

impl SpotifyAPI {
    /// The client identifier of the credential set.
    pub closed spec fn spec_client_id(self) -> String {
        self.client_id
    }

    /// The client secret of the credential set.
    pub closed spec fn spec_client_secret(self) -> String {
        self.client_secret
    }

    /// The access token of the credential set.
    pub closed spec fn spec_token(self) -> String {
        self.token
    }

    /// The refresh token of the credential set.
    pub closed spec fn spec_refresh_token(self) -> String {
        self.refresh_token
    }

    /// Builds a client from the four credential values of the configuration
    /// source; loading them is the caller's edge work.
    pub fn new(client_id: String, client_secret: String, token: String, refresh_token: String) -> (r: Self)
        ensures
            r.spec_client_id() == client_id,
            r.spec_client_secret() == client_secret,
            r.spec_token() == token,
            r.spec_refresh_token() == refresh_token,
    {
        Self { client_id, client_secret, token, refresh_token }
    }

    /// The access token currently held.
    pub fn access_token(&self) -> (r: &String)
        ensures
            r == self.spec_token(),
    {
        &self.token
    }

    /// The refresh token currently held.
    pub fn current_refresh_token(&self) -> (r: &String)
        ensures
            r == self.spec_refresh_token(),
    {
        &self.refresh_token
    }

    /// The authorization header value for resource fetches: the word
    /// Bearer, a space, and the current access token.
    pub fn bearer_header(&self) -> (r: String)
        ensures
            r@ == "Bearer "@ + self.spec_token()@,
    {
        let mut s = String::from_str("Bearer ");
        s.append(self.token.as_str());
        s
    }

    /// The authorization header value for the token-refresh exchange: the
    /// word Basic, a space, and the base64 encoding of the client
    /// identifier, a colon, and the client secret.
    pub fn basic_header(&self) -> (r: String)
        requires
            self.spec_client_id()@.len() + self.spec_client_secret()@.len() + 1
                <= usize::MAX as int / 16,
        ensures
            r@ == "Basic "@ + base64_standard_of(
                self.spec_client_id()@ + ":"@ + self.spec_client_secret()@,
            ),
    {
        proof {
            reveal_strlit(":");
        }
        let mut payload = String::from_str(self.client_id.as_str());
        payload.append(":");
        payload.append(self.client_secret.as_str());
        let encoded = base64_encode(payload.as_str());
        let mut r = String::from_str("Basic ");
        r.append(encoded.as_str());
        r
    }

    /// Builds the authenticated GET request of the fetch pipeline for one
    /// URL: bearer authorization with the current access token.
    pub fn sync_request(&self, url: &str) -> (r: ApiRequest)
        ensures
            r.url@ == url@,
            r.authorization@ == "Bearer "@ + self.spec_token()@,
    {
        ApiRequest { url: String::from_str(url), authorization: self.bearer_header() }
    }

    /// Binds the followed-artists sync operation to its fixed URL and
    /// storage path; it adds no logic of its own.
    pub fn followed_artists_request(&self) -> (r: (ApiRequest, String))
        ensures
            r.0.url@ == "https://api.spotify.com/v1/me/following?type=artist"@,
            r.0.authorization@ == "Bearer "@ + self.spec_token()@,
            r.1@ == "./data/followed_artists.json"@,
    {
        (
            self.sync_request("https://api.spotify.com/v1/me/following?type=artist"),
            String::from_str("./data/followed_artists.json"),
        )
    }

    /// Binds the followed-playlists sync operation to its fixed URL and
    /// storage path; it adds no logic of its own.
    pub fn followed_playlists_request(&self) -> (r: (ApiRequest, String))
        ensures
            r.0.url@ == "https://api.spotify.com/v1/me/playlists"@,
            r.0.authorization@ == "Bearer "@ + self.spec_token()@,
            r.1@ == "./data/followed_playlists.json"@,
    {
        (
            self.sync_request("https://api.spotify.com/v1/me/playlists"),
            String::from_str("./data/followed_playlists.json"),
        )
    }

    /// Binds the saved-albums sync operation to its fixed URL and storage
    /// path; it adds no logic of its own.
    pub fn saved_albums_request(&self) -> (r: (ApiRequest, String))
        ensures
            r.0.url@ == "https://api.spotify.com/v1/me/albums"@,
            r.0.authorization@ == "Bearer "@ + self.spec_token()@,
            r.1@ == "./data/saved_albums.json"@,
    {
        (
            self.sync_request("https://api.spotify.com/v1/me/albums"),
            String::from_str("./data/saved_albums.json"),
        )
    }

    /// Builds the token-refresh POST request: the fixed token endpoint,
    /// basic authorization from the client credentials, and the
    /// form-encoded grant fields naming the current refresh token.
    pub fn refresh_request(&self) -> (r: TokenRequest)
        requires
            self.spec_client_id()@.len() + self.spec_client_secret()@.len() + 1
                <= usize::MAX as int / 16,
        ensures
            r.url@ == "https://accounts.spotify.com/api/token"@,
            r.authorization@ == "Basic "@ + base64_standard_of(
                self.spec_client_id()@ + ":"@ + self.spec_client_secret()@,
            ),
            r.grant_type@ == "refresh_token"@,
            r.refresh_token@ == self.spec_refresh_token()@,
    {
        TokenRequest {
            url: String::from_str("https://accounts.spotify.com/api/token"),
            authorization: self.basic_header(),
            grant_type: String::from_str("refresh_token"),
            refresh_token: String::from_str(self.refresh_token.as_str()),
        }
    }

    /// Decides the fetch-and-persist pipeline's step for one exchange.
    /// Every failure is local: a transport failure or a non-success status
    /// skips persistence and reports exactly that one failure; a success
    /// status with a malformed body does not abort but persists the empty
    /// item collection, via the envelope type's zero value; a decoded
    /// envelope persists its own item collection unchanged.
    pub fn update_data<E: api_structs::Empty<E, R> + api_structs::Items<R>, R>(
        event: FetchEvent<E>,
    ) -> (r: FetchAction<R>)
        ensures
            match event {
                FetchEvent::TransportError => r == FetchAction::<R>::Skipped(ApiError::Transport),
                FetchEvent::Response { status, payload } => {
                    if !spec_status_is_success(status) {
                        r == FetchAction::<R>::Skipped(ApiError::Status(status))
                    } else {
                        match payload {
                            Some(e) => r matches FetchAction::Persist(v) && v@ == e.items_spec(),
                            None => r matches FetchAction::Persist(v) && v@.len() == 0,
                        }
                    }
                },
            },
    {
        match event {
            FetchEvent::TransportError => FetchAction::Skipped(ApiError::Transport),
            FetchEvent::Response { status, payload } => {
                if !status_is_success(status) {
                    FetchAction::Skipped(ApiError::Status(status))
                } else {
                    FetchAction::Persist(api_structs::normalize_decoded::<E, R>(payload))
                }
            },
        }
    }

    /// Applies the outcome of a token-refresh exchange to the credential
    /// set. On any failure (transport, status, decode) every field is left
    /// unchanged. On success the access token is overwritten
    /// unconditionally, and the refresh token only when the response
    /// carried one; the client identifier and secret never change.
    pub fn refresh_token(&mut self, event: FetchEvent<RefreshTokenResponse>)
        ensures
            final(self).spec_client_id() == old(self).spec_client_id(),
            final(self).spec_client_secret() == old(self).spec_client_secret(),
            match event {
                FetchEvent::TransportError => *final(self) == *old(self),
                FetchEvent::Response { status, payload } => {
                    if !spec_status_is_success(status) {
                        *final(self) == *old(self)
                    } else {
                        match payload {
                            None => *final(self) == *old(self),
                            Some(p) => {
                                &&& final(self).spec_token() == p.access_token
                                &&& match p.refresh_token {
                                    Some(t) => final(self).spec_refresh_token() == t,
                                    None => final(self).spec_refresh_token() == old(self).spec_refresh_token(),
                                }
                            },
                        }
                    }
                },
            },
    {
        match event {
            FetchEvent::TransportError => {},
            FetchEvent::Response { status, payload } => {
                if status_is_success(status) {
                    match payload {
                        None => {},
                        Some(p) => {
                            self.token = p.access_token;
                            match p.refresh_token {
                                Some(t) => {
                                    self.refresh_token = t;
                                },
                                None => {},
                            }
                        },
                    }
                }
            },
        }
    }

    /// Maps one search exchange to the result the immediate caller sees:
    /// the decoded envelope on success, or the exact failure class.
    /// Success is returned if and only if the status is in the success
    /// range and the body decoded.
    pub fn search_data_type<E>(event: FetchEvent<E>) -> (r: Result<E, ApiError>)
        ensures
            match event {
                FetchEvent::TransportError => r == Result::<E, ApiError>::Err(ApiError::Transport),
                FetchEvent::Response { status, payload } => {
                    if !spec_status_is_success(status) {
                        r == Result::<E, ApiError>::Err(ApiError::Status(status))
                    } else {
                        match payload {
                            Some(e) => r == Result::<E, ApiError>::Ok(e),
                            None => r == Result::<E, ApiError>::Err(ApiError::Decode),
                        }
                    }
                },
            },
    {
        match event {
            FetchEvent::TransportError => Err(ApiError::Transport),
            FetchEvent::Response { status, payload } => {
                if !status_is_success(status) {
                    Err(ApiError::Status(status))
                } else {
                    match payload {
                        Some(e) => Ok(e),
                        None => Err(ApiError::Decode),
                    }
                }
            },
        }
    }

    /// Outcome of an album search: the decoded envelope on success, and the
    /// defined empty album search result on every failure class, so no
    /// error escapes past the immediate caller.
    pub fn search_album(event: FetchEvent<api_structs::albums::SearchData>) -> (r: api_structs::albums::SearchData)
        ensures
            match event {
                FetchEvent::TransportError => r.is_empty_result(),
                FetchEvent::Response { status, payload } => {
                    if !spec_status_is_success(status) {
                        r.is_empty_result()
                    } else {
                        match payload {
                            Some(e) => r == e,
                            None => r.is_empty_result(),
                        }
                    }
                },
            },
    {
        match Self::search_data_type::<api_structs::albums::SearchData>(event) {
            Ok(d) => d,
            Err(_) => api_structs::albums::SearchData::default(),
        }
    }

    /// Outcome of a playlist search: the decoded envelope on success, and
    /// the defined empty playlist search result on every failure class.
    pub fn search_playlist(event: FetchEvent<api_structs::playlists::SearchData>) -> (r: api_structs::playlists::SearchData)
        ensures
            match event {
                FetchEvent::TransportError => r.is_empty_result(),
                FetchEvent::Response { status, payload } => {
                    if !spec_status_is_success(status) {
                        r.is_empty_result()
                    } else {
                        match payload {
                            Some(e) => r == e,
                            None => r.is_empty_result(),
                        }
                    }
                },
            },
    {
        match Self::search_data_type::<api_structs::playlists::SearchData>(event) {
            Ok(d) => d,
            Err(_) => api_structs::playlists::SearchData::default(),
        }
    }

    /// Outcome of a per-album track-listing request: `None` encodes any
    /// failure class; `Some` encodes a decoded response, carrying its item
    /// list in source order even when that list is empty.
    pub fn get_album_tracks_from_id(
        event: FetchEvent<api_structs::SearchDataItem<api_structs::albums::TracksItem>>,
    ) -> (r: Option<Vec<api_structs::albums::TracksItem>>)
        ensures
            match event {
                FetchEvent::TransportError => r is None,
                FetchEvent::Response { status, payload } => {
                    if !spec_status_is_success(status) {
                        r is None
                    } else {
                        match payload {
                            Some(d) => r matches Some(v) && v@ == d.items@,
                            None => r is None,
                        }
                    }
                },
            },
    {
        match Self::search_data_type::<api_structs::SearchDataItem<api_structs::albums::TracksItem>>(event) {
            Ok(d) => Some(d.items),
            Err(_) => None,
        }
    }
}

impl api_structs::albums::Album {
    /// Decides the track-listing outcome for this album from the outcome
    /// of the per-album request the caller performed.
    pub fn get_track_list_from_api(
        &self,
        event: FetchEvent<api_structs::SearchDataItem<api_structs::albums::TracksItem>>,
    ) -> (r: Option<Vec<api_structs::albums::TracksItem>>)
        ensures
            match event {
                FetchEvent::TransportError => r is None,
                FetchEvent::Response { status, payload } => {
                    if !spec_status_is_success(status) {
                        r is None
                    } else {
                        match payload {
                            Some(d) => r matches Some(v) && v@ == d.items@,
                            None => r is None,
                        }
                    }
                },
            },
    {
        SpotifyAPI::get_album_tracks_from_id(event)
    }
}

} // verus!
