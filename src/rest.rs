//! The requests of the lavalink REST API, and the records it answers with.
//!
//! A `RestClient` knows a node's address and password and builds each
//! request; sending it and reading the answer is left to an HTTP client.
use vstd::prelude::*;
use vstd::string::{StringExecFns, StringSliceAdditionalSpecFns};

verus! {

/// Meta information about a loaded track.
#[derive(Clone, Debug)]
pub struct LoadedTrackInfo {
    /// The title of the track.
    pub title: String,
    /// The name of the author of the track.
    pub author: String,
    /// The length of the track in frames.
    pub length: i64,
    /// The ID of the track.
    pub identifier: String,
    /// The URI to the track.
    pub uri: String,
    /// Whether the track is a stream.
    pub is_stream: bool,
    /// Whether the track can be seeked.
    pub is_seekable: bool,
    /// The current position in the track.
    pub position: i64,
}

/// Information about a track.
#[derive(Clone, Debug)]
pub struct LoadedTrack {
    /// Base64 encoded representation of the track.
    pub track: String,
    /// Meta information about the track.
    pub info: LoadedTrackInfo,
}

/// Information about loaded tracks.
#[derive(Clone, Debug)]
pub struct Load {
    /// The type of track load.
    pub load_type: LoadType,
    /// The playlist information.
    pub playlist_info: Option<PlaylistInfo>,
    /// The list of tracks.
    pub tracks: Vec<LoadedTrack>,
}

/// The type of a track load.
#[derive(Clone, Copy, Debug, PartialEq, Eq, Structural)]
pub enum LoadType {
    /// Loading the track failed.
    LoadFailed,
    /// No matches were found.
    NoMatches,
    /// A playlist was loaded.
    PlaylistLoaded,
    /// A search was made.
    SearchResult,
    /// Loading a track succeeded.
    TrackLoaded,
}

/// Information about a playlist, if any.
#[derive(Clone, Debug)]
pub struct PlaylistInfo {
    /// The name of the playlist.
    pub name: String,
    /// The item that was selected.
    pub selected_track: u64,
}

/// The bytes that percent-encoding leaves as they are in a query: printable
/// ASCII but for space, `"`, `#`, `<`, `>`, backtick, `?`, `{` and `}`.
pub open spec fn kept_in_query(b: u8) -> bool {
    0x20 < b < 0x7f && b != 0x22 && b != 0x23 && b != 0x3c && b != 0x3e && b != 0x60 && b != 0x3f
        && b != 0x7b && b != 0x7d
}

/// An upper-case hexadecimal digit.
pub open spec fn hex_digit(n: u8) -> char {
    if n < 10 {
        (n + 48) as u8 as char
    } else {
        (n + 55) as u8 as char
    }
}

/// `bytes` percent-encoded: a byte kept in a query stays as its character,
/// any other becomes `%` and two hexadecimal digits.
pub open spec fn percent_encoded(bytes: Seq<u8>) -> Seq<char>
    decreases bytes.len(),
{
    if bytes.len() == 0 {
        Seq::empty()
    } else {
        let b = bytes[0];
        let head = if kept_in_query(b) {
            seq![b as char]
        } else {
            seq!['%', hex_digit(b / 16), hex_digit(b % 16)]
        };
        head + percent_encoded(bytes.skip(1))
    }
}

/// Relies on `percent_encoding::utf8_percent_encode` with
/// `DEFAULT_ENCODE_SET`: each byte of the text's UTF-8 that the set holds
/// becomes `%XX` (upper-case hex), every other byte is kept.
#[verifier::external_body]
fn percent_encode(s: &str) -> (r: String)
    ensures
        r@ == percent_encoded(s.spec_bytes()),
{
    percent_encoding::utf8_percent_encode(s, percent_encoding::DEFAULT_ENCODE_SET).to_string()
}

/// The bytes of each of a list of byte buffers.
pub open spec fn byte_lists(lists: Seq<Vec<u8>>) -> Seq<Seq<u8>> {
    lists.map_values(|v: Vec<u8>| v@)
}

/// The JSON text of a list of byte lists, each byte a number.
pub uninterp spec fn json_of_byte_lists(lists: Seq<Seq<u8>>) -> Option<Seq<u8>>;

/// Relies on `serde_json::to_vec` on a list of byte lists: the JSON text,
/// or an error.
#[verifier::external_body]
fn byte_lists_json(lists: &Vec<Vec<u8>>) -> (r: Option<Vec<u8>>)
    ensures
        match r {
            Some(v) => json_of_byte_lists(byte_lists(lists@)) == Some(v@),
            None => json_of_byte_lists(byte_lists(lists@)) is None,
        },
{
    serde_json::to_vec(lists).ok()
}

/// The HTTP method of a request.
#[derive(Clone, Copy, Debug, PartialEq, Eq, Structural)]
pub enum HttpMethod {
    Get,
    Post,
}

/// An HTTP request to a node: method, full URL, the `Authorization` header's
/// value, and a JSON body if any.
#[derive(Clone, Debug)]
pub struct RestRequest {
    pub method: HttpMethod,
    pub url: String,
    pub authorization: Vec<u8>,
    pub json_body: Option<Vec<u8>>,
}

/// An HTTP client used to communicate with a lavalink node.
#[derive(Clone, Debug)]
pub struct RestClient {
    host: String,
    password: Vec<u8>,
}

/// The same client under the name it has where hyper sends its requests.
pub type HttpClient = RestClient;

impl View for RestClient {
    /// The node's address and its password.
    type V = (Seq<char>, Seq<u8>);

    closed spec fn view(&self) -> (Seq<char>, Seq<u8>) {
        (self.host@, self.password@)
    }
}

impl RestClient {
    /// Creates a client for the node at `host` (such as
    /// `"http://127.0.0.1:2333"`) that has the given password.
    pub fn new(host: String, password: Vec<u8>) -> (r: Self)
        ensures
            r@ == (host@, password@),
    {
        RestClient { host, password }
    }

    fn request(&self, method: HttpMethod, path: &str, json_body: Option<Vec<u8>>) -> (r:
        RestRequest)
        ensures
            r.method == method,
            r.url@ == self@.0 + path@,
            r.authorization@ == self@.1,
            r.json_body == json_body,
    {
        let mut url = self.host.clone();
        url.append(path);
        RestRequest { method, url, authorization: self.password.clone(), json_body }
    }

    /// The request that loads the tracks matching an identifier; the
    /// identifier is percent-encoded.
    pub fn load_tracks_request(&self, identifier: &str) -> (r: RestRequest)
        ensures
            r.method == HttpMethod::Get,
            r.url@ == self@.0 + "/loadtracks?identifier="@ + percent_encoded(
                identifier.spec_bytes(),
            ),
            r.authorization@ == self@.1,
            r.json_body is None,
    {
        let mut path = String::from_str("/loadtracks?identifier=");
        let encoded = percent_encode(identifier);
        path.append(encoded.as_str());
        let r = self.request(HttpMethod::Get, path.as_str(), None);
        assert(r.url@ =~= self@.0 + "/loadtracks?identifier="@ + percent_encoded(
            identifier.spec_bytes(),
        ));
        r
    }

    /// The request that decodes one base64 track blob on the node.
    pub fn decode_track_request(&self, track: &str) -> (r: RestRequest)
        ensures
            r.method == HttpMethod::Get,
            r.url@ == self@.0 + "/decodetrack?track="@ + track@,
            r.authorization@ == self@.1,
            r.json_body is None,
    {
        let mut path = String::from_str("/decodetrack?track=");
        path.append(track);
        let r = self.request(HttpMethod::Get, path.as_str(), None);
        assert(r.url@ =~= self@.0 + "/decodetrack?track="@ + track@);
        r
    }

    /// The request that decodes several tracks on the node, sent as a JSON
    /// list; `None` when the list cannot be written as JSON.
    pub fn decode_tracks_request(&self, tracks: &Vec<Vec<u8>>) -> (r: Option<RestRequest>)
        ensures
            match json_of_byte_lists(byte_lists(tracks@)) {
                None => r is None,
                Some(body) => r matches Some(q) && q.method == HttpMethod::Post && q.url@
                    == self@.0 + "/decodetracks"@ && q.authorization@ == self@.1 && (
                q.json_body matches Some(b) && b@ == body),
            },
    {
        match byte_lists_json(tracks) {
            None => None,
            Some(body) => Some(self.request(HttpMethod::Post, "/decodetracks", Some(body))),
        }
    }
}

} // verus!
