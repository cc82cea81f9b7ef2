//! Decoding of lavaplayer track blobs.
use vstd::prelude::*;

use crate::cursor::ByteCursor;
use crate::format::{
    is_versioned, parse_header, parse_url, track_of, DecodeError, TrackField,
    TrackView, NEWEST_VERSION, VERSIONED_FLAG,
};

verus! {

/// Holds decoded track information from a lavaplayer track blob.
#[derive(Clone, Debug, PartialEq, Eq)]
pub struct DecodedTrack {
    /// The version of the track.
    pub version: u8,
    /// The title of the track.
    pub title: String,
    /// The author of the track.
    pub author: String,
    /// The length of the track.
    pub length: u64,
    /// The unique identifier for the track.
    pub identifier: String,
    /// Whether the track is a stream.
    pub stream: bool,
    /// The URL of the track.
    pub url: Option<String>,
    /// The source of the track.
    pub source: String,
}

impl View for DecodedTrack {
    type V = TrackView;

    open spec fn view(&self) -> TrackView {
        TrackView {
            version: self.version,
            title: self.title@,
            author: self.author@,
            length: self.length,
            identifier: self.identifier@,
            stream: self.stream,
            url: text_view(self.url),
            source: self.source@,
        }
    }
}

/// The characters of an optional string.
pub open spec fn text_view(s: Option<String>) -> Option<Seq<char>> {
    match s {
        Some(t) => Some(t@),
        None => None,
    }
}

/// A decode result with the track replaced by its view.
pub open spec fn result_view(r: Result<DecodedTrack, DecodeError>) -> Result<TrackView, DecodeError> {
    match r {
        Ok(t) => Ok(t@),
        Err(e) => Err(e),
    }
}

/// The bytes that the text `s` spells in base64.
pub uninterp spec fn base64_decoded(s: Seq<char>) -> Option<Seq<u8>>;

/// Relies on `base64::decode` (standard alphabet, padded): the bytes that
/// the text spells, or an error when it is not base64.
#[verifier::external_body]
fn decode_base64(input: &str) -> (r: Option<Vec<u8>>)
    ensures
        match r {
            Some(v) => base64_decoded(input@) == Some(v@),
            None => base64_decoded(input@) is None,
        },
{
    base64::decode(input).ok()
}

fn read_header(cursor: &mut ByteCursor) -> (r: Result<u8, DecodeError>)
    requires
        old(cursor).wf(),
    ensures
        final(cursor).wf(),
        match parse_header(old(cursor)@) {
            Ok((v, rest)) => r == Ok::<u8, DecodeError>(v) && final(cursor)@ == rest,
            Err(e) => r == Err::<u8, DecodeError>(e),
        },
{
    let head = cursor.read_u8(TrackField::Header)?;
    cursor.skip(2, TrackField::Header)?;
    let version = if head & VERSIONED_FLAG != 0 {
        cursor.read_u8(TrackField::Version)?
    } else {
        1
    };
    assert(is_versioned(head) == (head & VERSIONED_FLAG != 0));
    if version < 1 || version > NEWEST_VERSION {
        return Err(DecodeError::UnsupportedVersion(version));
    }
    cursor.skip(2, TrackField::Header)?;
    Ok(version)
}

fn read_url(cursor: &mut ByteCursor) -> (r: Result<Option<String>, DecodeError>)
    requires
        old(cursor).wf(),
    ensures
        final(cursor).wf(),
        match parse_url(old(cursor)@) {
            Ok((u, rest)) => r matches Ok(v) && text_view(v) == u && final(cursor)@ == rest,
            Err(e) => r == Err::<Option<String>, DecodeError>(e),
        },
{
    let has_url = cursor.read_u8(TrackField::Url)?;
    if has_url == 1 {
        let url = cursor.read_string(TrackField::Url)?;
        Ok(Some(url))
    } else {
        let pad = cursor.read_u8(TrackField::Url)?;
        cursor.skip(pad as usize, TrackField::Url)?;
        Ok(None)
    }
}

/// Decodes a binary lavaplayer track blob.
pub fn decode_track(input: Vec<u8>) -> (r: Result<DecodedTrack, DecodeError>)
    ensures
        result_view(r) == track_of(input@),
{
    let mut cursor = ByteCursor::new(input);
    let version = read_header(&mut cursor)?;
    let title = cursor.read_string(TrackField::Title)?;
    let author = cursor.read_string(TrackField::Author)?;
    let length = cursor.read_u64_be(TrackField::Length)?;
    let identifier = cursor.read_string(TrackField::Identifier)?;
    let stream = cursor.read_u8(TrackField::Stream)? == 1;
    let url = read_url(&mut cursor)?;
    let source = cursor.read_string(TrackField::Source)?;
    let track = DecodedTrack { version, title, author, length, identifier, stream, url, source };
    Ok(track)
}

/// Decodes a base64 string lavaplayer track blob.
pub fn decode_track_base64(input: &str) -> (r: Result<DecodedTrack, DecodeError>)
    ensures
        result_view(r) == match base64_decoded(input@) {
            None => Err(DecodeError::InvalidBase64),
            Some(bytes) => track_of(bytes),
        },
{
    match decode_base64(input) {
        None => Err(DecodeError::InvalidBase64),
        Some(bytes) => decode_track(bytes),
    }
}

} // verus!
