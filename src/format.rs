//! The track blob's wire format, stated as spec functions over the bytes
//! that remain to be read.
//!
//! Every reader takes the remaining bytes and yields either a value and the
//! bytes after it, or the error that ends the decode.
use vstd::prelude::*;
use vstd::utf8::{decode_utf8, valid_utf8};

verus! {

/// The part of a track blob that was being read when decoding failed.
#[derive(Clone, Copy, Debug, PartialEq, Eq, Structural)]
pub enum TrackField {
    /// The flags byte, its framing, or the reserved bytes.
    Header,
    /// The explicit version byte.
    Version,
    Title,
    Author,
    /// The track's length, a big-endian 64-bit integer.
    Length,
    Identifier,
    /// The stream flag byte.
    Stream,
    /// The URL flag, the URL, or the padding that stands for it.
    Url,
    Source,
}

/// Why a track blob could not be decoded.
#[derive(Clone, Copy, Debug, PartialEq, Eq, Structural)]
pub enum DecodeError {
    /// The text handed in is not base64.
    InvalidBase64,
    /// A read needed more bytes than remain.
    UnexpectedEof(TrackField),
    /// A length-prefixed string does not hold UTF-8.
    InvalidUtf8(TrackField),
    /// The blob names a format version this decoder does not know.
    UnsupportedVersion(u8),
}

/// The bit of the header's first byte that says an explicit version byte follows.
pub const VERSIONED_FLAG: u8 = 0x40;

/// The newest layout revision this decoder reads.
pub const NEWEST_VERSION: u8 = 2;

/// A decoded track, as mathematical values.
pub struct TrackView {
    pub version: u8,
    pub title: Seq<char>,
    pub author: Seq<char>,
    pub length: u64,
    pub identifier: Seq<char>,
    pub stream: bool,
    pub url: Option<Seq<char>>,
    pub source: Seq<char>,
}

/// A value read from the front of some bytes, with the bytes after it.
pub type Parsed<T> = Result<(T, Seq<u8>), DecodeError>;

/// The unsigned number that `s` spells, most significant byte first.
pub open spec fn be_value(s: Seq<u8>) -> nat
    decreases s.len(),
{
    if s.len() == 0 {
        0
    } else {
        be_value(s.drop_last()) * 256 + s.last() as nat
    }
}

/// `256` to the power `n`: one more than the largest value `n` bytes can spell.
pub open spec fn byte_span(n: nat) -> nat
    decreases n,
{
    if n == 0 {
        1
    } else {
        256 * byte_span((n - 1) as nat)
    }
}

pub open spec fn is_versioned(head: u8) -> bool {
    head & VERSIONED_FLAG != 0
}

pub open spec fn known_version(version: u8) -> bool {
    1 <= version <= NEWEST_VERSION
}

pub open spec fn parse_u8(b: Seq<u8>, field: TrackField) -> Parsed<u8> {
    if b.len() < 1 {
        Err(DecodeError::UnexpectedEof(field))
    } else {
        Ok((b[0], b.skip(1)))
    }
}

pub open spec fn parse_u16(b: Seq<u8>, field: TrackField) -> Parsed<u16> {
    if b.len() < 2 {
        Err(DecodeError::UnexpectedEof(field))
    } else {
        Ok((be_value(b.take(2)) as u16, b.skip(2)))
    }
}

pub open spec fn parse_u64(b: Seq<u8>, field: TrackField) -> Parsed<u64> {
    if b.len() < 8 {
        Err(DecodeError::UnexpectedEof(field))
    } else {
        Ok((be_value(b.take(8)) as u64, b.skip(8)))
    }
}

pub open spec fn parse_skip(b: Seq<u8>, n: nat, field: TrackField) -> Parsed<()> {
    if b.len() < n {
        Err(DecodeError::UnexpectedEof(field))
    } else {
        Ok(((), b.skip(n as int)))
    }
}

/// A string: a 16-bit big-endian byte count, then that many bytes of UTF-8.
pub open spec fn parse_string(b: Seq<u8>, field: TrackField) -> Parsed<Seq<char>> {
    match parse_u16(b, field) {
        Err(e) => Err(e),
        Ok((n, body)) => if body.len() < n {
            Err(DecodeError::UnexpectedEof(field))
        } else if !valid_utf8(body.take(n as int)) {
            Err(DecodeError::InvalidUtf8(field))
        } else {
            Ok((decode_utf8(body.take(n as int)), body.skip(n as int)))
        },
    }
}

/// The header: a flags byte, two framing bytes, the version byte when the
/// flags byte has `VERSIONED_FLAG` (else version 1), and two reserved bytes.
pub open spec fn parse_header(b: Seq<u8>) -> Parsed<u8> {
    match parse_u8(b, TrackField::Header) {
        Err(e) => Err(e),
        Ok((head, r0)) => match parse_skip(r0, 2, TrackField::Header) {
            Err(e) => Err(e),
            Ok((_, r1)) => {
                let v = if is_versioned(head) {
                    parse_u8(r1, TrackField::Version)
                } else {
                    Ok((1u8, r1))
                };
                match v {
                    Err(e) => Err(e),
                    Ok((version, r2)) => if !known_version(version) {
                        Err(DecodeError::UnsupportedVersion(version))
                    } else {
                        match parse_skip(r2, 2, TrackField::Header) {
                            Err(e) => Err(e),
                            Ok((_, r3)) => Ok((version, r3)),
                        }
                    },
                }
            },
        },
    }
}

/// The URL: a flag byte; when it is 1 a string follows, otherwise a
/// one-byte count and that many bytes of padding.
pub open spec fn parse_url(b: Seq<u8>) -> Parsed<Option<Seq<char>>> {
    match parse_u8(b, TrackField::Url) {
        Err(e) => Err(e),
        Ok((has_url, r0)) => if has_url == 1 {
            match parse_string(r0, TrackField::Url) {
                Err(e) => Err(e),
                Ok((url, r1)) => Ok((Some(url), r1)),
            }
        } else {
            match parse_u8(r0, TrackField::Url) {
                Err(e) => Err(e),
                Ok((pad, r1)) => match parse_skip(r1, pad as nat, TrackField::Url) {
                    Err(e) => Err(e),
                    Ok((_, r2)) => Ok((None, r2)),
                },
            }
        },
    }
}

/// The fields after the header, in their fixed order.
pub open spec fn parse_body(version: u8, b: Seq<u8>) -> Parsed<TrackView> {
    match parse_string(b, TrackField::Title) {
        Err(e) => Err(e),
        Ok((title, r1)) => match parse_string(r1, TrackField::Author) {
            Err(e) => Err(e),
            Ok((author, r2)) => match parse_u64(r2, TrackField::Length) {
                Err(e) => Err(e),
                Ok((length, r3)) => match parse_string(r3, TrackField::Identifier) {
                    Err(e) => Err(e),
                    Ok((identifier, r4)) => match parse_u8(r4, TrackField::Stream) {
                        Err(e) => Err(e),
                        Ok((stream, r5)) => match parse_url(r5) {
                            Err(e) => Err(e),
                            Ok((url, r6)) => match parse_string(r6, TrackField::Source) {
                                Err(e) => Err(e),
                                Ok((source, r7)) => Ok(
                                    (
                                        TrackView {
                                            version,
                                            title,
                                            author,
                                            length,
                                            identifier,
                                            stream: stream == 1,
                                            url,
                                            source,
                                        },
                                        r7,
                                    ),
                                ),
                            },
                        },
                    },
                },
            },
        },
    }
}

/// A whole track blob, and the bytes left after it.
pub open spec fn parse_track(b: Seq<u8>) -> Parsed<TrackView> {
    match parse_header(b) {
        Err(e) => Err(e),
        Ok((version, rest)) => parse_body(version, rest),
    }
}

/// What decoding the bytes `b` gives: the track, or the first error met.
pub open spec fn track_of(b: Seq<u8>) -> Result<TrackView, DecodeError> {
    match parse_track(b) {
        Err(e) => Err(e),
        Ok((t, _)) => Ok(t),
    }
}

pub proof fn lemma_be_value_bound(s: Seq<u8>)
    ensures
        be_value(s) < byte_span(s.len()),
    decreases s.len(),
{
    if s.len() > 0 {
        lemma_be_value_bound(s.drop_last());
        assert(be_value(s.drop_last()) * 256 + (s.last() as nat) < byte_span(s.len())) by (nonlinear_arith)
            requires
                be_value(s.drop_last()) < byte_span((s.len() - 1) as nat),
                byte_span(s.len()) == 256 * byte_span((s.len() - 1) as nat),
                s.last() < 256,
        ;
    }
}

} // verus!
