//! Properties of the track format that hold of every blob.
use vstd::prelude::*;
use vstd::utf8::{decode_utf8, valid_utf8};

use crate::format::{
    be_value, byte_span, is_versioned, known_version, parse_body, parse_header, parse_skip,
    parse_string, parse_track, parse_u16, parse_u64, parse_u8, parse_url, track_of, DecodeError,
    Parsed, TrackField, TrackView,
};

verus! {

/// `c` is the first `c.len()` bytes of `b`.
pub open spec fn is_prefix(c: Seq<u8>, b: Seq<u8>) -> bool {
    c.len() <= b.len() && c == b.take(c.len() as int)
}

/// Reading the prefix `c` of `b` either runs out of bytes, or reads what
/// reading `b` read (`pb`), consumes as much, and leaves a prefix of what
/// `b` left.
pub open spec fn truncates<T>(pc: Parsed<T>, pb: Parsed<T>, c: Seq<u8>, b: Seq<u8>) -> bool {
    match pb {
        Err(_) => true,
        Ok((v, rb)) => match pc {
            Err(e) => e is UnexpectedEof,
            Ok((w, rc)) => w == v && is_prefix(rc, rb) && b.len() - rb.len() == c.len()
                - rc.len(),
        },
    }
}

proof fn lemma_prefix_split(c: Seq<u8>, b: Seq<u8>, n: int)
    requires
        is_prefix(c, b),
        0 <= n <= c.len(),
    ensures
        c.take(n) == b.take(n),
        c[0] == b[0] || n == 0,
        is_prefix(c.skip(n), b.skip(n)),
{
    assert(c.take(n) =~= b.take(n));
    assert(c.skip(n) =~= b.skip(n).take(c.skip(n).len() as int));
}

proof fn lemma_truncate_u8(c: Seq<u8>, b: Seq<u8>, f: TrackField)
    requires
        is_prefix(c, b),
    ensures
        truncates(parse_u8(c, f), parse_u8(b, f), c, b),
{
    if c.len() >= 1 {
        lemma_prefix_split(c, b, 1);
        assert(c[0] == c.take(1)[0]);
    }
}

proof fn lemma_truncate_skip(c: Seq<u8>, b: Seq<u8>, n: nat, f: TrackField)
    requires
        is_prefix(c, b),
    ensures
        truncates(parse_skip(c, n, f), parse_skip(b, n, f), c, b),
{
    if c.len() >= n {
        lemma_prefix_split(c, b, n as int);
    }
}

proof fn lemma_truncate_u16(c: Seq<u8>, b: Seq<u8>, f: TrackField)
    requires
        is_prefix(c, b),
    ensures
        truncates(parse_u16(c, f), parse_u16(b, f), c, b),
{
    if c.len() >= 2 {
        lemma_prefix_split(c, b, 2);
    }
}

proof fn lemma_truncate_u64(c: Seq<u8>, b: Seq<u8>, f: TrackField)
    requires
        is_prefix(c, b),
    ensures
        truncates(parse_u64(c, f), parse_u64(b, f), c, b),
{
    if c.len() >= 8 {
        lemma_prefix_split(c, b, 8);
    }
}

proof fn lemma_truncate_string(c: Seq<u8>, b: Seq<u8>, f: TrackField)
    requires
        is_prefix(c, b),
    ensures
        truncates(parse_string(c, f), parse_string(b, f), c, b),
{
    lemma_truncate_u16(c, b, f);
    if let (Ok((n, bb)), Ok((_, bc))) = (parse_u16(b, f), parse_u16(c, f)) {
        if bc.len() >= n {
            lemma_prefix_split(bc, bb, n as int);
        }
    }
}

proof fn lemma_truncate_header(c: Seq<u8>, b: Seq<u8>)
    requires
        is_prefix(c, b),
    ensures
        truncates(parse_header(c), parse_header(b), c, b),
{
    lemma_truncate_u8(c, b, TrackField::Header);
    if let (Ok((head, b0)), Ok((_, c0))) = (
        parse_u8(b, TrackField::Header),
        parse_u8(c, TrackField::Header),
    ) {
        lemma_truncate_skip(c0, b0, 2, TrackField::Header);
        if let (Ok((_, b1)), Ok((_, c1))) = (
            parse_skip(b0, 2, TrackField::Header),
            parse_skip(c0, 2, TrackField::Header),
        ) {
            if is_versioned(head) {
                lemma_truncate_u8(c1, b1, TrackField::Version);
                if let (Ok((_, b2)), Ok((_, c2))) = (
                    parse_u8(b1, TrackField::Version),
                    parse_u8(c1, TrackField::Version),
                ) {
                    lemma_truncate_skip(c2, b2, 2, TrackField::Header);
                }
            } else {
                lemma_truncate_skip(c1, b1, 2, TrackField::Header);
            }
        }
    }
}

proof fn lemma_truncate_url(c: Seq<u8>, b: Seq<u8>)
    requires
        is_prefix(c, b),
    ensures
        truncates(parse_url(c), parse_url(b), c, b),
{
    lemma_truncate_u8(c, b, TrackField::Url);
    if let (Ok((has_url, b0)), Ok((_, c0))) = (
        parse_u8(b, TrackField::Url),
        parse_u8(c, TrackField::Url),
    ) {
        if has_url == 1 {
            lemma_truncate_string(c0, b0, TrackField::Url);
        } else {
            lemma_truncate_u8(c0, b0, TrackField::Url);
            if let (Ok((pad, b1)), Ok((_, c1))) = (
                parse_u8(b0, TrackField::Url),
                parse_u8(c0, TrackField::Url),
            ) {
                lemma_truncate_skip(c1, b1, pad as nat, TrackField::Url);
            }
        }
    }
}

proof fn lemma_truncate_body(version: u8, c: Seq<u8>, b: Seq<u8>)
    requires
        is_prefix(c, b),
    ensures
        truncates(parse_body(version, c), parse_body(version, b), c, b),
{
    lemma_truncate_string(c, b, TrackField::Title);
    if let (Ok((_, b1)), Ok((_, c1))) = (
        parse_string(b, TrackField::Title),
        parse_string(c, TrackField::Title),
    ) {
        lemma_truncate_string(c1, b1, TrackField::Author);
        if let (Ok((_, b2)), Ok((_, c2))) = (
            parse_string(b1, TrackField::Author),
            parse_string(c1, TrackField::Author),
        ) {
            lemma_truncate_u64(c2, b2, TrackField::Length);
            if let (Ok((_, b3)), Ok((_, c3))) = (
                parse_u64(b2, TrackField::Length),
                parse_u64(c2, TrackField::Length),
            ) {
                lemma_truncate_string(c3, b3, TrackField::Identifier);
                if let (Ok((_, b4)), Ok((_, c4))) = (
                    parse_string(b3, TrackField::Identifier),
                    parse_string(c3, TrackField::Identifier),
                ) {
                    lemma_truncate_u8(c4, b4, TrackField::Stream);
                    if let (Ok((_, b5)), Ok((_, c5))) = (
                        parse_u8(b4, TrackField::Stream),
                        parse_u8(c4, TrackField::Stream),
                    ) {
                        lemma_truncate_url(c5, b5);
                        if let (Ok((_, b6)), Ok((_, c6))) = (parse_url(b5), parse_url(c5)) {
                            lemma_truncate_string(c6, b6, TrackField::Source);
                        }
                    }
                }
            }
        }
    }
}

/// Cutting a blob that decodes with no bytes left over anywhere before its
/// end makes the decode fail with `UnexpectedEof`.
pub proof fn truncation_is_eof(b: Seq<u8>, k: int)
    requires
        parse_track(b) matches Ok((_, rest)) && rest.len() == 0,
        0 <= k < b.len(),
    ensures
        track_of(b.take(k)) matches Err(DecodeError::UnexpectedEof(_)),
{
    let c = b.take(k);
    assert(is_prefix(c, b));
    lemma_truncate_header(c, b);
    if let (Ok((version, b0)), Ok((_, c0))) = (parse_header(b), parse_header(c)) {
        lemma_truncate_body(version, c0, b0);
    }
}

/// `v` written in `n` bytes, most significant first.
pub open spec fn be_bytes(v: nat, n: nat) -> Seq<u8>
    decreases n,
{
    if n == 0 {
        Seq::empty()
    } else {
        be_bytes(v / 256, (n - 1) as nat).push((v % 256) as u8)
    }
}

/// A string field: its 16-bit byte count, then the bytes.
pub open spec fn string_bytes(s: Seq<u8>) -> Seq<u8> {
    be_bytes(s.len(), 2) + s
}

/// The fields of a track blob as raw bytes, before any of them is checked.
pub struct RawTrack {
    pub head: u8,
    pub version: u8,
    pub title: Seq<u8>,
    pub author: Seq<u8>,
    pub length: u64,
    pub identifier: Seq<u8>,
    pub stream: u8,
    pub url: Option<Seq<u8>>,
    pub padding: Seq<u8>,
    pub source: Seq<u8>,
}

/// Every count fits its prefix, and a version that is written is known.
pub open spec fn fits(r: RawTrack) -> bool {
    &&& r.title.len() <= 0xffff
    &&& r.author.len() <= 0xffff
    &&& r.identifier.len() <= 0xffff
    &&& r.source.len() <= 0xffff
    &&& r.padding.len() <= 0xff
    &&& (r.url matches Some(u) ==> u.len() <= 0xffff)
    &&& (is_versioned(r.head) ==> known_version(r.version))
}

pub open spec fn header_bytes(r: RawTrack) -> Seq<u8> {
    if is_versioned(r.head) {
        seq![r.head, 0, 0, r.version, 0, 0]
    } else {
        seq![r.head, 0, 0, 0, 0]
    }
}

/// With a URL: the flag 1 and the string; without: the flag 0, then the
/// padding's length and the padding.
pub open spec fn url_bytes(url: Option<Seq<u8>>, padding: Seq<u8>) -> Seq<u8> {
    match url {
        Some(u) => seq![1u8] + string_bytes(u),
        None => seq![0u8, padding.len() as u8] + padding,
    }
}

/// The blob that holds the fields of `r`, framing and reserved bytes zero.
pub open spec fn layout(r: RawTrack) -> Seq<u8> {
    header_bytes(r) + (string_bytes(r.title) + (string_bytes(r.author) + (be_bytes(
        r.length as nat,
        8,
    ) + (string_bytes(r.identifier) + (seq![r.stream] + (url_bytes(r.url, r.padding)
        + string_bytes(r.source)))))))
}

/// Every string field of `r` holds UTF-8.
pub open spec fn all_utf8(r: RawTrack) -> bool {
    &&& valid_utf8(r.title)
    &&& valid_utf8(r.author)
    &&& valid_utf8(r.identifier)
    &&& (r.url matches Some(u) ==> valid_utf8(u))
    &&& valid_utf8(r.source)
}

/// What the blob of `r` decodes to: its fields, or the first string field
/// that is not UTF-8.
pub open spec fn layout_track(r: RawTrack) -> Result<TrackView, DecodeError> {
    if !valid_utf8(r.title) {
        Err(DecodeError::InvalidUtf8(TrackField::Title))
    } else if !valid_utf8(r.author) {
        Err(DecodeError::InvalidUtf8(TrackField::Author))
    } else if !valid_utf8(r.identifier) {
        Err(DecodeError::InvalidUtf8(TrackField::Identifier))
    } else if r.url matches Some(u) && !valid_utf8(u) {
        Err(DecodeError::InvalidUtf8(TrackField::Url))
    } else if !valid_utf8(r.source) {
        Err(DecodeError::InvalidUtf8(TrackField::Source))
    } else {
        Ok(
            TrackView {
                version: if is_versioned(r.head) {
                    r.version
                } else {
                    1
                },
                title: decode_utf8(r.title),
                author: decode_utf8(r.author),
                length: r.length,
                identifier: decode_utf8(r.identifier),
                stream: r.stream == 1,
                url: match r.url {
                    Some(u) => Some(decode_utf8(u)),
                    None => None,
                },
                source: decode_utf8(r.source),
            },
        )
    }
}

proof fn lemma_be_bytes(v: nat, n: nat)
    requires
        v < byte_span(n),
    ensures
        be_bytes(v, n).len() == n,
        be_value(be_bytes(v, n)) == v,
    decreases n,
{
    if n > 0 {
        assert(v / 256 < byte_span((n - 1) as nat)) by (nonlinear_arith)
            requires
                v < byte_span(n),
                byte_span(n) == 256 * byte_span((n - 1) as nat),
        ;
        lemma_be_bytes(v / 256, (n - 1) as nat);
        let s = be_bytes(v, n);
        assert(s.drop_last() =~= be_bytes(v / 256, (n - 1) as nat));
        assert(v == (v / 256) * 256 + v % 256) by (nonlinear_arith);
    }
}

proof fn lemma_read_u8(x: u8, rest: Seq<u8>, f: TrackField)
    ensures
        parse_u8(seq![x] + rest, f) == Ok::<(u8, Seq<u8>), DecodeError>((x, rest)),
{
    assert((seq![x] + rest).skip(1) =~= rest);
}

proof fn lemma_read_string(s: Seq<u8>, rest: Seq<u8>, f: TrackField)
    requires
        s.len() <= 0xffff,
    ensures
        parse_string(string_bytes(s) + rest, f) == if valid_utf8(s) {
            Ok::<(Seq<char>, Seq<u8>), DecodeError>((decode_utf8(s), rest))
        } else {
            Err(DecodeError::InvalidUtf8(f))
        },
{
    reveal_with_fuel(byte_span, 3);
    lemma_be_bytes(s.len(), 2);
    let b = string_bytes(s) + rest;
    assert(b.take(2) =~= be_bytes(s.len(), 2));
    assert(b.skip(2) =~= s + rest);
    assert((s + rest).take(s.len() as int) =~= s);
    assert((s + rest).skip(s.len() as int) =~= rest);
}

proof fn lemma_read_header(r: RawTrack, rest: Seq<u8>)
    requires
        fits(r),
    ensures
        parse_header(header_bytes(r) + rest) == Ok::<(u8, Seq<u8>), DecodeError>(
            (
                if is_versioned(r.head) {
                    r.version
                } else {
                    1
                },
                rest,
            ),
        ),
{
    let b = header_bytes(r) + rest;
    assert(b.skip(1).skip(2) =~= b.skip(3));
    if is_versioned(r.head) {
        assert(b.skip(3).skip(1) =~= b.skip(4));
        assert(b.skip(4).skip(2) =~= rest);
    } else {
        assert(b.skip(3).skip(2) =~= rest);
    }
}

proof fn lemma_read_url(url: Option<Seq<u8>>, padding: Seq<u8>, rest: Seq<u8>)
    requires
        padding.len() <= 0xff,
        url matches Some(u) ==> u.len() <= 0xffff,
    ensures
        parse_url(url_bytes(url, padding) + rest) == match url {
            Some(u) => if valid_utf8(u) {
                Ok::<(Option<Seq<char>>, Seq<u8>), DecodeError>((Some(decode_utf8(u)), rest))
            } else {
                Err(DecodeError::InvalidUtf8(TrackField::Url))
            },
            None => Ok((None, rest)),
        },
{
    let b = url_bytes(url, padding) + rest;
    match url {
        Some(u) => {
            assert(b =~= seq![1u8] + (string_bytes(u) + rest));
            lemma_read_u8(1u8, string_bytes(u) + rest, TrackField::Url);
            lemma_read_string(u, rest, TrackField::Url);
        },
        None => {
            assert(b.skip(1).skip(1) =~= padding + rest);
            assert((padding + rest).skip(padding.len() as int) =~= rest);
        },
    }
}

proof fn lemma_read_u64(v: u64, rest: Seq<u8>, f: TrackField)
    ensures
        parse_u64(be_bytes(v as nat, 8) + rest, f) == Ok::<(u64, Seq<u8>), DecodeError>(
            (v, rest),
        ),
{
    reveal_with_fuel(byte_span, 9);
    lemma_be_bytes(v as nat, 8);
    let b = be_bytes(v as nat, 8) + rest;
    assert(b.take(8) =~= be_bytes(v as nat, 8));
    assert(b.skip(8) =~= rest);
}

/// The blob laid out from raw fields decodes to exactly those fields, or
/// fails with `InvalidUtf8` on the first string field that is not UTF-8;
/// on success no byte is left over.
#[verifier::rlimit(40)]
pub proof fn layout_decodes(r: RawTrack)
    requires
        fits(r),
    ensures
        track_of(layout(r)) == layout_track(r),
        parse_track(layout(r)) matches Ok((_, rest)) ==> rest.len() == 0,
{
    let r7 = string_bytes(r.source);
    let r6 = url_bytes(r.url, r.padding) + r7;
    let r5 = seq![r.stream] + r6;
    let r4 = string_bytes(r.identifier) + r5;
    let r3 = be_bytes(r.length as nat, 8) + r4;
    let r2 = string_bytes(r.author) + r3;
    let r1 = string_bytes(r.title) + r2;
    assert(layout(r) == header_bytes(r) + r1);
    lemma_read_header(r, r1);
    lemma_read_string(r.title, r2, TrackField::Title);
    lemma_read_string(r.author, r3, TrackField::Author);
    lemma_read_u64(r.length, r4, TrackField::Length);
    lemma_read_string(r.identifier, r5, TrackField::Identifier);
    lemma_read_u8(r.stream, r6, TrackField::Stream);
    lemma_read_url(r.url, r.padding, r7);
    assert(r7 =~= r7 + Seq::<u8>::empty());
    lemma_read_string(r.source, Seq::empty(), TrackField::Source);
}

/// Fields written out and decoded again come back exactly.
pub proof fn round_trip(r: RawTrack)
    requires
        fits(r),
        all_utf8(r),
    ensures
        track_of(layout(r)) == layout_track(r),
        layout_track(r) is Ok,
{
    layout_decodes(r);
}

/// A blob with a string field that is not UTF-8, its count kept right,
/// fails with `InvalidUtf8`.
pub proof fn invalid_utf8_rejected(r: RawTrack)
    requires
        fits(r),
        !all_utf8(r),
    ensures
        track_of(layout(r)) matches Err(DecodeError::InvalidUtf8(_)),
{
    layout_decodes(r);
}

/// With or without a URL, the URL field ends where the next field starts:
/// what follows it is read from the same bytes either way.
pub proof fn url_field_ends_at_next(
    u: Seq<u8>,
    flag: u8,
    padding: Seq<u8>,
    rest: Seq<u8>,
)
    requires
        u.len() <= 0xffff,
        valid_utf8(u),
        flag != 1,
        padding.len() <= 0xff,
    ensures
        parse_url(seq![1u8] + string_bytes(u) + rest) == Ok::<
            (Option<Seq<char>>, Seq<u8>),
            DecodeError,
        >((Some(decode_utf8(u)), rest)),
        parse_url(seq![flag, padding.len() as u8] + padding + rest) == Ok::<
            (Option<Seq<char>>, Seq<u8>),
            DecodeError,
        >((None, rest)),
{
    lemma_read_url(Some(u), padding, rest);
    assert(seq![1u8] + string_bytes(u) + rest =~= url_bytes(Some(u), padding) + rest);
    let b = seq![flag, padding.len() as u8] + padding + rest;
    assert(b.skip(1).skip(1) =~= padding + rest);
    assert((padding + rest).skip(padding.len() as int) =~= rest);
}

/// Without the versioned flag the version is 1 and no version byte is read;
/// with it, the byte after the framing is the version, reported as it is.
pub proof fn version_header(b: Seq<u8>)
    ensures
        b.len() >= 5 && !is_versioned(b[0]) ==> parse_header(b) == Ok::<
            (u8, Seq<u8>),
            DecodeError,
        >((1u8, b.skip(5))),
        b.len() >= 6 && is_versioned(b[0]) && known_version(b[3]) ==> parse_header(b) == Ok::<
            (u8, Seq<u8>),
            DecodeError,
        >((b[3], b.skip(6))),
        b.len() >= 4 && is_versioned(b[0]) && !known_version(b[3]) ==> parse_header(b) == Err::<
            (u8, Seq<u8>),
            DecodeError,
        >(DecodeError::UnsupportedVersion(b[3])),
{
    if b.len() >= 3 {
        assert(b.skip(1).skip(2) =~= b.skip(3));
        if b.len() >= 4 {
            assert(b.skip(3).skip(1) =~= b.skip(4));
            assert(b.skip(3)[0] == b[3]);
        }
        if b.len() >= 5 {
            assert(b.skip(3).skip(2) =~= b.skip(5));
        }
        if b.len() >= 6 {
            assert(b.skip(4).skip(2) =~= b.skip(6));
        }
    }
}

} // verus!
