use lavalink::cursor::ByteCursor;
use lavalink::{decode_track, decode_track_base64, DecodeError, DecodedTrack, TrackField};

fn string_field(s: &[u8]) -> Vec<u8> {
    let mut v = vec![(s.len() >> 8) as u8, s.len() as u8];
    v.extend_from_slice(s);
    v
}

fn blob(head: &[u8], title: &[u8], url: &[u8], source: &[u8]) -> Vec<u8> {
    let mut v = head.to_vec();
    v.extend(string_field(title));
    v.extend(string_field(b"Author"));
    v.extend(180000u64.to_be_bytes());
    v.extend(string_field(b"abc"));
    v.push(0);
    v.extend_from_slice(url);
    v.extend(string_field(source));
    v
}

fn example() -> Vec<u8> {
    blob(&[0, 0, 0, 0, 0], b"Test", &[0, 0], b"local")
}

#[test]
fn example_scenario_decodes() {
    let buf = vec![
        0x00, 0, 0, 0, 0, 0, 4, b'T', b'e', b's', b't', 0, 6, b'A', b'u', b't', b'h', b'o', b'r',
        0, 0, 0, 0, 0, 0x02, 0xBF, 0x20, 0, 3, b'a', b'b', b'c', 0x00, 0x00, 0x00, 0, 5, b'l',
        b'o', b'c', b'a', b'l',
    ];
    assert_eq!(buf, example());
    let track = decode_track(buf).unwrap();
    assert_eq!(
        track,
        DecodedTrack {
            version: 1,
            title: "Test".to_string(),
            author: "Author".to_string(),
            length: 180000,
            identifier: "abc".to_string(),
            stream: false,
            url: None,
            source: "local".to_string(),
        }
    );
}

#[test]
fn round_trip_of_known_fields() {
    let mut url = vec![1u8];
    url.extend(string_field("https://e.x/ü".as_bytes()));
    let mut buf = blob(&[0x40, 9, 9, 2, 7, 7], "Tïtle".as_bytes(), &url, b"youtube");
    let stream_at = buf.len() - (url.len() + 2 + 7) - 1;
    buf[stream_at] = 1;
    let track = decode_track(buf).unwrap();
    assert_eq!(track.version, 2);
    assert_eq!(track.title, "Tïtle");
    assert_eq!(track.author, "Author");
    assert_eq!(track.length, 180000);
    assert_eq!(track.identifier, "abc");
    assert!(track.stream);
    assert_eq!(track.url.as_deref(), Some("https://e.x/ü"));
    assert_eq!(track.source, "youtube");
}

#[test]
fn stream_byte_other_than_one_is_false() {
    let mut buf = example();
    let stream_at = buf.len() - 7 - 2 - 1;
    buf[stream_at] = 2;
    assert!(!decode_track(buf).unwrap().stream);
}

#[test]
fn every_truncation_is_eof() {
    let buf = example();
    for k in 0..buf.len() {
        match decode_track(buf[..k].to_vec()) {
            Err(DecodeError::UnexpectedEof(_)) => {}
            other => panic!("prefix {} gave {:?}", k, other),
        }
    }
}

#[test]
fn truncation_names_the_field() {
    let buf = example();
    assert_eq!(decode_track(vec![]), Err(DecodeError::UnexpectedEof(TrackField::Header)));
    assert_eq!(decode_track(buf[..6].to_vec()), Err(DecodeError::UnexpectedEof(TrackField::Title)));
    assert_eq!(decode_track(buf[..buf.len() - 1].to_vec()), Err(DecodeError::UnexpectedEof(TrackField::Source)));
    assert_eq!(decode_track(vec![0x40, 0, 0]), Err(DecodeError::UnexpectedEof(TrackField::Version)));
}

#[test]
fn invalid_utf8_in_each_string_field() {
    let bad: &[u8] = &[0xff, 0xfe];
    let title = blob(&[0, 0, 0, 0, 0], bad, &[0, 0], b"local");
    assert_eq!(decode_track(title), Err(DecodeError::InvalidUtf8(TrackField::Title)));
    let source = blob(&[0, 0, 0, 0, 0], b"Test", &[0, 0], bad);
    assert_eq!(decode_track(source), Err(DecodeError::InvalidUtf8(TrackField::Source)));
    let mut url = vec![1u8];
    url.extend(string_field(&[0xc3]));
    let url = blob(&[0, 0, 0, 0, 0], b"Test", &url, b"local");
    assert_eq!(decode_track(url), Err(DecodeError::InvalidUtf8(TrackField::Url)));
}

#[test]
fn url_absent_or_present_leaves_source_the_same() {
    let mut url = vec![1u8];
    url.extend(string_field(b"http://a"));
    let with = decode_track(blob(&[0, 0, 0, 0, 0], b"Test", &url, b"local")).unwrap();
    let without = decode_track(blob(&[0, 0, 0, 0, 0], b"Test", &[0, 3, 9, 9, 9], b"local")).unwrap();
    assert_eq!(with.url.as_deref(), Some("http://a"));
    assert_eq!(without.url, None);
    assert_eq!(with.source, "local");
    assert_eq!(without.source, "local");
}

#[test]
fn implicit_and_explicit_version() {
    let implicit = decode_track(example()).unwrap();
    assert_eq!(implicit.version, 1);
    let explicit = decode_track(blob(&[0x40, 0, 0, 2, 0, 0], b"Test", &[0, 0], b"local")).unwrap();
    assert_eq!(explicit.version, 2);
    assert_eq!(explicit.title, "Test");
    let explicit_one = decode_track(blob(&[0x40, 0, 0, 1, 0, 0], b"Test", &[0, 0], b"local")).unwrap();
    assert_eq!(explicit_one.version, 1);
}

#[test]
fn unknown_version_is_refused() {
    let buf = blob(&[0x40, 0, 0, 3, 0, 0], b"Test", &[0, 0], b"local");
    assert_eq!(decode_track(buf), Err(DecodeError::UnsupportedVersion(3)));
    let zero = blob(&[0x40, 0, 0, 0, 0, 0], b"Test", &[0, 0], b"local");
    assert_eq!(decode_track(zero), Err(DecodeError::UnsupportedVersion(0)));
}

#[test]
fn base64_blob_decodes() {
    let text = base64::encode(example());
    let track = decode_track_base64(&text).unwrap();
    assert_eq!(track.title, "Test");
    assert_eq!(track.source, "local");
}

#[test]
fn invalid_base64_is_refused() {
    assert_eq!(decode_track_base64("not base64!"), Err(DecodeError::InvalidBase64));
}

#[test]
fn empty_strings_are_valid() {
    let track = decode_track(blob(&[0, 0, 0, 0, 0], b"", &[0, 0], b"")).unwrap();
    assert_eq!(track.title, "");
    assert_eq!(track.source, "");
}

#[test]
fn cursor_reads_big_endian() {
    let mut c = ByteCursor::new(vec![0x01, 0x02, 0, 0, 0, 0, 0, 0, 0x01, 0x00, 0x7f]);
    assert_eq!(c.read_u16_be(TrackField::Length), Ok(0x0102));
    assert_eq!(c.read_u64_be(TrackField::Length), Ok(0x100));
    assert_eq!(c.remaining(), 1);
    assert_eq!(c.skip(2, TrackField::Url), Err(DecodeError::UnexpectedEof(TrackField::Url)));
    assert_eq!(c.remaining(), 1);
    assert_eq!(c.read_u8(TrackField::Stream), Ok(0x7f));
    assert_eq!(c.read_u8(TrackField::Stream), Err(DecodeError::UnexpectedEof(TrackField::Stream)));
}

#[test]
fn cursor_reads_utf8_strings() {
    let mut c = ByteCursor::new(vec![0, 2, 0xc3, 0xa9, 0, 1, 0x80]);
    assert_eq!(c.read_string(TrackField::Title).unwrap(), "é");
    assert_eq!(c.read_string(TrackField::Author), Err(DecodeError::InvalidUtf8(TrackField::Author)));
}
