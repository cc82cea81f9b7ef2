use lavalink::player::{PlayerState, DEFAULT_VOLUME};
use lavalink::rest::{HttpMethod, RestClient};

#[test]
fn load_tracks_request_encodes_the_identifier() {
    let client = RestClient::new("http://127.0.0.1:2333".to_string(), b"pw".to_vec());
    let r = client.load_tracks_request("ytsearch:foo bar?{é}");
    assert_eq!(r.method, HttpMethod::Get);
    assert_eq!(r.url, "http://127.0.0.1:2333/loadtracks?identifier=ytsearch:foo%20bar%3F%7B%C3%A9%7D");
    assert_eq!(r.authorization, b"pw".to_vec());
    assert!(r.json_body.is_none());
}

#[test]
fn decode_track_request_keeps_the_track() {
    let client = RestClient::new("http://h".to_string(), b"secret".to_vec());
    let r = client.decode_track_request("QAAA");
    assert_eq!(r.url, "http://h/decodetrack?track=QAAA");
    assert_eq!(r.method, HttpMethod::Get);
}

#[test]
fn decode_tracks_request_sends_json() {
    let client = RestClient::new("http://h".to_string(), b"pw".to_vec());
    let r = client.decode_tracks_request(&vec![vec![1, 2], vec![255]]).unwrap();
    assert_eq!(r.method, HttpMethod::Post);
    assert_eq!(r.url, "http://h/decodetracks");
    assert_eq!(r.json_body, Some(b"[[1,2],[255]]".to_vec()));
}

#[test]
fn player_state_follows_commands() {
    let mut p = PlayerState::new(381880193251409931);
    assert_eq!(p.volume, DEFAULT_VOLUME);
    assert!(p.track.is_none());
    let play = p.play_message("t1".to_string(), None, None);
    assert_eq!(play.guild_id, "381880193251409931");
    p.play_sent("t1".to_string());
    assert_eq!(p.track.as_deref(), Some("t1"));
    assert_eq!(p.stop_message().guild_id, "381880193251409931");
    assert_eq!(p.stop_sent(), "t1");
    assert!(p.track.is_none());
    assert_eq!(p.stop_sent(), "no track in state");
    assert!(p.pause_message(true).pause);
    p.pause_sent(true);
    assert!(p.paused);
    assert_eq!(p.volume_message(50).volume, 50);
    p.volume_sent(50);
    assert_eq!(p.volume, 50);
    assert_eq!(PlayerState::new(0).pause_message(false).guild_id, "0");
}

#[test]
fn http_client_is_the_rest_client() {
    let client = lavalink::rest::HttpClient::new("127.0.0.1:2333".to_string(), b"test_password".to_vec());
    assert_eq!(client.decode_track_request("x").url, "127.0.0.1:2333/decodetrack?track=x");
}
