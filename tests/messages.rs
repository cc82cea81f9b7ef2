use lavalink::model::{
    check_band, time_or_zero, BandError, Destroy, Event, EventTrackEnd, EventTrackException,
    EventTrackStuck, EventWebSocketClosed, Pause, Play, PlayerUpdate, PlayerUpdateState, Seek,
    Stop, VoiceUpdate, VoiceUpdateEvent, Volume, MAX_BAND,
};
use lavalink::opcodes::Opcode;

#[test]
fn opcode_names_round_trip() {
    let all = [
        Opcode::Destroy,
        Opcode::Equalizer,
        Opcode::Event,
        Opcode::Pause,
        Opcode::Play,
        Opcode::PlayerUpdate,
        Opcode::Seek,
        Opcode::Stats,
        Opcode::Stop,
        Opcode::VoiceUpdate,
        Opcode::Volume,
    ];
    for op in all.iter() {
        assert_eq!(Opcode::from_name(&op.to_string()), Ok(*op));
        assert_eq!(op.to_string().parse::<Opcode>(), Ok(*op));
    }
    assert_eq!(Opcode::PlayerUpdate.to_string(), "playerUpdate");
    assert_eq!(Opcode::Unknown.to_string(), "unknown");
    assert_eq!(Opcode::from_name("unknown"), Err(Opcode::Unknown));
    assert_eq!(Opcode::from_name("Play"), Err(Opcode::Unknown));
    assert_eq!(Opcode::from_name(""), Err(Opcode::Unknown));
}

#[test]
fn band_numbers_are_checked() {
    assert_eq!(check_band(0), Ok(0));
    assert_eq!(check_band(MAX_BAND), Ok(14));
    assert_eq!(check_band(15), Err(BandError::BandInvalid));
    assert_eq!(BandError::GainInvalid.description(), "The gain value is not within range");
    assert_eq!(BandError::BandInvalid.description(), "The band value is not within range");
}

#[test]
fn messages_carry_their_fields() {
    let d = Destroy::new("381880193251409931".to_string());
    assert_eq!(d.guild_id, "381880193251409931");
    assert_eq!(d.opcode(), Opcode::Destroy);
    let p = Pause::new("1".to_string(), true);
    assert!(p.pause);
    assert_eq!(p.opcode(), Opcode::Pause);
    let s = Seek::new("1".to_string(), 30_000);
    assert_eq!(s.position, 30_000);
    assert_eq!(s.opcode(), Opcode::Seek);
    assert_eq!(Stop::new("2".to_string()).opcode(), Opcode::Stop);
    let v = Volume::new("1".to_string(), 110);
    assert_eq!(v.volume, 110);
    assert_eq!(v.opcode(), Opcode::Volume);
}

#[test]
fn play_messages() {
    let p = Play::new("1".to_string(), "info here".to_string(), None, Some(5));
    assert!(!p.no_replace);
    assert_eq!(p.track, "info here");
    assert_eq!(p.end_time, Some(5));
    assert_eq!(p.opcode(), Opcode::Play);
    let q = Play::with_no_replace("1".to_string(), "t".to_string(), Some(1), None, true);
    assert!(q.no_replace);
    assert_eq!(q.start_time, Some(1));
    assert_eq!(time_or_zero(None), 0);
    assert_eq!(time_or_zero(Some(42)), 42);
}

#[test]
fn player_update_state() {
    let u = PlayerUpdate::new("381880193251409931".to_string(), 1535170125, 60000);
    assert_eq!(u.state, PlayerUpdateState { position: Some(60000), time: 1535170125 });
    assert_eq!(u.opcode(), Opcode::PlayerUpdate);
    assert_eq!(PlayerUpdateState::new(7, -1).position, Some(-1));
}

#[test]
fn voice_update_shares_the_guild() {
    let v = VoiceUpdate::new("sess".to_string(), "g".to_string(), "tok".to_string(), "ep".to_string());
    assert_eq!(v.session_id, "sess");
    assert_eq!(v.guild_id, "g");
    assert_eq!(v.event.guild_id, "g");
    assert_eq!(v.event.token, "tok");
    assert_eq!(v.event.endpoint, "ep");
    assert_eq!(v.opcode(), Opcode::VoiceUpdate);
    let e = VoiceUpdateEvent::new("a".to_string(), "b".to_string(), "c".to_string());
    assert_eq!((e.endpoint.as_str(), e.guild_id.as_str(), e.token.as_str()), ("a", "b", "c"));
}

#[test]
fn events_know_their_guild() {
    let end = Event::TrackEnd(EventTrackEnd::new("1".to_string(), "FINISHED".to_string(), "foo".to_string()));
    assert_eq!(end.guild_id(), "1");
    assert_eq!(end.opcode(), Opcode::Event);
    let ex = Event::TrackException(EventTrackException::new("2".to_string(), "boom".to_string(), "t".to_string()));
    assert_eq!(ex.guild_id(), "2");
    let stuck = EventTrackStuck::new("3".to_string(), 500, "t".to_string());
    assert_eq!(stuck.threshold_ms, 500);
    assert_eq!(Event::TrackStuck(stuck).guild_id(), "3");
    let closed = EventWebSocketClosed::new("4".to_string(), true, 4006, "gone".to_string());
    assert_eq!(closed.code, 4006);
    assert!(closed.by_remote);
    assert_eq!(Event::WebSocketClosed(closed).guild_id(), "4");
}
