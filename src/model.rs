//! A collection of messages to send to and receive from the lavalink node.
use vstd::prelude::*;

use crate::opcodes::Opcode;

verus! {

/// Why a `Band` could not be made.
#[derive(Clone, Copy, Debug, PartialEq, Eq, Structural)]
pub enum BandError {
    /// The band value is not within the valid range.
    BandInvalid,
    /// The gain value is not within the valid range.
    GainInvalid,
}

/// The highest equalizer band: there are 15, numbered from 0.
pub const MAX_BAND: u8 = 14;

pub open spec fn band_error_text(e: BandError) -> Seq<char> {
    match e {
        BandError::BandInvalid => "The band value is not within range"@,
        BandError::GainInvalid => "The gain value is not within range"@,
    }
}

impl BandError {
    /// A sentence that says what went wrong.
    pub fn description(&self) -> (r: &'static str)
        ensures
            r@ == band_error_text(*self),
    {
        match self {
            BandError::BandInvalid => "The band value is not within range",
            BandError::GainInvalid => "The gain value is not within range",
        }
    }
}

/// Checks an equalizer band number.
pub fn check_band(band: u8) -> (r: Result<u8, BandError>)
    ensures
        band <= MAX_BAND ==> r == Ok::<u8, BandError>(band),
        band > MAX_BAND ==> r == Err::<u8, BandError>(BandError::BandInvalid),
{
    if band > MAX_BAND {
        Err(BandError::BandInvalid)
    } else {
        Ok(band)
    }
}

/// A message sent to a node to destroy a player.
///
/// This is useful to move a voice connection to a new node. It does not
/// affect the voice state. Only sent to a node.
#[derive(Clone, Debug)]
pub struct Destroy {
    /// The ID of the guild.
    pub guild_id: String,
}

impl Destroy {
    /// Creates a new `Destroy` message.
    pub fn new(guild_id: String) -> (r: Self)
        ensures
            r.guild_id == guild_id,
    {
        Destroy { guild_id }
    }

    /// Retrieves the opcode for the message.
    pub fn opcode(&self) -> (r: Opcode)
        ensures
            r == Opcode::Destroy,
    {
        Opcode::Destroy
    }
}

/// An event from the server. Only sent from a node.
#[derive(Clone, Debug)]
pub enum Event {
    /// A track ended.
    TrackEnd(EventTrackEnd),
    /// An exception occurred while playing a track.
    TrackException(EventTrackException),
    /// A track became stuck.
    TrackStuck(EventTrackStuck),
    /// A WebSocket connection to Discord closed.
    WebSocketClosed(EventWebSocketClosed),
}

/// The guild of an event's player.
pub open spec fn event_guild(e: Event) -> String {
    match e {
        Event::TrackEnd(x) => x.guild_id,
        Event::TrackException(x) => x.guild_id,
        Event::TrackStuck(x) => x.guild_id,
        Event::WebSocketClosed(x) => x.guild_id,
    }
}

impl Event {
    /// Returns the guild ID of the event.
    pub fn guild_id(&self) -> (r: &str)
        ensures
            r@ == event_guild(*self)@,
    {
        match self {
            Event::TrackEnd(e) => e.guild_id.as_str(),
            Event::TrackException(e) => e.guild_id.as_str(),
            Event::TrackStuck(e) => e.guild_id.as_str(),
            Event::WebSocketClosed(e) => e.guild_id.as_str(),
        }
    }

    /// Retrieves the opcode for the message.
    pub fn opcode(&self) -> (r: Opcode)
        ensures
            r == Opcode::Event,
    {
        Opcode::Event
    }
}

/// A track ended. Only sent from a node.
#[derive(Clone, Debug)]
pub struct EventTrackEnd {
    /// The guild ID of the affected player.
    pub guild_id: String,
    /// The reason for the track ending.
    pub reason: String,
    /// The track that ended.
    pub track: String,
}

impl EventTrackEnd {
    /// Creates a new `EventTrackEnd` instance.
    pub fn new(guild_id: String, reason: String, track: String) -> (r: Self)
        ensures
            r.guild_id == guild_id,
            r.reason == reason,
            r.track == track,
    {
        EventTrackEnd { guild_id, reason, track }
    }
}

/// An exception occurred while playing a track. Only sent from a node.
#[derive(Clone, Debug)]
pub struct EventTrackException {
    /// The guild ID of the affected player.
    pub guild_id: String,
    /// The reason for the exception.
    pub error: String,
    /// The track that was playing.
    pub track: String,
}

impl EventTrackException {
    /// Creates a new `EventTrackException` instance.
    pub fn new(guild_id: String, error: String, track: String) -> (r: Self)
        ensures
            r.guild_id == guild_id,
            r.error == error,
            r.track == track,
    {
        EventTrackException { guild_id, error, track }
    }
}

/// A track became stuck. Only sent from a node.
#[derive(Clone, Debug)]
pub struct EventTrackStuck {
    /// The guild ID of the affected player.
    pub guild_id: String,
    /// The threshold, in milliseconds, that was passed.
    pub threshold_ms: i64,
    /// The track that became stuck.
    pub track: String,
}

impl EventTrackStuck {
    /// Creates a new `EventTrackStuck` instance.
    pub fn new(guild_id: String, threshold_ms: i64, track: String) -> (r: Self)
        ensures
            r.guild_id == guild_id,
            r.threshold_ms == threshold_ms,
            r.track == track,
    {
        EventTrackStuck { guild_id, threshold_ms, track }
    }
}

/// A WebSocket connection to Discord closed. Only sent from a node.
#[derive(Clone, Debug)]
pub struct EventWebSocketClosed {
    /// Whether the remote host closed the connection.
    pub by_remote: bool,
    /// The close code from Discord.
    pub code: u16,
    /// The guild ID of the affected player.
    pub guild_id: String,
    /// The reason for the closing.
    pub reason: String,
}

impl EventWebSocketClosed {
    /// Creates a new `EventWebSocketClosed` instance.
    pub fn new(guild_id: String, by_remote: bool, code: u16, reason: String) -> (r: Self)
        ensures
            r.guild_id == guild_id,
            r.by_remote == by_remote,
            r.code == code,
            r.reason == reason,
    {
        EventWebSocketClosed { by_remote, code, guild_id, reason }
    }
}

/// A message sent to a node to set the pause state of a guild's player.
#[derive(Clone, Debug)]
pub struct Pause {
    /// The ID of the guild whose player's pause state is being set.
    pub guild_id: String,
    /// Whether to pause the player or not.
    pub pause: bool,
}

impl Pause {
    /// Creates a new `Pause` message.
    pub fn new(guild_id: String, pause: bool) -> (r: Self)
        ensures
            r.guild_id == guild_id,
            r.pause == pause,
    {
        Pause { guild_id, pause }
    }

    /// Retrieves the opcode for the message.
    pub fn opcode(&self) -> (r: Opcode)
        ensures
            r == Opcode::Pause,
    {
        Opcode::Pause
    }
}

/// A message sent to a node to play a new audio stream via a guild's player.
#[derive(Clone, Debug)]
pub struct Play {
    /// The time at which to end the stream; `None` plays until the stream ends.
    pub end_time: Option<u64>,
    /// The ID of the guild whose player is having a stream added.
    pub guild_id: String,
    /// Whether to keep the song that is playing. Defaults to `false`, which
    /// replaces it.
    pub no_replace: bool,
    /// The time at which to start the stream; `None` starts at the start.
    pub start_time: Option<u64>,
    /// The base64 encoded track information.
    pub track: String,
}

impl Play {
    /// Creates a new `Play` message that replaces the song that is playing.
    ///
    /// `track` is not a URL or name of a song; it is a base64 encoded
    /// string containing track information.
    pub fn new(
        guild_id: String,
        track: String,
        start_time: Option<u64>,
        end_time: Option<u64>,
    ) -> (r: Self)
        ensures
            r.guild_id == guild_id,
            r.track == track,
            r.start_time == start_time,
            r.end_time == end_time,
            !r.no_replace,
    {
        Play { end_time, guild_id, no_replace: false, start_time, track }
    }

    /// Creates a new `Play` message with `no_replace` set as given.
    pub fn with_no_replace(
        guild_id: String,
        track: String,
        start_time: Option<u64>,
        end_time: Option<u64>,
        no_replace: bool,
    ) -> (r: Self)
        ensures
            r.guild_id == guild_id,
            r.track == track,
            r.start_time == start_time,
            r.end_time == end_time,
            r.no_replace == no_replace,
    {
        Play { end_time, guild_id, no_replace, start_time, track }
    }

    /// Retrieves the opcode for the message.
    pub fn opcode(&self) -> (r: Opcode)
        ensures
            r == Opcode::Play,
    {
        Opcode::Play
    }
}

/// Position information about a player. Only received from a node.
#[derive(Clone, Debug)]
pub struct PlayerUpdate {
    /// The ID of the guild.
    pub guild_id: String,
    /// The new state information.
    pub state: PlayerUpdateState,
}

impl PlayerUpdate {
    /// Creates a new `PlayerUpdate` message.
    pub fn new(guild_id: String, time: u64, position: i64) -> (r: Self)
        ensures
            r.guild_id == guild_id,
            r.state == (PlayerUpdateState { position: Some(position), time }),
    {
        PlayerUpdate { state: PlayerUpdateState::new(time, position), guild_id }
    }

    /// Retrieves the opcode for the message.
    pub fn opcode(&self) -> (r: Opcode)
        ensures
            r == Opcode::PlayerUpdate,
    {
        Opcode::PlayerUpdate
    }
}

/// State about a player update. Only received from a node.
#[derive(Clone, Copy, Debug, PartialEq, Eq, Structural)]
pub struct PlayerUpdateState {
    /// The current position of the player.
    pub position: Option<i64>,
    /// The Unix timestamp of the update.
    pub time: u64,
}

impl PlayerUpdateState {
    /// Creates a new set of `PlayerUpdateState` data.
    pub fn new(time: u64, position: i64) -> (r: Self)
        ensures
            r.position == Some(position),
            r.time == time,
    {
        PlayerUpdateState { position: Some(position), time }
    }
}

/// A message sent to a node to seek a guild's audio player to a position.
#[derive(Clone, Debug)]
pub struct Seek {
    /// The ID of the guild whose player is seeking.
    pub guild_id: String,
    /// The time position to seek to.
    pub position: i64,
}

impl Seek {
    /// Creates a new `Seek` message.
    pub fn new(guild_id: String, position: i64) -> (r: Self)
        ensures
            r.guild_id == guild_id,
            r.position == position,
    {
        Seek { guild_id, position }
    }

    /// Retrieves the opcode for the message.
    pub fn opcode(&self) -> (r: Opcode)
        ensures
            r == Opcode::Seek,
    {
        Opcode::Seek
    }
}

/// The memory usage of a node. Only received from a node.
#[derive(Clone, Copy, Debug, PartialEq, Eq, Structural)]
pub struct StatsMemory {
    /// The allocated amount of memory.
    pub allocated: i64,
    /// The free amount of memory.
    pub free: i64,
    /// The reservable amount of memory.
    pub reservable: i64,
    /// The used amount of memory.
    pub used: i64,
}

/// A message sent to a node to stop a guild's audio player.
#[derive(Clone, Debug)]
pub struct Stop {
    /// The ID of the guild whose audio player is to stop.
    pub guild_id: String,
}

impl Stop {
    /// Creates a new `Stop` message.
    pub fn new(guild_id: String) -> (r: Self)
        ensures
            r.guild_id == guild_id,
    {
        Stop { guild_id }
    }

    /// Retrieves the opcode for the message.
    pub fn opcode(&self) -> (r: Opcode)
        ensures
            r == Opcode::Stop,
    {
        Opcode::Stop
    }
}

/// A message sent to a node, relaying a voice state update received from
/// Discord.
#[derive(Clone, Debug)]
pub struct VoiceUpdate {
    /// The event data for the voice update.
    pub event: VoiceUpdateEvent,
    /// The guild which an update was dispatched for.
    pub guild_id: String,
    /// The session ID for the voice session.
    pub session_id: String,
}

impl VoiceUpdate {
    /// Creates a new voice update message; its event names the same guild.
    pub fn new(session_id: String, guild_id: String, token: String, endpoint: String) -> (r: Self)
        ensures
            r.session_id == session_id,
            r.guild_id@ == guild_id@,
            r.event.guild_id@ == guild_id@,
            r.event.token == token,
            r.event.endpoint == endpoint,
    {
        let event = VoiceUpdateEvent::new(endpoint, guild_id.clone(), token);
        VoiceUpdate { event, guild_id, session_id }
    }

    /// Retrieves the opcode for the message.
    pub fn opcode(&self) -> (r: Opcode)
        ensures
            r == Opcode::VoiceUpdate,
    {
        Opcode::VoiceUpdate
    }
}

/// Additional event data for a `VoiceUpdate`.
#[derive(Clone, Debug)]
pub struct VoiceUpdateEvent {
    /// The endpoint of the voice state.
    pub endpoint: String,
    /// The guild which an update was dispatched for.
    pub guild_id: String,
    /// The token.
    pub token: String,
}

impl VoiceUpdateEvent {
    /// Creates a new voice update event.
    pub fn new(endpoint: String, guild_id: String, token: String) -> (r: Self)
        ensures
            r.endpoint == endpoint,
            r.guild_id == guild_id,
            r.token == token,
    {
        VoiceUpdateEvent { endpoint, guild_id, token }
    }
}

/// A message sent to a node to set the volume of a guild's player.
///
/// The volume is set in place, not added to the current setting.
#[derive(Clone, Debug)]
pub struct Volume {
    /// The ID of the guild whose player's volume is set.
    pub guild_id: String,
    /// The new volume setting to use.
    pub volume: i32,
}

impl Volume {
    /// Creates a new message to set a guild's volume.
    pub fn new(guild_id: String, volume: i32) -> (r: Self)
        ensures
            r.guild_id == guild_id,
            r.volume == volume,
    {
        Volume { guild_id, volume }
    }

    /// Retrieves the opcode for the message.
    pub fn opcode(&self) -> (r: Opcode)
        ensures
            r == Opcode::Volume,
    {
        Opcode::Volume
    }
}

/// A time as a `Play` message carries it on the wire: 0 when absent.
pub fn time_or_zero(time: Option<u64>) -> (r: u64)
    ensures
        r == match time {
            Some(t) => t,
            None => 0,
        },
{
    match time {
        Some(t) => t,
        None => 0,
    }
}

/// An outgoing message to the node.
#[derive(Clone, Debug)]
pub enum OutgoingMessage {
    Destroy(Destroy),
    Pause(Pause),
    Play(Play),
    Seek(Seek),
    Stop(Stop),
    VoiceUpdate(VoiceUpdate),
    Volume(Volume),
}

} // verus!
