//! The state of a guild's audio player, and the messages that change it.
//!
//! Each command first builds its message; once the message was sent, the
//! matching `*_sent` method records its effect.
use vstd::prelude::*;
use vstd::string::StringExecFns;

use crate::model::{Pause, Play, Stop, Volume};

verus! {

/// The volume a new player starts at.
pub const DEFAULT_VOLUME: i32 = 100;

pub open spec fn digit_char(d: nat) -> char {
    (d + 48) as u8 as char
}

/// `n` in decimal, without leading zeros.
pub open spec fn decimal(n: nat) -> Seq<char>
    decreases n,
{
    if n < 10 {
        seq![digit_char(n)]
    } else {
        decimal(n / 10).push(digit_char(n % 10))
    }
}

/// Relies on `u64`'s `to_string`: the number in decimal, without leading
/// zeros.
#[verifier::external_body]
fn decimal_string(n: u64) -> (r: String)
    ensures
        r@ == decimal(n as nat),
{
    n.to_string()
}

/// What the client knows of a guild's player.
#[derive(Clone, Debug)]
pub struct PlayerState {
    pub guild_id: u64,
    pub track: Option<String>,
    pub time: i64,
    pub position: i64,
    pub paused: bool,
    pub volume: i32,
}

impl PlayerState {
    /// A player that plays nothing, unpaused, at the default volume.
    pub fn new(guild_id: u64) -> (r: Self)
        ensures
            r.guild_id == guild_id,
            r.track is None,
            r.time == 0,
            r.position == 0,
            !r.paused,
            r.volume == DEFAULT_VOLUME,
    {
        PlayerState { guild_id, track: None, time: 0, position: 0, paused: false, volume: DEFAULT_VOLUME }
    }

    /// The message that plays `track` on this player.
    pub fn play_message(&self, track: String, start_time: Option<u64>, end_time: Option<u64>) -> (r:
        Play)
        ensures
            r.guild_id@ == decimal(self.guild_id as nat),
            r.track == track,
            r.start_time == start_time,
            r.end_time == end_time,
            !r.no_replace,
    {
        Play::new(decimal_string(self.guild_id), track, start_time, end_time)
    }

    /// Records that `track` was sent to play.
    pub fn play_sent(&mut self, track: String)
        ensures
            *final(self) == (PlayerState { track: Some(track), ..*old(self) }),
    {
        self.track = Some(track);
    }

    /// The message that stops this player.
    pub fn stop_message(&self) -> (r: Stop)
        ensures
            r.guild_id@ == decimal(self.guild_id as nat),
    {
        Stop::new(decimal_string(self.guild_id))
    }

    /// Records that the player was stopped; returns the track that ended,
    /// or a note that none was known.
    pub fn stop_sent(&mut self) -> (ended: String)
        ensures
            *final(self) == (PlayerState { track: None, ..*old(self) }),
            ended@ == match old(self).track {
                Some(t) => t@,
                None => "no track in state"@,
            },
    {
        let ended = match self.track.take() {
            Some(t) => t,
            None => String::from_str("no track in state"),
        };
        ended
    }

    /// The message that pauses or resumes this player.
    pub fn pause_message(&self, pause: bool) -> (r: Pause)
        ensures
            r.guild_id@ == decimal(self.guild_id as nat),
            r.pause == pause,
    {
        Pause::new(decimal_string(self.guild_id), pause)
    }

    /// Records that the player was paused or resumed.
    pub fn pause_sent(&mut self, pause: bool)
        ensures
            *final(self) == (PlayerState { paused: pause, ..*old(self) }),
    {
        self.paused = pause;
    }

    /// The message that sets this player's volume.
    pub fn volume_message(&self, volume: i32) -> (r: Volume)
        ensures
            r.guild_id@ == decimal(self.guild_id as nat),
            r.volume == volume,
    {
        Volume::new(decimal_string(self.guild_id), volume)
    }

    /// Records that the volume was set.
    pub fn volume_sent(&mut self, volume: i32)
        ensures
            *final(self) == (PlayerState { volume, ..*old(self) }),
    {
        self.volume = volume;
    }
}

} // verus!
