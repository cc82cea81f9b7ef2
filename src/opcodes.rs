//! A collection of opcodes for use between the lavalink client and server.
use vstd::prelude::*;
use vstd::string::StringExecFns;

verus! {

/// An opcode used to indicate the type of message received.
#[derive(Clone, Copy, Debug, PartialEq, Eq, Structural, PartialOrd, Ord, Hash)]
pub enum Opcode {
    /// Destroys a player for a guild. Sent by the client.
    Destroy,
    /// Sets the equalizer bands of a guild's player. Sent by the client.
    Equalizer,
    /// Indicates that the server emitted an event. Sent by the server.
    Event,
    /// Sets the pause state of a guild's player. Sent by the client.
    Pause,
    /// Causes the player to play a track. Sent by the client.
    Play,
    /// Includes information about the position of a player. Sent by the server.
    PlayerUpdate,
    /// Makes the player seek to a position of the track. Sent by the client.
    Seek,
    /// A set of statistics collected once a minute. Sent by the server.
    Stats,
    /// Causes a guild's player to stop. Sent by the client.
    Stop,
    /// An unknown opcode.
    Unknown,
    /// A voice state update received from Discord to be forwarded. Sent by
    /// the client.
    VoiceUpdate,
    /// Sets the player volume, on a scale of 1 to 150 (default 100). Sent by
    /// the client.
    Volume,
}

/// The name of an opcode on the wire.
pub open spec fn opcode_name(op: Opcode) -> Seq<char> {
    match op {
        Opcode::Destroy => "destroy"@,
        Opcode::Equalizer => "equalizer"@,
        Opcode::Event => "event"@,
        Opcode::Pause => "pause"@,
        Opcode::Play => "play"@,
        Opcode::PlayerUpdate => "playerUpdate"@,
        Opcode::Seek => "seek"@,
        Opcode::Stats => "stats"@,
        Opcode::Stop => "stop"@,
        Opcode::Unknown => "unknown"@,
        Opcode::VoiceUpdate => "voiceUpdate"@,
        Opcode::Volume => "volume"@,
    }
}

/// The opcode a wire name stands for; any other text, `"unknown"` too, is
/// `Err(Unknown)`.
pub open spec fn opcode_named(s: Seq<char>) -> Result<Opcode, Opcode> {
    if s == "destroy"@ {
        Ok(Opcode::Destroy)
    } else if s == "equalizer"@ {
        Ok(Opcode::Equalizer)
    } else if s == "voiceUpdate"@ {
        Ok(Opcode::VoiceUpdate)
    } else if s == "play"@ {
        Ok(Opcode::Play)
    } else if s == "stop"@ {
        Ok(Opcode::Stop)
    } else if s == "pause"@ {
        Ok(Opcode::Pause)
    } else if s == "seek"@ {
        Ok(Opcode::Seek)
    } else if s == "volume"@ {
        Ok(Opcode::Volume)
    } else if s == "playerUpdate"@ {
        Ok(Opcode::PlayerUpdate)
    } else if s == "stats"@ {
        Ok(Opcode::Stats)
    } else if s == "event"@ {
        Ok(Opcode::Event)
    } else {
        Err(Opcode::Unknown)
    }
}

impl Opcode {
    /// The opcode's name on the wire.
    pub fn to_string(&self) -> (r: String)
        ensures
            r@ == opcode_name(*self),
    {
        let name = match self {
            Opcode::Destroy => "destroy",
            Opcode::Equalizer => "equalizer",
            Opcode::Event => "event",
            Opcode::Pause => "pause",
            Opcode::Play => "play",
            Opcode::PlayerUpdate => "playerUpdate",
            Opcode::Seek => "seek",
            Opcode::Stats => "stats",
            Opcode::Stop => "stop",
            Opcode::Unknown => "unknown",
            Opcode::VoiceUpdate => "voiceUpdate",
            Opcode::Volume => "volume",
        };
        String::from_str(name)
    }

    /// The opcode named `s`, or `Err(Unknown)` for any other text.
    pub fn from_name(s: &str) -> (r: Result<Opcode, Opcode>)
        ensures
            r == opcode_named(s@),
    {
        let s = String::from_str(s);
        if s == String::from_str("destroy") {
            Ok(Opcode::Destroy)
        } else if s == String::from_str("equalizer") {
            Ok(Opcode::Equalizer)
        } else if s == String::from_str("voiceUpdate") {
            Ok(Opcode::VoiceUpdate)
        } else if s == String::from_str("play") {
            Ok(Opcode::Play)
        } else if s == String::from_str("stop") {
            Ok(Opcode::Stop)
        } else if s == String::from_str("pause") {
            Ok(Opcode::Pause)
        } else if s == String::from_str("seek") {
            Ok(Opcode::Seek)
        } else if s == String::from_str("volume") {
            Ok(Opcode::Volume)
        } else if s == String::from_str("playerUpdate") {
            Ok(Opcode::PlayerUpdate)
        } else if s == String::from_str("stats") {
            Ok(Opcode::Stats)
        } else if s == String::from_str("event") {
            Ok(Opcode::Event)
        } else {
            Err(Opcode::Unknown)
        }
    }
}

impl core::str::FromStr for Opcode {
    type Err = Opcode;

    fn from_str(s: &str) -> Result<Opcode, Opcode> {
        Opcode::from_name(s)
    }
}

} // verus!
