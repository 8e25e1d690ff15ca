use vstd::prelude::*;

use crate::text::{chars_of, same};

verus! {

/// The bus name prefix of every MPRIS player.
pub const MPRIS_PREFIX: &'static str = "org.mpris.MediaPlayer2.";

/// The object path of every MPRIS player.
pub const MPRIS_PATH: &'static str = "/org/mpris/MediaPlayer2";

/// A player's `PlaybackStatus` property.
#[derive(Clone, Copy, Debug, PartialEq, Eq, Hash, Structural)]
pub enum PlaybackStatus {
    Stopped,
    Playing,
    Paused,
}

impl Default for PlaybackStatus {
    fn default() -> (r: Self)
        ensures
            r == PlaybackStatus::Stopped,
    {
        PlaybackStatus::Stopped
    }
}

impl PlaybackStatus {
    /// The name MPRIS uses for the status.
    pub open spec fn name(self) -> Seq<char> {
        match self {
            PlaybackStatus::Playing => "Playing"@,
            PlaybackStatus::Paused => "Paused"@,
            PlaybackStatus::Stopped => "Stopped"@,
        }
    }

    /// The status a name stands for; any unknown name means stopped.
    pub open spec fn of_name(s: Seq<char>) -> Self {
        if s == "Playing"@ {
            PlaybackStatus::Playing
        } else if s == "Paused"@ {
            PlaybackStatus::Paused
        } else {
            PlaybackStatus::Stopped
        }
    }

    pub fn as_str(&self) -> (r: &'static str)
        ensures
            r@ == self.name(),
    {
        match self {
            PlaybackStatus::Playing => "Playing",
            PlaybackStatus::Paused => "Paused",
            PlaybackStatus::Stopped => "Stopped",
        }
    }

    /// Reads a status name (the `FromStr` of the type, which never fails).
    pub fn from_name(s: &str) -> (r: Self)
        ensures
            r == Self::of_name(s@),
    {
        let v = chars_of(s);
        if same(v.as_slice(), chars_of("Playing").as_slice()) {
            PlaybackStatus::Playing
        } else if same(v.as_slice(), chars_of("Paused").as_slice()) {
            PlaybackStatus::Paused
        } else {
            PlaybackStatus::Stopped
        }
    }
}

/// A player's `LoopStatus` property.
#[derive(Clone, Copy, Debug, PartialEq, Eq, Hash, Structural)]
pub enum LoopStatus {
    NoLoop,
    Track,
    Playlist,
}

impl Default for LoopStatus {
    fn default() -> (r: Self)
        ensures
            r == LoopStatus::NoLoop,
    {
        LoopStatus::NoLoop
    }
}

impl LoopStatus {
    /// The name MPRIS uses for the status.
    pub open spec fn name(self) -> Seq<char> {
        match self {
            LoopStatus::NoLoop => "None"@,
            LoopStatus::Track => "Track"@,
            LoopStatus::Playlist => "Playlist"@,
        }
    }

    /// The status a name stands for; any unknown name means no looping.
    pub open spec fn of_name(s: Seq<char>) -> Self {
        if s == "Track"@ {
            LoopStatus::Track
        } else if s == "Playlist"@ {
            LoopStatus::Playlist
        } else {
            LoopStatus::NoLoop
        }
    }

    pub fn as_str(&self) -> (r: &'static str)
        ensures
            r@ == self.name(),
    {
        match self {
            LoopStatus::NoLoop => "None",
            LoopStatus::Track => "Track",
            LoopStatus::Playlist => "Playlist",
        }
    }

    /// Reads a status name (the `FromStr` of the type, which never fails).
    pub fn from_name(s: &str) -> (r: Self)
        ensures
            r == Self::of_name(s@),
    {
        let v = chars_of(s);
        if same(v.as_slice(), chars_of("Track").as_slice()) {
            LoopStatus::Track
        } else if same(v.as_slice(), chars_of("Playlist").as_slice()) {
            LoopStatus::Playlist
        } else {
            LoopStatus::NoLoop
        }
    }
}

impl std::str::FromStr for PlaybackStatus {
    type Err = std::convert::Infallible;

    fn from_str(s: &str) -> (r: Result<Self, Self::Err>)
        ensures
            r matches Ok(v) && v == PlaybackStatus::of_name(s@),
    {
        Ok(PlaybackStatus::from_name(s))
    }
}

impl std::str::FromStr for LoopStatus {
    type Err = std::convert::Infallible;

    fn from_str(s: &str) -> (r: Result<Self, Self::Err>)
        ensures
            r matches Ok(v) && v == LoopStatus::of_name(s@),
    {
        Ok(LoopStatus::from_name(s))
    }
}


/// Reading back a status's name gives the status.
pub proof fn law_playback_status_roundtrip(s: PlaybackStatus)
    ensures
        PlaybackStatus::of_name(s.name()) == s,
{
    reveal_strlit("Playing");
    reveal_strlit("Paused");
    reveal_strlit("Stopped");
    assert("Paused"@[1] != "Playing"@[1]);
    assert("Stopped"@[0] != "Playing"@[0]);
    assert("Stopped"@[0] != "Paused"@[0]);
}

/// Reading back a loop status's name gives the loop status.
pub proof fn law_loop_status_roundtrip(s: LoopStatus)
    ensures
        LoopStatus::of_name(s.name()) == s,
{
    reveal_strlit("None");
    reveal_strlit("Track");
    reveal_strlit("Playlist");
    assert("None"@[0] != "Track"@[0]);
    assert("None"@[0] != "Playlist"@[0]);
    assert("Playlist"@[0] != "Track"@[0]);
}

} // verus!
