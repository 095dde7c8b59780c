use vstd::prelude::*;

verus! {

/// Maximum video height requested from the stream resolver.
#[derive(Debug, Clone, Copy, PartialEq, Eq, Structural)]
pub enum PlaybackQuality {
    P720,
    P1080,
}

pub open spec fn quality_toggle_spec(q: PlaybackQuality) -> PlaybackQuality {
    match q {
        PlaybackQuality::P720 => PlaybackQuality::P1080,
        PlaybackQuality::P1080 => PlaybackQuality::P720,
    }
}

pub open spec fn quality_label_spec(q: PlaybackQuality) -> Seq<char> {
    match q {
        PlaybackQuality::P720 => "720p"@,
        PlaybackQuality::P1080 => "1080p"@,
    }
}

pub open spec fn quality_format_spec(q: PlaybackQuality) -> Seq<char> {
    match q {
        PlaybackQuality::P720 => "bestvideo[vcodec!*=av01][height<=720]+bestaudio/best[height<=720]/best"@,
        PlaybackQuality::P1080 => "bestvideo[vcodec!*=av01][height<=1080]+bestaudio/best[height<=1080]/best"@,
    }
}

impl PlaybackQuality {
    /// The other quality.
    pub fn toggle(self) -> (r: Self)
        ensures
            r == quality_toggle_spec(self),
            r != self,
    {
        match self {
            PlaybackQuality::P720 => PlaybackQuality::P1080,
            PlaybackQuality::P1080 => PlaybackQuality::P720,
        }
    }

    /// Display name: `720p` or `1080p`.
    pub fn label(self) -> (r: &'static str)
        ensures
            r@ == quality_label_spec(self),
    {
        match self {
            PlaybackQuality::P720 => "720p",
            PlaybackQuality::P1080 => "1080p",
        }
    }

    /// Format selector handed to the stream resolver: best non-AV1 video up
    /// to the quality's height plus best audio, with fallbacks.
    pub fn ytdl_format(self) -> (r: &'static str)
        ensures
            r@ == quality_format_spec(self),
    {
        match self {
            PlaybackQuality::P720 => "bestvideo[vcodec!*=av01][height<=720]+bestaudio/best[height<=720]/best",
            PlaybackQuality::P1080 => "bestvideo[vcodec!*=av01][height<=1080]+bestaudio/best[height<=1080]/best",
        }
    }
}

/// Toggling the playback quality twice gives back the quality one started
/// from.
pub proof fn lemma_quality_toggle_involution(q: PlaybackQuality)
    ensures
        quality_toggle_spec(quality_toggle_spec(q)) == q,
{
}

/// Whether the player shows video or plays sound only.
#[derive(Debug, Clone, Copy, PartialEq, Eq, Structural)]
pub enum PlayMode {
    Video,
    AudioOnly,
}

/// What is being played, so it can be resumed or reloaded.
#[derive(Debug, PartialEq, Eq)]
pub struct PlaybackSession {
    pub url: String,
    pub mode: PlayMode,
}

impl Clone for PlaybackSession {
    fn clone(&self) -> (r: Self)
        ensures
            r == *self,
    {
        PlaybackSession { url: self.url.clone(), mode: self.mode }
    }
}

/// What the player reports about the current media. The three numbers are
/// the bit patterns of the player's `f64` values (seconds, seconds, percent).
#[derive(Debug, PartialEq, Eq)]
pub struct PlayerInfo {
    pub title: String,
    pub time_pos_bits: u64,
    pub duration_bits: u64,
    pub volume_bits: u64,
}

impl Clone for PlayerInfo {
    fn clone(&self) -> (r: Self)
        ensures
            r == *self,
    {
        PlayerInfo {
            title: self.title.clone(),
            time_pos_bits: self.time_pos_bits,
            duration_bits: self.duration_bits,
            volume_bits: self.volume_bits,
        }
    }
}

#[derive(Debug, PartialEq, Eq)]
pub enum PlayerState {
    Stopped,
    Playing(PlayerInfo),
    Paused(PlayerInfo),
}

impl Clone for PlayerState {
    fn clone(&self) -> (r: Self)
        ensures
            r == *self,
    {
        match self {
            PlayerState::Stopped => PlayerState::Stopped,
            PlayerState::Playing(i) => PlayerState::Playing(i.clone()),
            PlayerState::Paused(i) => PlayerState::Paused(i.clone()),
        }
    }
}

/// The bit pattern of the `f64` value 100.0, the volume assumed when the
/// player does not report one.
pub const FULL_VOLUME_BITS: u64 = 0x4059_0000_0000_0000;

impl PlayerState {
    /// The state of a running player from the properties it answered:
    /// `Paused` when it reports that it is paused, `Playing` otherwise.
    /// A property it did not answer counts as not paused, position and
    /// duration 0.0, an empty title and volume 100.0.
    pub fn from_properties(
        paused: Option<bool>,
        time_pos_bits: Option<u64>,
        duration_bits: Option<u64>,
        title: Option<String>,
        volume_bits: Option<u64>,
    ) -> (r: PlayerState)
        ensures
            match r {
                PlayerState::Paused(info) | PlayerState::Playing(info) => {
                    &&& (r is Paused <==> paused == Some(true))
                    &&& info.time_pos_bits == (match time_pos_bits {
                        Some(b) => b,
                        None => 0,
                    })
                    &&& info.duration_bits == (match duration_bits {
                        Some(b) => b,
                        None => 0,
                    })
                    &&& info.volume_bits == (match volume_bits {
                        Some(b) => b,
                        None => FULL_VOLUME_BITS,
                    })
                    &&& info.title@ == (match title {
                        Some(t) => t@,
                        None => Seq::<char>::empty(),
                    })
                },
                PlayerState::Stopped => false,
            },
    {
        let info = PlayerInfo {
            title: match title {
                Some(t) => t,
                None => String::new(),
            },
            time_pos_bits: match time_pos_bits {
                Some(b) => b,
                None => 0,
            },
            duration_bits: match duration_bits {
                Some(b) => b,
                None => 0,
            },
            volume_bits: match volume_bits {
                Some(b) => b,
                None => FULL_VOLUME_BITS,
            },
        };
        match paused {
            Some(true) => PlayerState::Paused(info),
            _ => PlayerState::Playing(info),
        }
    }
}

} // verus!
