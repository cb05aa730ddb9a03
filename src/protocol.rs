use vstd::prelude::*;

verus! {

/// One message to the player actor.
///
/// Floating-point quantities (seconds, volume) travel as the IEEE-754 bit
/// pattern of an `f64`: the actor passes them on and never computes with them.
pub enum PlayerCommand {
    Load { url: String, start_time: Option<u64> },
    PauseToggle,
    Stop,
    SeekRelative { seconds: u64 },
    SeekAbsolute { seconds: u64 },
    SetVolume { volume: u64 },
    GetVolume,
    Position,
    Duration,
    CycleAudio,
    CycleSubtitle,
    ToggleSubtitleVisibility,
    SetAudioTrack { track_id: i64 },
    SetSubtitleTrack { track_id: i64 },
    Screenshot { file: String, include_subs: bool },
}

/// The queries: messages whose sender waits for a reply.
pub open spec fn is_query_spec(c: PlayerCommand) -> bool {
    c is GetVolume || c is Position || c is Duration
}

impl PlayerCommand {
    /// Whether the sender of this message waits for a reply.
    pub fn is_query(&self) -> (r: bool)
        ensures
            r == is_query_spec(*self),
    {
        match self {
            PlayerCommand::GetVolume | PlayerCommand::Position | PlayerCommand::Duration => true,
            _ => false,
        }
    }

    /// The word that names this operation in diagnostics.
    pub fn label(&self) -> (r: &'static str)
        ensures
            r@ == label_spec(*self),
    {
        match self {
            PlayerCommand::Load { .. } => "load",
            PlayerCommand::PauseToggle => "pause",
            PlayerCommand::Stop => "stop",
            PlayerCommand::SeekRelative { .. } => "seek rel",
            PlayerCommand::SeekAbsolute { .. } => "seek abs",
            PlayerCommand::SetVolume { .. } => "volume",
            PlayerCommand::GetVolume => "get volume",
            PlayerCommand::Position => "position",
            PlayerCommand::Duration => "duration",
            PlayerCommand::CycleAudio => "cycle audio",
            PlayerCommand::CycleSubtitle => "cycle sub",
            PlayerCommand::ToggleSubtitleVisibility => "toggle sub vis",
            PlayerCommand::SetAudioTrack { .. } => "set aid",
            PlayerCommand::SetSubtitleTrack { .. } => "set sid",
            PlayerCommand::Screenshot { .. } => "screenshot",
        }
    }
}

/// The diagnostic word of each operation.
pub open spec fn label_spec(c: PlayerCommand) -> Seq<char> {
    match c {
        PlayerCommand::Load { .. } => "load"@,
        PlayerCommand::PauseToggle => "pause"@,
        PlayerCommand::Stop => "stop"@,
        PlayerCommand::SeekRelative { .. } => "seek rel"@,
        PlayerCommand::SeekAbsolute { .. } => "seek abs"@,
        PlayerCommand::SetVolume { .. } => "volume"@,
        PlayerCommand::GetVolume => "get volume"@,
        PlayerCommand::Position => "position"@,
        PlayerCommand::Duration => "duration"@,
        PlayerCommand::CycleAudio => "cycle audio"@,
        PlayerCommand::CycleSubtitle => "cycle sub"@,
        PlayerCommand::ToggleSubtitleVisibility => "toggle sub vis"@,
        PlayerCommand::SetAudioTrack { .. } => "set aid"@,
        PlayerCommand::SetSubtitleTrack { .. } => "set sid"@,
        PlayerCommand::Screenshot { .. } => "screenshot"@,
    }
}

} // verus!
