use vstd::prelude::*;
use crate::protocol::PlayerCommand;

verus! {

/// A boolean engine property that the binding reads and writes.
#[derive(Clone, Copy, PartialEq, Eq, Structural, Debug)]
pub enum Flag {
    Pause,
    SubVisibility,
}

/// A kind of track that can be cycled or selected.
#[derive(Clone, Copy, PartialEq, Eq, Structural, Debug)]
pub enum Track {
    Audio,
    Subtitle,
}

/// One primitive request that the binding makes of the engine.
#[derive(Debug)]
pub enum EngineCall {
    SetStart(u64),
    LoadFile(String),
    GetFlag(Flag),
    SetFlag(Flag, bool),
    StopPlayback,
    SeekRelative(u64),
    SetTimePos(u64),
    GetTimePos,
    GetDuration,
    SetVolume(u64),
    GetVolume,
    CycleTrack(Track),
    SetTrack(Track, i64),
    Screenshot(String, bool),
}

/// Why the engine refused an operation.
#[derive(Clone, Copy, PartialEq, Eq, Structural, Debug)]
pub enum EngineError {
    /// The operation needs loaded media and there is none.
    NoMedia,
}

/// What a successful operation hands back.
#[derive(Clone, Copy, PartialEq, Eq, Structural, Debug)]
pub enum Reply {
    /// A command completed.
    Done,
    /// A query's answer, as the bit pattern of an `f64`.
    Value(u64),
}

/// The observable state of a recording engine.
pub struct EngineState {
    pub media: Option<String>,
    pub paused: bool,
    pub sub_visible: bool,
    pub volume: u64,
    pub start: Option<u64>,
    pub time_pos: u64,
    pub duration: u64,
    pub audio_track: i64,
    pub subtitle_track: i64,
    pub calls: Seq<EngineCall>,
}

/// An engine binding that keeps its state in memory and records every
/// primitive request made of it, in order.
pub struct RecordingEngine {
    pub media: Option<String>,
    pub paused: bool,
    pub sub_visible: bool,
    pub volume: u64,
    pub start: Option<u64>,
    pub time_pos: u64,
    pub duration: u64,
    pub audio_track: i64,
    pub subtitle_track: i64,
    pub calls: Vec<EngineCall>,
}

impl View for RecordingEngine {
    type V = EngineState;

    open spec fn view(&self) -> EngineState {
        EngineState {
            media: self.media,
            paused: self.paused,
            sub_visible: self.sub_visible,
            volume: self.volume,
            start: self.start,
            time_pos: self.time_pos,
            duration: self.duration,
            audio_track: self.audio_track,
            subtitle_track: self.subtitle_track,
            calls: self.calls@,
        }
    }
}

/// Records one call, with no other change.
pub open spec fn record(s: EngineState, c: EngineCall) -> EngineState {
    EngineState { calls: s.calls.push(c), ..s }
}

/// Refuses an operation that needs media when none is loaded, after recording
/// the call that was attempted.
pub open spec fn needs_media(
    s: EngineState,
    attempted: EngineCall,
    done: EngineState,
    r: Reply,
) -> (EngineState, Result<Reply, EngineError>) {
    if s.media is None {
        (record(s, attempted), Err(EngineError::NoMedia))
    } else {
        (done, Ok(r))
    }
}

/// What one command does to the engine and what it answers.
///
/// `load` sets the start offset (if one is given) before it plays the source;
/// `pause_toggle` reads the pause flag and writes its negation, with or without
/// media, as the flag is always readable; `stop` stops
/// and then clears the pause flag; seeks, position, duration, track cycling
/// and screenshots need loaded media; volume and track selection are stored
/// as given.
pub open spec fn apply(s: EngineState, c: PlayerCommand) -> (EngineState, Result<Reply, EngineError>) {
    match c {
        PlayerCommand::Load { url, start_time } => {
            let s1 = match start_time {
                Some(t) => EngineState { start: Some(t), ..record(s, EngineCall::SetStart(t)) },
                None => s,
            };
            let pos = match s1.start { Some(t) => t, None => 0u64 };
            (
                EngineState { media: Some(url), time_pos: pos, ..record(s1, EngineCall::LoadFile(url)) },
                Ok(Reply::Done),
            )
        },
        PlayerCommand::PauseToggle => {
            let read = record(s, EngineCall::GetFlag(Flag::Pause));
            (
                EngineState { paused: !s.paused, ..record(read, EngineCall::SetFlag(Flag::Pause, !s.paused)) },
                Ok(Reply::Done),
            )
        },
        PlayerCommand::Stop => {
            let stopped = EngineState { media: None, ..record(s, EngineCall::StopPlayback) };
            (
                EngineState { paused: false, ..record(stopped, EngineCall::SetFlag(Flag::Pause, false)) },
                Ok(Reply::Done),
            )
        },
        PlayerCommand::SeekRelative { seconds } => {
            let call = EngineCall::SeekRelative(seconds);
            needs_media(s, call, record(s, call), Reply::Done)
        },
        PlayerCommand::SeekAbsolute { seconds } => {
            let call = EngineCall::SetTimePos(seconds);
            needs_media(s, call, EngineState { time_pos: seconds, ..record(s, call) }, Reply::Done)
        },
        PlayerCommand::SetVolume { volume } => {
            (EngineState { volume: volume, ..record(s, EngineCall::SetVolume(volume)) }, Ok(Reply::Done))
        },
        PlayerCommand::GetVolume => {
            (record(s, EngineCall::GetVolume), Ok(Reply::Value(s.volume)))
        },
        PlayerCommand::Position => {
            let call = EngineCall::GetTimePos;
            needs_media(s, call, record(s, call), Reply::Value(s.time_pos))
        },
        PlayerCommand::Duration => {
            let call = EngineCall::GetDuration;
            needs_media(s, call, record(s, call), Reply::Value(s.duration))
        },
        PlayerCommand::CycleAudio => {
            let call = EngineCall::CycleTrack(Track::Audio);
            needs_media(s, call, record(s, call), Reply::Done)
        },
        PlayerCommand::CycleSubtitle => {
            let call = EngineCall::CycleTrack(Track::Subtitle);
            needs_media(s, call, record(s, call), Reply::Done)
        },
        PlayerCommand::ToggleSubtitleVisibility => {
            let read = record(s, EngineCall::GetFlag(Flag::SubVisibility));
            (
                EngineState {
                    sub_visible: !s.sub_visible,
                    ..record(read, EngineCall::SetFlag(Flag::SubVisibility, !s.sub_visible))
                },
                Ok(Reply::Done),
            )
        },
        PlayerCommand::SetAudioTrack { track_id } => {
            (
                EngineState { audio_track: track_id, ..record(s, EngineCall::SetTrack(Track::Audio, track_id)) },
                Ok(Reply::Done),
            )
        },
        PlayerCommand::SetSubtitleTrack { track_id } => {
            (
                EngineState {
                    subtitle_track: track_id,
                    ..record(s, EngineCall::SetTrack(Track::Subtitle, track_id))
                },
                Ok(Reply::Done),
            )
        },
        PlayerCommand::Screenshot { file, include_subs } => {
            let call = EngineCall::Screenshot(file, include_subs);
            needs_media(s, call, record(s, call), Reply::Done)
        },
    }
}

impl RecordingEngine {
    /// A fresh engine: nothing loaded, unpaused, subtitles shown, no calls yet.
    pub fn new(volume: u64, duration: u64) -> (r: RecordingEngine)
        ensures
            r@.media is None,
            !r@.paused,
            r@.sub_visible,
            r@.volume == volume,
            r@.start is None,
            r@.time_pos == 0,
            r@.duration == duration,
            r@.audio_track == 0,
            r@.subtitle_track == 0,
            r@.calls.len() == 0,
    {
        RecordingEngine {
            media: None,
            paused: false,
            sub_visible: true,
            volume,
            start: None,
            time_pos: 0,
            duration,
            audio_track: 0,
            subtitle_track: 0,
            calls: Vec::new(),
        }
    }

    fn require_media(&mut self, attempted: EngineCall) -> (r: Result<(), EngineError>)
        ensures
            old(self).media is None ==> r == Err::<(), EngineError>(EngineError::NoMedia)
                && final(self)@ == record(old(self)@, attempted),
            old(self).media is Some ==> r is Ok && final(self)@ == old(self)@,
    {
        if self.media.is_none() {
            self.calls.push(attempted);
            Err(EngineError::NoMedia)
        } else {
            Ok(())
        }
    }

    /// Executes one command against this engine.
    pub fn execute(&mut self, cmd: PlayerCommand) -> (r: Result<Reply, EngineError>)
        ensures
            (final(self)@, r) == apply(old(self)@, cmd),
    {
        match cmd {
            PlayerCommand::Load { url, start_time } => {
                if let Some(t) = start_time {
                    self.calls.push(EngineCall::SetStart(t));
                    self.start = Some(t);
                }
                self.time_pos = match self.start { Some(t) => t, None => 0 };
                self.media = Some(url.clone());
                self.calls.push(EngineCall::LoadFile(url));
                Ok(Reply::Done)
            },
            PlayerCommand::PauseToggle => {
                self.calls.push(EngineCall::GetFlag(Flag::Pause));
                let paused = !self.paused;
                self.calls.push(EngineCall::SetFlag(Flag::Pause, paused));
                self.paused = paused;
                Ok(Reply::Done)
            },
            PlayerCommand::Stop => {
                self.calls.push(EngineCall::StopPlayback);
                self.media = None;
                self.calls.push(EngineCall::SetFlag(Flag::Pause, false));
                self.paused = false;
                Ok(Reply::Done)
            },
            PlayerCommand::SeekRelative { seconds } => {
                self.require_media(EngineCall::SeekRelative(seconds))?;
                self.calls.push(EngineCall::SeekRelative(seconds));
                Ok(Reply::Done)
            },
            PlayerCommand::SeekAbsolute { seconds } => {
                self.require_media(EngineCall::SetTimePos(seconds))?;
                self.calls.push(EngineCall::SetTimePos(seconds));
                self.time_pos = seconds;
                Ok(Reply::Done)
            },
            PlayerCommand::SetVolume { volume } => {
                self.calls.push(EngineCall::SetVolume(volume));
                self.volume = volume;
                Ok(Reply::Done)
            },
            PlayerCommand::GetVolume => {
                self.calls.push(EngineCall::GetVolume);
                Ok(Reply::Value(self.volume))
            },
            PlayerCommand::Position => {
                self.require_media(EngineCall::GetTimePos)?;
                self.calls.push(EngineCall::GetTimePos);
                Ok(Reply::Value(self.time_pos))
            },
            PlayerCommand::Duration => {
                self.require_media(EngineCall::GetDuration)?;
                self.calls.push(EngineCall::GetDuration);
                Ok(Reply::Value(self.duration))
            },
            PlayerCommand::CycleAudio => {
                self.require_media(EngineCall::CycleTrack(Track::Audio))?;
                self.calls.push(EngineCall::CycleTrack(Track::Audio));
                Ok(Reply::Done)
            },
            PlayerCommand::CycleSubtitle => {
                self.require_media(EngineCall::CycleTrack(Track::Subtitle))?;
                self.calls.push(EngineCall::CycleTrack(Track::Subtitle));
                Ok(Reply::Done)
            },
            PlayerCommand::ToggleSubtitleVisibility => {
                self.calls.push(EngineCall::GetFlag(Flag::SubVisibility));
                let vis = !self.sub_visible;
                self.calls.push(EngineCall::SetFlag(Flag::SubVisibility, vis));
                self.sub_visible = vis;
                Ok(Reply::Done)
            },
            PlayerCommand::SetAudioTrack { track_id } => {
                self.calls.push(EngineCall::SetTrack(Track::Audio, track_id));
                self.audio_track = track_id;
                Ok(Reply::Done)
            },
            PlayerCommand::SetSubtitleTrack { track_id } => {
                self.calls.push(EngineCall::SetTrack(Track::Subtitle, track_id));
                self.subtitle_track = track_id;
                Ok(Reply::Done)
            },
            PlayerCommand::Screenshot { file, include_subs } => {
                self.require_media(EngineCall::Screenshot(file.clone(), include_subs))?;
                self.calls.push(EngineCall::Screenshot(file, include_subs));
                Ok(Reply::Done)
            },
        }
    }
}

} // verus!
