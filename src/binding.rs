use vstd::prelude::*;
use crate::engine::{Flag, Track};
use crate::protocol::PlayerCommand;

verus! {

/// The engine property behind a flag.
pub open spec fn flag_property_spec(f: Flag) -> Seq<char> {
    match f {
        Flag::Pause => "pause"@,
        Flag::SubVisibility => "sub-visibility"@,
    }
}

/// The engine property that selects a track of this kind.
pub open spec fn track_property_spec(t: Track) -> Seq<char> {
    match t {
        Track::Audio => "aid"@,
        Track::Subtitle => "sid"@,
    }
}

/// The argument of the engine's cycle command for this kind of track.
pub open spec fn cycle_argument_spec(t: Track) -> Seq<char> {
    match t {
        Track::Audio => "audio"@,
        Track::Subtitle => "sub"@,
    }
}

/// The name of the engine property behind a flag.
pub fn flag_property(f: Flag) -> (r: &'static str)
    ensures
        r@ == flag_property_spec(f),
{
    match f {
        Flag::Pause => "pause",
        Flag::SubVisibility => "sub-visibility",
    }
}

/// The name of the engine property that selects a track.
pub fn track_property(t: Track) -> (r: &'static str)
    ensures
        r@ == track_property_spec(t),
{
    match t {
        Track::Audio => "aid",
        Track::Subtitle => "sid",
    }
}

/// The argument that cycles a kind of track.
pub fn cycle_argument(t: Track) -> (r: &'static str)
    ensures
        r@ == cycle_argument_spec(t),
{
    match t {
        Track::Audio => "audio",
        Track::Subtitle => "sub",
    }
}

/// The screenshot mode: with subtitles drawn in, or the bare video.
pub fn screenshot_mode(include_subs: bool) -> (r: &'static str)
    ensures
        include_subs ==> r@ == "subtitles"@,
        !include_subs ==> r@ == "video"@,
{
    if include_subs {
        "subtitles"
    } else {
        "video"
    }
}

/// A value of an engine option.
#[derive(Clone, Copy, PartialEq, Eq, Debug)]
pub enum OptionValue {
    Text(&'static str),
    Int(i64),
}

/// The configuration every engine gets at construction: safe hardware
/// decoding, a ten-second cache, a 128 MiB demuxer buffer, sixty seconds of
/// read-ahead, a fixed client identifier, a window kept open after the end of
/// the file and one shown before any media is loaded.
pub open spec fn baseline_spec() -> Seq<(Seq<char>, OptionValue)> {
    seq![
        ("hwdec"@, OptionValue::Text("auto-safe")),
        ("cache"@, OptionValue::Text("yes")),
        ("cache-secs"@, OptionValue::Int(10)),
        ("demuxer-max-bytes"@, OptionValue::Int(134217728)),
        ("demuxer-readahead-secs"@, OptionValue::Int(60)),
        ("user-agent"@, OptionValue::Text("unstrem.io/1.0")),
        ("keep-open"@, OptionValue::Text("yes")),
        ("force-window"@, OptionValue::Text("yes")),
    ]
}

/// The option names and values of the baseline configuration, in the order
/// they are applied.
pub fn baseline_options() -> (r: Vec<(&'static str, OptionValue)>)
    ensures
        r@.len() == baseline_spec().len(),
        forall|i: int| 0 <= i < r@.len() ==> r@[i].0@ == baseline_spec()[i].0 && r@[i].1 == baseline_spec()[i].1,
{
    let mut r: Vec<(&'static str, OptionValue)> = Vec::new();
    r.push(("hwdec", OptionValue::Text("auto-safe")));
    r.push(("cache", OptionValue::Text("yes")));
    r.push(("cache-secs", OptionValue::Int(10)));
    r.push(("demuxer-max-bytes", OptionValue::Int(128i64 * 1024 * 1024)));
    r.push(("demuxer-readahead-secs", OptionValue::Int(60)));
    r.push(("user-agent", OptionValue::Text("unstrem.io/1.0")));
    r.push(("keep-open", OptionValue::Text("yes")));
    r.push(("force-window", OptionValue::Text("yes")));
    r
}

/// One request of the engine binding.
pub enum Action {
    /// Play the source at this locator.
    Play(String),
    /// Stop playback.
    StopPlayback,
    /// Seek by this many seconds from the current position, exactly.
    SeekBy(u64),
    /// Read a flag and write its negation.
    NegateFlag(Flag),
    /// Write a flag.
    WriteFlag(Flag, bool),
    /// Set the start offset of the next load, in seconds.
    WriteStart(u64),
    /// Set the playback position, in seconds.
    WritePosition(u64),
    /// Set the volume.
    WriteVolume(u64),
    /// Read the volume.
    ReadVolume,
    /// Read the playback position.
    ReadPosition,
    /// Read the duration of the loaded media.
    ReadDuration,
    /// Move to the next track of a kind.
    Cycle(Track),
    /// Select a track of a kind by its identifier.
    SelectTrack(Track, i64),
    /// Write a screenshot to a file, with or without subtitles.
    Screenshot(String, bool),
}

/// A request and whether its failure fails the operation (`false`: best
/// effort, a failure is ignored).
pub struct Step {
    pub action: Action,
    pub required: bool,
}

/// The requests that one operation makes, in order. A load sets the start
/// offset, when one is given, before it plays, and fails if either request
/// fails; stop resets the pause flag after it stops, and a failure of that
/// reset is passed over (best effort); every other operation is one required
/// request.
pub open spec fn plan_spec(c: PlayerCommand) -> Seq<Step> {
    match c {
        PlayerCommand::Load { url, start_time } => match start_time {
            Some(t) => seq![
                Step { action: Action::WriteStart(t), required: true },
                Step { action: Action::Play(url), required: true },
            ],
            None => seq![Step { action: Action::Play(url), required: true }],
        },
        PlayerCommand::PauseToggle => seq![Step { action: Action::NegateFlag(Flag::Pause), required: true }],
        PlayerCommand::Stop => seq![
            Step { action: Action::StopPlayback, required: true },
            Step { action: Action::WriteFlag(Flag::Pause, false), required: false },
        ],
        PlayerCommand::SeekRelative { seconds } => seq![Step { action: Action::SeekBy(seconds), required: true }],
        PlayerCommand::SeekAbsolute { seconds } => seq![
            Step { action: Action::WritePosition(seconds), required: true },
        ],
        PlayerCommand::SetVolume { volume } => seq![Step { action: Action::WriteVolume(volume), required: true }],
        PlayerCommand::GetVolume => seq![Step { action: Action::ReadVolume, required: true }],
        PlayerCommand::Position => seq![Step { action: Action::ReadPosition, required: true }],
        PlayerCommand::Duration => seq![Step { action: Action::ReadDuration, required: true }],
        PlayerCommand::CycleAudio => seq![Step { action: Action::Cycle(Track::Audio), required: true }],
        PlayerCommand::CycleSubtitle => seq![Step { action: Action::Cycle(Track::Subtitle), required: true }],
        PlayerCommand::ToggleSubtitleVisibility => seq![
            Step { action: Action::NegateFlag(Flag::SubVisibility), required: true },
        ],
        PlayerCommand::SetAudioTrack { track_id } => seq![
            Step { action: Action::SelectTrack(Track::Audio, track_id), required: true },
        ],
        PlayerCommand::SetSubtitleTrack { track_id } => seq![
            Step { action: Action::SelectTrack(Track::Subtitle, track_id), required: true },
        ],
        PlayerCommand::Screenshot { file, include_subs } => seq![
            Step { action: Action::Screenshot(file, include_subs), required: true },
        ],
    }
}

fn one(action: Action) -> (r: Vec<Step>)
    ensures
        r@ == seq![Step { action: action, required: true }],
{
    let mut r: Vec<Step> = Vec::new();
    r.push(Step { action, required: true });
    assert(r@ =~= seq![Step { action: action, required: true }]);
    r
}

/// Turns one operation into the requests the binding makes of the engine.
pub fn plan(cmd: &PlayerCommand) -> (r: Vec<Step>)
    ensures
        r@ == plan_spec(*cmd),
{
    match cmd {
        PlayerCommand::Load { url, start_time } => {
            let mut r: Vec<Step> = Vec::new();
            if let Some(t) = start_time {
                r.push(Step { action: Action::WriteStart(*t), required: true });
            }
            r.push(Step { action: Action::Play(url.clone()), required: true });
            assert(r@ =~= plan_spec(*cmd));
            r
        },
        PlayerCommand::PauseToggle => one(Action::NegateFlag(Flag::Pause)),
        PlayerCommand::Stop => {
            let mut r: Vec<Step> = Vec::new();
            r.push(Step { action: Action::StopPlayback, required: true });
            r.push(Step { action: Action::WriteFlag(Flag::Pause, false), required: false });
            assert(r@ =~= plan_spec(PlayerCommand::Stop));
            r
        },
        PlayerCommand::SeekRelative { seconds } => one(Action::SeekBy(*seconds)),
        PlayerCommand::SeekAbsolute { seconds } => one(Action::WritePosition(*seconds)),
        PlayerCommand::SetVolume { volume } => one(Action::WriteVolume(*volume)),
        PlayerCommand::GetVolume => one(Action::ReadVolume),
        PlayerCommand::Position => one(Action::ReadPosition),
        PlayerCommand::Duration => one(Action::ReadDuration),
        PlayerCommand::CycleAudio => one(Action::Cycle(Track::Audio)),
        PlayerCommand::CycleSubtitle => one(Action::Cycle(Track::Subtitle)),
        PlayerCommand::ToggleSubtitleVisibility => one(Action::NegateFlag(Flag::SubVisibility)),
        PlayerCommand::SetAudioTrack { track_id } => one(Action::SelectTrack(Track::Audio, *track_id)),
        PlayerCommand::SetSubtitleTrack { track_id } => one(Action::SelectTrack(Track::Subtitle, *track_id)),
        PlayerCommand::Screenshot { file, include_subs } => one(Action::Screenshot(file.clone(), *include_subs)),
    }
}

/// What the outcome of one step means for the operation it belongs to.
pub enum Progress {
    /// Go on; the value read, or zero.
    Continue(u64),
    /// The operation fails with this description; later steps are not made.
    Fail(String),
}

/// Judges one step's outcome: a failed required step fails the operation, a
/// failed best-effort step is passed over.
pub fn progress(required: bool, outcome: Result<u64, String>) -> (r: Progress)
    ensures
        outcome matches Ok(v) ==> r == Progress::Continue(v),
        outcome matches Err(e) ==> (if required { r == Progress::Fail(e) } else { r == Progress::Continue(0) }),
{
    match outcome {
        Ok(v) => Progress::Continue(v),
        Err(e) => if required {
            Progress::Fail(e)
        } else {
            Progress::Continue(0)
        },
    }
}

/// The result of an operation from the outcomes of its plan's steps, in the
/// order they were made: the first failure of a required step, else the value
/// of the last step (zero where it was a failed best-effort step), else zero
/// for an empty plan. `results[i]` is the outcome of `steps[i]`; the steps
/// after a failed required one are not made, so `results` may be shorter.
pub open spec fn plan_outcome(steps: Seq<Step>, results: Seq<Result<u64, String>>) -> Result<u64, String>
    decreases results.len(),
{
    if results.len() == 0 {
        Ok(0u64)
    } else {
        let prev = plan_outcome(steps, results.drop_last());
        let i = results.len() - 1;
        if prev is Err {
            prev
        } else {
            match results[i] {
                Ok(v) => Ok(v),
                Err(e) => if steps[i].required {
                    Err(e)
                } else {
                    Ok(0u64)
                },
            }
        }
    }
}

/// Folds the outcomes of the steps that were made into the operation's
/// result.
pub fn plan_result(steps: &Vec<Step>, results: Vec<Result<u64, String>>) -> (r: Result<u64, String>)
    requires
        results@.len() <= steps@.len(),
    ensures
        r == plan_outcome(steps@, results@),
{
    let ghost all = results@;
    let n: usize = results.len();
    let mut results = results;
    let mut acc: Result<u64, String> = Ok(0);
    let mut i: usize = 0;
    while i < n
        invariant
            n == all.len() <= steps@.len(),
            i <= n,
            results@ == all.subrange(i as int, n as int),
            acc == plan_outcome(steps@, all.take(i as int)),
        decreases n - i,
    {
        let o = results.remove(0);
        proof {
            assert(all.take(i as int + 1).drop_last() == all.take(i as int));
            assert(o == all[i as int]);
        }
        if acc.is_ok() {
            acc = match o {
                Ok(v) => Ok(v),
                Err(e) => if steps[i].required {
                    Err(e)
                } else {
                    Ok(0)
                },
            };
        }
        i = i + 1;
    }
    assert(all.take(n as int) == all);
    acc
}
} // verus!
