use unstrem::binding::{
    baseline_options, cycle_argument, flag_property, plan, plan_result, progress, screenshot_mode, track_property, Action, OptionValue,
    Progress,
};
use unstrem::protocol::PlayerCommand;
use unstrem::engine::{Flag, Track};

#[test]
fn property_names() {
    assert_eq!(flag_property(Flag::Pause), "pause");
    assert_eq!(flag_property(Flag::SubVisibility), "sub-visibility");
    assert_eq!(track_property(Track::Audio), "aid");
    assert_eq!(track_property(Track::Subtitle), "sid");
    assert_eq!(cycle_argument(Track::Audio), "audio");
    assert_eq!(cycle_argument(Track::Subtitle), "sub");
}

#[test]
fn screenshot_modes() {
    assert_eq!(screenshot_mode(true), "subtitles");
    assert_eq!(screenshot_mode(false), "video");
}

#[test]
fn baseline_configuration() {
    let o = baseline_options();
    assert_eq!(o.len(), 8);
    assert_eq!(o[0], ("hwdec", OptionValue::Text("auto-safe")));
    assert_eq!(o[2], ("cache-secs", OptionValue::Int(10)));
    assert_eq!(o[3], ("demuxer-max-bytes", OptionValue::Int(134217728)));
    assert_eq!(o[4], ("demuxer-readahead-secs", OptionValue::Int(60)));
    assert_eq!(o[5], ("user-agent", OptionValue::Text("unstrem.io/1.0")));
    assert_eq!(o[7], ("force-window", OptionValue::Text("yes")));
}

#[test]
fn load_plan_sets_start_first() {
    let p = plan(&PlayerCommand::Load { url: "file.mp4".to_string(), start_time: Some(30.0f64.to_bits()) });
    assert_eq!(p.len(), 2);
    assert!(matches!(p[0].action, Action::WriteStart(t) if f64::from_bits(t) == 30.0));
    assert!(p[0].required);
    assert!(matches!(&p[1].action, Action::Play(u) if u == "file.mp4"));
    assert!(p[1].required);
    let q = plan(&PlayerCommand::Load { url: "b".to_string(), start_time: None });
    assert_eq!(q.len(), 1);
}

#[test]
fn stop_plan_resets_pause_best_effort() {
    let p = plan(&PlayerCommand::Stop);
    assert_eq!(p.len(), 2);
    assert!(matches!(p[0].action, Action::StopPlayback) && p[0].required);
    assert!(matches!(p[1].action, Action::WriteFlag(Flag::Pause, false)) && !p[1].required);
    let t = plan(&PlayerCommand::PauseToggle);
    assert!(matches!(t[0].action, Action::NegateFlag(Flag::Pause)));
}

#[test]
fn other_plans() {
    assert!(matches!(plan(&PlayerCommand::SetSubtitleTrack { track_id: 4 })[0].action, Action::SelectTrack(Track::Subtitle, 4)));
    assert!(matches!(plan(&PlayerCommand::Duration)[0].action, Action::ReadDuration));
    let shot = plan(&PlayerCommand::Screenshot { file: "a.png".to_string(), include_subs: false });
    assert!(matches!(&shot[0].action, Action::Screenshot(f, false) if f == "a.png"));
}

#[test]
fn progress_of_steps() {
    assert!(matches!(progress(true, Ok(7)), Progress::Continue(7)));
    assert!(matches!(progress(false, Err("x".to_string())), Progress::Continue(0)));
    assert!(matches!(progress(true, Err("no media".to_string())), Progress::Fail(e) if e == "no media"));
}

#[test]
fn load_fails_when_start_offset_fails() {
    let p = plan(&PlayerCommand::Load { url: "file.mp4".to_string(), start_time: Some(30.0f64.to_bits()) });
    assert_eq!(plan_result(&p, vec![Err("property unavailable".to_string())]), Err("property unavailable".to_string()));
    assert_eq!(plan_result(&p, vec![Ok(0), Err("bad source".to_string())]), Err("bad source".to_string()));
    assert_eq!(plan_result(&p, vec![Ok(0), Ok(0)]), Ok(0));
}

#[test]
fn stop_ignores_failed_pause_reset() {
    let p = plan(&PlayerCommand::Stop);
    assert_eq!(plan_result(&p, vec![Ok(0), Err("no pause".to_string())]), Ok(0));
    assert_eq!(plan_result(&p, vec![Err("stop failed".to_string())]), Err("stop failed".to_string()));
}

#[test]
fn query_plan_result_is_value_read() {
    let p = plan(&PlayerCommand::GetVolume);
    assert_eq!(plan_result(&p, vec![Ok(55.0f64.to_bits())]), Ok(55.0f64.to_bits()));
    assert_eq!(plan_result(&p, vec![]), Ok(0));
}
