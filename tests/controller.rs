use auto_fishing::control::{Effect, Fishing, Message, Window};
use auto_fishing::fishing::{FishingErr, FishingEvt, RunHandle};
use auto_fishing::tray::{TrayEvents, TrayInput};

fn with_tray() -> Fishing {
    let (mut f, open) = Fishing::new();
    assert_eq!(open, Effect::OpenWindow);
    assert!(f.update(Message::Tray(TrayEvents::PassSender)).is_empty());
    f
}

#[test]
fn fresh_controller_defaults() {
    let (f, _) = Fishing::new();
    assert!(f.window.is_none());
    assert!(!f.context.is_fishing);
    assert!(f.context.handle.is_none());
    assert_eq!(f.context.raw_time, "0.5");
    assert_eq!(f.context.args.keyword, "Ebonkoi");
    assert_eq!(f.context.args.scale, "--");
    assert_eq!(f.context.args.time_interval, 1000);
    assert_eq!(f.context.err, "");
    assert!(!f.context.is_capturing);
    assert!(!f.context.tray_connected);
    assert_eq!(f.context.count_down, None);
}

#[test]
fn start_begins_a_run_and_tells_the_tray() {
    let mut f = with_tray();
    f.context.err = "old".to_string();
    assert_eq!(f.update(Message::Start), vec![Effect::Notify(TrayInput::Started)]);
    assert!(f.context.is_fishing);
    assert_eq!(f.context.err, "");
}

#[test]
fn start_without_tray_asks_nothing() {
    let (mut f, _) = Fishing::new();
    assert!(f.update(Message::Start).is_empty());
    assert!(f.context.is_fishing);
}

#[test]
fn second_start_keeps_the_active_run() {
    let mut f = with_tray();
    f.update(Message::Start);
    f.update(Message::FishingEvt(FishingEvt::PassHandle(RunHandle { id: 9 })));
    assert!(f.update(Message::Start).is_empty());
    assert_eq!(f.context.handle, Some(RunHandle { id: 9 }));
    assert!(f.context.is_fishing);
}

#[test]
fn stop_aborts_the_run() {
    let mut f = with_tray();
    f.update(Message::Start);
    f.update(Message::FishingEvt(FishingEvt::PassHandle(RunHandle { id: 9 })));
    assert_eq!(
        f.update(Message::Stop),
        vec![Effect::Abort(RunHandle { id: 9 }), Effect::Notify(TrayInput::Stopped)]
    );
    assert!(f.context.handle.is_none());
    assert!(!f.context.is_fishing);
    assert!(f.update(Message::Stop).is_empty());
}

#[test]
fn run_failure_is_shown_and_stops() {
    let mut f = with_tray();
    f.update(Message::Start);
    f.update(Message::FishingEvt(FishingEvt::PassHandle(RunHandle { id: 2 })));
    f.update(Message::FishingEvt(FishingEvt::CountDown(1)));
    assert_eq!(f.context.count_down, Some(1));
    let fx = f.update(Message::FishingEvt(FishingEvt::Failure(FishingErr::IoErr("no grim".to_string()))));
    assert_eq!(fx, vec![Effect::Notify(TrayInput::Stopped)]);
    assert_eq!(f.context.err, "IO Error: no grim");
    assert!(f.context.handle.is_none());
    assert!(!f.context.is_fishing);
}

#[test]
fn stream_error_is_shown_and_stops() {
    let mut f = with_tray();
    f.update(Message::Start);
    let fx = f.update(Message::FishingErr(FishingErr::String("Cannot send handle".to_string())));
    assert_eq!(fx, vec![Effect::Notify(TrayInput::Stopped)]);
    assert_eq!(f.context.err, "String: Cannot send handle");
    assert!(!f.context.is_fishing);
    assert!(f.context.handle.is_none());
}

#[test]
fn start_during_countdown_changes_nothing() {
    let mut f = with_tray();
    f.update(Message::Start);
    f.update(Message::FishingEvt(FishingEvt::CountDown(2)));
    f.context.err = "kept".to_string();
    assert!(f.update(Message::Start).is_empty());
    assert_eq!(f.context.err, "kept");
    assert_eq!(f.context.count_down, Some(2));
    assert!(f.context.is_fishing);
}

#[test]
fn stop_during_countdown_stops() {
    let mut f = with_tray();
    f.update(Message::Start);
    f.update(Message::FishingEvt(FishingEvt::CountDown(1)));
    assert_eq!(f.update(Message::Tray(TrayEvents::Toggle)), vec![Effect::Then(Message::Stop)]);
    assert_eq!(f.update(Message::Stop), vec![Effect::Notify(TrayInput::Stopped)]);
    assert!(!f.context.is_fishing);
    assert_eq!(f.context.count_down, None);
    assert_eq!(f.update(Message::Tray(TrayEvents::Toggle)), vec![Effect::Then(Message::Start)]);
}

#[test]
fn toggle_follows_the_handle() {
    let mut f = with_tray();
    assert_eq!(f.update(Message::Tray(TrayEvents::Toggle)), vec![Effect::Then(Message::Start)]);
    f.update(Message::FishingEvt(FishingEvt::PassHandle(RunHandle { id: 4 })));
    assert_eq!(f.update(Message::Tray(TrayEvents::Toggle)), vec![Effect::Then(Message::Stop)]);
}

#[test]
fn open_only_without_a_window() {
    let mut f = with_tray();
    assert_eq!(f.update(Message::Tray(TrayEvents::Open)), vec![Effect::Then(Message::CreateWindow)]);
    f.update(Message::WindowOpened(5));
    assert_eq!(f.window, Some(Window { id: 5 }));
    assert!(f.update(Message::Tray(TrayEvents::Open)).is_empty());
    f.update(Message::WindowClosed(5));
    assert!(f.window.is_none());
    assert_eq!(f.update(Message::CreateWindow), vec![Effect::OpenWindow]);
}

#[test]
fn quit_exits() {
    let mut f = with_tray();
    assert_eq!(f.update(Message::Tray(TrayEvents::Quit)), vec![Effect::Exit]);
    assert!(f.update(Message::Tray(TrayEvents::Failure("x".to_string()))).is_empty());
}

#[test]
fn edits_update_the_next_run_settings() {
    let (mut f, _) = Fishing::new();
    f.update(Message::GetScale);
    assert!(f.context.is_capturing);
    f.update(Message::ScaleVal("1,2 3x4".to_string()));
    assert!(!f.context.is_capturing);
    assert_eq!(f.context.args.scale, "1,2 3x4");
    f.update(Message::TimeInterval("0.25".to_string(), Some(250)));
    assert_eq!(f.context.args.time_interval, 250);
    f.update(Message::TimeInterval("abc".to_string(), None));
    assert_eq!(f.context.args.time_interval, 250);
    assert_eq!(f.context.raw_time, "abc");
    f.update(Message::ItemName("Foo,Bar".to_string()));
    assert_eq!(f.context.args.keyword, "Foo,Bar");
}

#[test]
fn tray_icons() {
    assert_eq!(TrayInput::Started.icon(), Some("emblem-pause"));
    assert_eq!(TrayInput::Stopped.icon(), Some("checkmark"));
    assert_eq!(TrayInput::IconUpdate("x".to_string()).icon(), None);
}
