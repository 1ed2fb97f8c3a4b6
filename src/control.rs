use vstd::prelude::*;

use crate::fishing::{FishingArgs, FishingErr, FishingEvt, RunHandle, SECOND_MS};
use crate::tray::{TrayEvents, TrayInput};

verus! {

/// The open window, named by a number the host toolkit's id maps to.
#[derive(Clone, Copy, Debug, PartialEq, Eq, Structural)]
pub struct Window {
    pub id: u64,
}

/// What the controller knows and shows.
#[derive(Clone, Debug)]
pub struct Context {
    /// The settings the next run starts with.
    pub args: FishingArgs,
    /// A run has been asked for and not stopped since.
    pub is_fishing: bool,
    /// The last error message, shown in the status area.
    pub err: String,
    /// The handle of the active run, once the run has handed it over.
    pub handle: Option<RunHandle>,
    /// The poll interval as the user typed it.
    pub raw_time: String,
    /// A region selection is under way.
    pub is_capturing: bool,
    /// The tray listens for state changes.
    pub tray_connected: bool,
    /// The last countdown value the run announced.
    pub count_down: Option<i32>,
}

impl Default for Context {
    fn default() -> (r: Self)
        ensures
            r.args.scale@ == "--"@,
            r.args.time_interval == SECOND_MS,
            r.args.keyword@ == "Ebonkoi"@,
            !r.is_fishing,
            r.err@ == Seq::<char>::empty(),
            r.handle is None,
            r.raw_time@ == "0.5"@,
            !r.is_capturing,
            !r.tray_connected,
            r.count_down is None,
    {
        Context {
            args: FishingArgs::default(),
            is_fishing: false,
            err: String::new(),
            handle: None,
            raw_time: String::from_str("0.5"),
            is_capturing: false,
            tray_connected: false,
            count_down: None,
        }
    }
}

/// What the controller reacts to.
#[derive(Clone, Debug, PartialEq, Eq)]
pub enum Message {
    CreateWindow,
    WindowOpened(u64),
    WindowClosed(u64),
    Tray(TrayEvents),
    /// Start selecting a screen region.
    GetScale,
    /// The selected region.
    ScaleVal(String),
    /// The poll interval as typed, and its value in milliseconds where the
    /// text is a valid interval.
    TimeInterval(String, Option<u64>),
    /// The keyword field as typed.
    ItemName(String),
    Start,
    Stop,
    FishingEvt(FishingEvt),
    /// The event stream of a run failed.
    FishingErr(FishingErr),
}

/// What the controller asks its host to do after an update.
#[derive(Clone, Debug, PartialEq, Eq)]
pub enum Effect {
    OpenWindow,
    /// Feed this message back to the controller.
    Then(Message),
    Exit,
    /// Tell the tray.
    Notify(TrayInput),
    /// Cancel the run with this handle.
    Abort(RunHandle),
}

/// The controller: the window, if one is open, and the shared state.
#[derive(Clone, Debug)]
pub struct Fishing {
    pub window: Option<Window>,
    pub context: Context,
}

impl Default for Fishing {
    fn default() -> (r: Self)
        ensures
            r.window is None,
            r.context.args.scale@ == "--"@,
            r.context.args.time_interval == SECOND_MS,
            r.context.args.keyword@ == "Ebonkoi"@,
            !r.context.is_fishing,
            r.context.err@ == Seq::<char>::empty(),
            r.context.handle is None,
            r.context.raw_time@ == "0.5"@,
            !r.context.is_capturing,
            !r.context.tray_connected,
            r.context.count_down is None,
    {
        Fishing { window: None, context: Context::default() }
    }
}

/// The tray hears of a state change only once it listens.
pub open spec fn notice(c: Context, n: TrayInput) -> Seq<Effect> {
    if c.tray_connected {
        seq![Effect::Notify(n)]
    } else {
        seq![]
    }
}

/// A run is under way: asked for, or already handed over.
pub open spec fn has_active_run(c: Context) -> bool {
    c.is_fishing || c.handle is Some
}

/// The update turned a stopped controller into a running one: a new run
/// begins.
pub open spec fn starts_run(old: Fishing, new: Fishing) -> bool {
    !old.context.is_fishing && new.context.is_fishing
}

/// The run ended on `e`: its message is shown, the controller is stopped
/// and the tray told so.
pub open spec fn stopped_by(old: Fishing, e: FishingErr, new: Fishing, effects: Seq<Effect>) -> bool {
    let c = old.context;
    &&& new == Fishing {
        context: Context {
            err: new.context.err,
            handle: None,
            is_fishing: false,
            count_down: None,
            ..c
        },
        ..old
    }
    &&& new.context.err@ == e.text()
    &&& effects == notice(c, TrayInput::Stopped)
}

/// `new` and `effects` are what `msg` makes of `old`.
pub open spec fn update_post(old: Fishing, msg: Message, new: Fishing, effects: Seq<Effect>) -> bool {
    let c = old.context;
    let d = new.context;
    match msg {
        Message::CreateWindow => new == old && effects == seq![Effect::OpenWindow],
        Message::WindowOpened(id) => new == Fishing { window: Some(Window { id }), ..old }
            && effects.len() == 0,
        Message::WindowClosed(_) => new == Fishing { window: None, ..old } && effects.len() == 0,
        Message::Tray(TrayEvents::Open) => new == old && effects == (if old.window is None {
            seq![Effect::Then(Message::CreateWindow)]
        } else {
            seq![]
        }),
        Message::Tray(TrayEvents::Toggle) => new == old && effects == (if has_active_run(c) {
            seq![Effect::Then(Message::Stop)]
        } else {
            seq![Effect::Then(Message::Start)]
        }),
        Message::Tray(TrayEvents::Quit) => new == old && effects == seq![Effect::Exit],
        Message::Tray(TrayEvents::PassSender) => new == Fishing {
            context: Context { tray_connected: true, ..c },
            ..old
        } && effects.len() == 0,
        Message::Tray(TrayEvents::Failure(_)) => new == old && effects.len() == 0,
        Message::GetScale => new == Fishing { context: Context { is_capturing: true, ..c }, ..old }
            && effects.len() == 0,
        Message::ScaleVal(s) => new == Fishing {
            context: Context { args: FishingArgs { scale: s, ..c.args }, is_capturing: false, ..c },
            ..old
        } && effects.len() == 0,
        Message::TimeInterval(raw, ms) => new == Fishing {
            context: Context {
                args: FishingArgs {
                    time_interval: match ms {
                        Some(v) => v,
                        None => c.args.time_interval,
                    },
                    ..c.args
                },
                raw_time: raw,
                ..c
            },
            ..old
        } && effects.len() == 0,
        Message::ItemName(name) => new == Fishing {
            context: Context { args: FishingArgs { keyword: name, ..c.args }, ..c },
            ..old
        } && effects.len() == 0,
        Message::Start => if has_active_run(c) {
            new == old && effects.len() == 0
        } else {
            &&& new == Fishing {
                context: Context { err: d.err, is_fishing: true, count_down: None, ..c },
                ..old
            }
            &&& d.err@ == Seq::<char>::empty()
            &&& effects == notice(c, TrayInput::Started)
        },
        Message::Stop => if !has_active_run(c) {
            new == old && effects.len() == 0
        } else {
            &&& new == Fishing {
                context: Context { handle: None, is_fishing: false, count_down: None, ..c },
                ..old
            }
            &&& effects == match c.handle {
                Some(h) => seq![Effect::Abort(h)] + notice(c, TrayInput::Stopped),
                None => notice(c, TrayInput::Stopped),
            }
        },
        Message::FishingEvt(FishingEvt::PassHandle(h)) => new == Fishing {
            context: Context { handle: Some(h), ..c },
            ..old
        } && effects.len() == 0,
        Message::FishingEvt(FishingEvt::CountDown(n)) => new == Fishing {
            context: Context { count_down: Some(n), ..c },
            ..old
        } && effects.len() == 0,
        Message::FishingEvt(FishingEvt::Failure(e)) => stopped_by(old, e, new, effects),
        Message::FishingErr(e) => stopped_by(old, e, new, effects),
    }
}

impl Fishing {
    /// A fresh controller, and the request to open its window.
    pub fn new() -> (r: (Fishing, Effect))
        ensures
            r.0.window is None,
            r.0.context.args.scale@ == "--"@,
            r.0.context.args.time_interval == SECOND_MS,
            r.0.context.args.keyword@ == "Ebonkoi"@,
            !r.0.context.is_fishing,
            r.0.context.err@ == Seq::<char>::empty(),
            r.0.context.handle is None,
            r.0.context.raw_time@ == "0.5"@,
            !r.0.context.is_capturing,
            !r.0.context.tray_connected,
            r.0.context.count_down is None,
            r.1 == Effect::OpenWindow,
    {
        (Fishing::default(), Effect::OpenWindow)
    }

    fn notify(&self, n: TrayInput) -> (r: Vec<Effect>)
        ensures
            r@ == notice(self.context, n),
    {
        let mut r: Vec<Effect> = Vec::new();
        if self.context.tray_connected {
            r.push(Effect::Notify(n));
        }
        r
    }

    fn stop_on(&mut self, e: FishingErr) -> (r: Vec<Effect>)
        ensures
            stopped_by(*old(self), e, *final(self), r@),
    {
        self.context.err = e.message();
        self.context.handle = None;
        self.context.is_fishing = false;
        self.context.count_down = None;
        self.notify(TrayInput::Stopped)
    }

    /// Applies `message` and gives what the host must do next. A start while
    /// a run is active changes nothing; a stop ends the active run, also
    /// before it has handed over its handle; a failure of the run shows its
    /// message and stops the controller.
    pub fn update(&mut self, message: Message) -> (r: Vec<Effect>)
        ensures
            update_post(*old(self), message, *final(self), r@),
    {
        let mut r: Vec<Effect> = Vec::new();
        match message {
            Message::CreateWindow => {
                r.push(Effect::OpenWindow);
            },
            Message::WindowOpened(id) => {
                self.window = Some(Window { id });
            },
            Message::WindowClosed(_) => {
                self.window = None;
            },
            Message::Tray(evt) => match evt {
                TrayEvents::Open => {
                    if self.window.is_none() {
                        r.push(Effect::Then(Message::CreateWindow));
                    }
                },
                TrayEvents::Toggle => {
                    if self.context.is_fishing || self.context.handle.is_some() {
                        r.push(Effect::Then(Message::Stop));
                    } else {
                        r.push(Effect::Then(Message::Start));
                    }
                },
                TrayEvents::Quit => {
                    r.push(Effect::Exit);
                },
                TrayEvents::PassSender => {
                    self.context.tray_connected = true;
                },
                TrayEvents::Failure(_) => {},
            },
            Message::GetScale => {
                self.context.is_capturing = true;
            },
            Message::ScaleVal(s) => {
                self.context.args.scale = s;
                self.context.is_capturing = false;
            },
            Message::TimeInterval(raw, ms) => {
                if let Some(v) = ms {
                    self.context.args.time_interval = v;
                }
                self.context.raw_time = raw;
            },
            Message::ItemName(name) => {
                self.context.args.keyword = name;
            },
            Message::Start => {
                if !self.context.is_fishing && self.context.handle.is_none() {
                    self.context.err = String::new();
                    self.context.is_fishing = true;
                    self.context.count_down = None;
                    r = self.notify(TrayInput::Started);
                }
            },
            Message::Stop => {
                if self.context.is_fishing || self.context.handle.is_some() {
                    if let Some(h) = self.context.handle {
                        r.push(Effect::Abort(h));
                    }
                    let mut n = self.notify(TrayInput::Stopped);
                    r.append(&mut n);
                    self.context.handle = None;
                    self.context.is_fishing = false;
                    self.context.count_down = None;
                }
            },
            Message::FishingEvt(evt) => match evt {
                FishingEvt::PassHandle(h) => {
                    self.context.handle = Some(h);
                },
                FishingEvt::CountDown(n) => {
                    self.context.count_down = Some(n);
                },
                FishingEvt::Failure(e) => {
                    r = self.stop_on(e);
                },
            },
            Message::FishingErr(e) => {
                r = self.stop_on(e);
            },
        }
        r
    }
}

/// Starting while a run is active starts nothing: the controller, and with it
/// the active run's handle, stays exactly as it was, no second run begins,
/// and nothing is asked of the host.
pub proof fn lemma_start_keeps_active_run(old: Fishing, new: Fishing, effects: Seq<Effect>)
    requires
        has_active_run(old.context),
        update_post(old, Message::Start, new, effects),
    ensures
        new == old,
        effects.len() == 0,
        !starts_run(old, new),
{
}

} // verus!
