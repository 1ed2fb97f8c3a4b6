use vstd::prelude::*;

use crate::keywords::{any_keyword_in, first_keyword, keyword_list, split_keywords};
use crate::text::{chars_of, seqs_of};

verus! {

/// One second, the unit of the startup countdown.
pub const SECOND_MS: u64 = 1000;

/// The pause between the two clicks of one round.
pub const CLICK_GAP_MS: u64 = 1000;

/// The countdown value announced first.
pub const FIRST_TICK: i32 = 2;

/// The token that names one run, handed to the controller so it can cancel
/// that run.
#[derive(Clone, Copy, Debug, PartialEq, Eq, Structural)]
pub struct RunHandle {
    pub id: u64,
}

/// What ends a run. Each variant carries the one-line detail of its cause.
#[derive(Clone, Debug, PartialEq, Eq)]
pub enum FishingErr {
    /// The capture tool could not be run, or failed, or the file system did.
    IoErr(String),
    /// The OCR engine could not start.
    InitErr(String),
    /// The OCR engine could not load the captured image.
    ImgErr(String),
    /// The OCR engine could not extract text.
    OCRErr(String),
    /// Any other cause.
    String(String),
}

impl FishingErr {
    /// The line shown to the user for this error.
    pub open spec fn text(&self) -> Seq<char> {
        match self {
            FishingErr::IoErr(d) => "IO Error: "@ + d@,
            FishingErr::InitErr(d) => "OCR Init Error: "@ + d@,
            FishingErr::ImgErr(d) => "OCR Image Error: "@ + d@,
            FishingErr::OCRErr(d) => "OCR Error: "@ + d@,
            FishingErr::String(d) => "String: "@ + d@,
        }
    }

    pub fn message(&self) -> (r: String)
        ensures
            r@ == self.text(),
    {
        match self {
            FishingErr::IoErr(d) => String::from_str("IO Error: ").concat(d.as_str()),
            FishingErr::InitErr(d) => String::from_str("OCR Init Error: ").concat(d.as_str()),
            FishingErr::ImgErr(d) => String::from_str("OCR Image Error: ").concat(d.as_str()),
            FishingErr::OCRErr(d) => String::from_str("OCR Error: ").concat(d.as_str()),
            FishingErr::String(d) => String::from_str("String: ").concat(d.as_str()),
        }
    }
}

/// What a run reports to its controller, in the order it happens.
#[derive(Clone, Debug, PartialEq, Eq)]
pub enum FishingEvt {
    /// The run's handle, sent once, before the first capture.
    PassHandle(RunHandle),
    /// The startup countdown: 2, then 1, then 0.
    CountDown(i32),
    /// The run ended on this error.
    Failure(FishingErr),
}

/// The settings of one run, fixed when it starts.
#[derive(Clone, Debug)]
pub struct FishingArgs {
    /// The screen region handed verbatim to the capture tool.
    pub scale: String,
    /// The pause after each round, in milliseconds.
    pub time_interval: u64,
    /// Comma-separated keywords; the first that stands in the text wins.
    pub keyword: String,
}

impl Default for FishingArgs {
    fn default() -> (r: Self)
        ensures
            r.scale@ == "--"@,
            r.time_interval == SECOND_MS,
            r.keyword@ == "Ebonkoi"@,
    {
        FishingArgs {
            scale: String::from_str("--"),
            time_interval: SECOND_MS,
            keyword: String::from_str("Ebonkoi"),
        }
    }
}

/// The work a run asks its driver to do next.
#[derive(Clone, Debug, PartialEq, Eq)]
pub enum Action {
    /// Create the cache directory for the captured image; failure is ignored.
    PrepareCache,
    /// Wait this many milliseconds.
    Sleep(u64),
    /// Deliver this event to the controller.
    Emit(FishingEvt),
    /// Capture this screen region into the cache image.
    Capture(String),
    /// Read the text of the cache image.
    Recognize,
    /// Send one synthetic click.
    Click,
    /// The run is over: do nothing more.
    Halt,
}

/// How the driver answers the pending action.
#[derive(Clone, Debug, PartialEq, Eq)]
pub enum Outcome {
    /// The action completed.
    Done,
    /// The action failed, with this detail.
    Failed(String),
    /// Recognition completed with this text.
    Text(String),
    /// Recognition failed with this error.
    OcrFailed(FishingErr),
    /// The controller cancelled the run.
    Cancelled,
}

/// Where a run stands; each phase has one pending action.
#[derive(Clone, Copy, Debug, PartialEq, Eq, Structural)]
pub enum Phase {
    /// Creating the cache directory.
    Preparing,
    /// Sleeping one second before announcing this countdown value.
    BeforeTick(i32),
    /// Announcing this countdown value.
    Ticked(i32),
    /// Handing the run's handle to the controller.
    HandingOver,
    /// Capturing the screen region.
    Capturing,
    /// Reading the text of the capture.
    Recognizing,
    /// Sending the first click of a round.
    FirstClick,
    /// Waiting between the two clicks.
    BetweenClicks,
    /// Sending the second click of a round.
    SecondClick,
    /// Sleeping for the poll interval.
    Resting,
    /// Reporting the error that ends the run.
    Failing,
    /// Over.
    Stopped,
}

/// The capture, recognize, match, click and wait loop, as a machine that
/// answers each outcome with the next action.
#[derive(Clone, Debug)]
pub struct FishingLoop {
    pub phase: Phase,
    pub scale: String,
    pub interval: u64,
    pub keywords: Vec<Vec<char>>,
    pub handle: RunHandle,
}

impl FishingLoop {
    pub open spec fn kws(&self) -> Seq<Seq<char>> {
        seqs_of(self.keywords@)
    }

    pub open spec fn with_phase(self, phase: Phase) -> FishingLoop {
        FishingLoop { phase, ..self }
    }

    /// What follows recognized text: a click where a keyword stands in it,
    /// else the poll sleep.
    pub open spec fn after_text(self, text: Seq<char>) -> (FishingLoop, Action) {
        if any_keyword_in(self.kws(), text) {
            (self.with_phase(Phase::FirstClick), Action::Click)
        } else {
            (self.with_phase(Phase::Resting), Action::Sleep(self.interval))
        }
    }

    /// What a capture or recognition failure leads to.
    pub open spec fn after_failure(self, e: FishingErr) -> (FishingLoop, Action) {
        (self.with_phase(Phase::Failing), Action::Emit(FishingEvt::Failure(e)))
    }

    /// The machine after `o` answers the pending action, and its next action.
    pub open spec fn next(self, o: Outcome) -> (FishingLoop, Action) {
        if o is Cancelled {
            (self.with_phase(Phase::Stopped), Action::Halt)
        } else {
            match self.phase {
                Phase::Preparing => (
                    self.with_phase(Phase::BeforeTick(FIRST_TICK)),
                    Action::Sleep(SECOND_MS),
                ),
                Phase::BeforeTick(n) => (
                    self.with_phase(Phase::Ticked(n)),
                    Action::Emit(FishingEvt::CountDown(n)),
                ),
                Phase::Ticked(n) => if n > 0 {
                    (self.with_phase(Phase::BeforeTick((n - 1) as i32)), Action::Sleep(SECOND_MS))
                } else {
                    (
                        self.with_phase(Phase::HandingOver),
                        Action::Emit(FishingEvt::PassHandle(self.handle)),
                    )
                },
                Phase::HandingOver => (
                    self.with_phase(Phase::Capturing),
                    Action::Capture(self.scale),
                ),
                Phase::Capturing => match o {
                    Outcome::Failed(m) => self.after_failure(FishingErr::IoErr(m)),
                    Outcome::OcrFailed(e) => self.after_failure(e),
                    _ => (self.with_phase(Phase::Recognizing), Action::Recognize),
                },
                Phase::Recognizing => match o {
                    Outcome::Failed(m) => self.after_failure(FishingErr::IoErr(m)),
                    Outcome::OcrFailed(e) => self.after_failure(e),
                    Outcome::Text(t) => self.after_text(t@),
                    _ => self.after_text(Seq::empty()),
                },
                Phase::FirstClick => (
                    self.with_phase(Phase::BetweenClicks),
                    Action::Sleep(CLICK_GAP_MS),
                ),
                Phase::BetweenClicks => (self.with_phase(Phase::SecondClick), Action::Click),
                Phase::SecondClick => (
                    self.with_phase(Phase::Resting),
                    Action::Sleep(self.interval),
                ),
                Phase::Resting => (self.with_phase(Phase::Capturing), Action::Capture(self.scale)),
                Phase::Failing => (self.with_phase(Phase::Stopped), Action::Halt),
                Phase::Stopped => (self.with_phase(Phase::Stopped), Action::Halt),
            }
        }
    }

    fn matches(&self, text: &Vec<char>) -> (r: bool)
        ensures
            r == any_keyword_in(self.kws(), text@),
    {
        first_keyword(&self.keywords, text).is_some()
    }

    /// Takes the driver's answer to the pending action and gives the next one.
    /// Failures of the cache directory, of a click or of delivering an event
    /// are ignored; a failed capture or recognition ends the run after one
    /// error event; cancellation ends it at once. Recognition answered with
    /// `Done` counts as empty text.
    pub fn step(&mut self, o: Outcome) -> (r: Action)
        ensures
            (*final(self), r) == old(self).next(o),
    {
        if let Outcome::Cancelled = o {
            self.phase = Phase::Stopped;
            return Action::Halt;
        }
        match self.phase {
            Phase::Preparing => {
                self.phase = Phase::BeforeTick(FIRST_TICK);
                Action::Sleep(SECOND_MS)
            },
            Phase::BeforeTick(n) => {
                self.phase = Phase::Ticked(n);
                Action::Emit(FishingEvt::CountDown(n))
            },
            Phase::Ticked(n) => {
                if n > 0 {
                    self.phase = Phase::BeforeTick(n - 1);
                    Action::Sleep(SECOND_MS)
                } else {
                    self.phase = Phase::HandingOver;
                    Action::Emit(FishingEvt::PassHandle(self.handle))
                }
            },
            Phase::HandingOver => {
                self.phase = Phase::Capturing;
                Action::Capture(self.scale.clone())
            },
            Phase::Capturing => match o {
                Outcome::Failed(m) => {
                    self.phase = Phase::Failing;
                    Action::Emit(FishingEvt::Failure(FishingErr::IoErr(m)))
                },
                Outcome::OcrFailed(e) => {
                    self.phase = Phase::Failing;
                    Action::Emit(FishingEvt::Failure(e))
                },
                _ => {
                    self.phase = Phase::Recognizing;
                    Action::Recognize
                },
            },
            Phase::Recognizing => {
                let text = match o {
                    Outcome::Failed(m) => {
                        self.phase = Phase::Failing;
                        return Action::Emit(FishingEvt::Failure(FishingErr::IoErr(m)));
                    },
                    Outcome::OcrFailed(e) => {
                        self.phase = Phase::Failing;
                        return Action::Emit(FishingEvt::Failure(e));
                    },
                    Outcome::Text(t) => chars_of(t.as_str()),
                    _ => Vec::new(),
                };
                if self.matches(&text) {
                    self.phase = Phase::FirstClick;
                    Action::Click
                } else {
                    self.phase = Phase::Resting;
                    Action::Sleep(self.interval)
                }
            },
            Phase::FirstClick => {
                self.phase = Phase::BetweenClicks;
                Action::Sleep(CLICK_GAP_MS)
            },
            Phase::BetweenClicks => {
                self.phase = Phase::SecondClick;
                Action::Click
            },
            Phase::SecondClick => {
                self.phase = Phase::Resting;
                Action::Sleep(self.interval)
            },
            Phase::Resting => {
                self.phase = Phase::Capturing;
                Action::Capture(self.scale.clone())
            },
            Phase::Failing => {
                self.phase = Phase::Stopped;
                Action::Halt
            },
            Phase::Stopped => Action::Halt,
        }
    }
}

/// Sets up a run of `args` named by `handle`, and gives its first action.
pub fn start_fishing(args: FishingArgs, handle: RunHandle) -> (r: (FishingLoop, Action))
    ensures
        r.0.phase == Phase::Preparing,
        r.0.scale == args.scale,
        r.0.interval == args.time_interval,
        r.0.kws() == keyword_list(args.keyword@),
        r.0.handle == handle,
        r.1 == Action::PrepareCache,
{
    let keywords = split_keywords(args.keyword.as_str());
    let m = FishingLoop {
        phase: Phase::Preparing,
        scale: args.scale,
        interval: args.time_interval,
        keywords,
        handle,
    };
    (m, Action::PrepareCache)
}

/// The actions a machine gives when the driver answers with `os`, in order.
pub open spec fn run(m: FishingLoop, os: Seq<Outcome>) -> Seq<Action>
    decreases os.len(),
{
    if os.len() == 0 {
        seq![]
    } else {
        let (m1, a) = m.next(os[0]);
        seq![a] + run(m1, os.drop_first())
    }
}

/// The machine once the driver has answered with `os`.
pub open spec fn after(m: FishingLoop, os: Seq<Outcome>) -> FishingLoop
    decreases os.len(),
{
    if os.len() == 0 {
        m
    } else {
        after(m.next(os[0]).0, os.drop_first())
    }
}

/// The action starts an outside program: a capture, a recognition or a click.
pub open spec fn runs_program(a: Action) -> bool {
    a is Capture || a is Recognize || a is Click
}

/// The phases of a run that has not asked for a capture yet; a stopped run
/// never asks again.
pub open spec fn before_capture(p: Phase) -> bool {
    p is Preparing || p is BeforeTick || p is Ticked || p is HandingOver || p is Stopped
}

proof fn lemma_run_split(m: FishingLoop, a: Seq<Outcome>, b: Seq<Outcome>)
    ensures
        run(m, a + b) == run(m, a) + run(after(m, a), b),
    decreases a.len(),
{
    if a.len() == 0 {
        assert(a + b == b);
        assert(run(m, a) + run(after(m, a), b) == run(m, b));
    } else {
        let m1 = m.next(a[0]).0;
        assert((a + b).drop_first() == a.drop_first() + b);
        lemma_run_split(m1, a.drop_first(), b);
        assert(run(m, a + b) == seq![m.next(a[0]).1] + run(m1, a.drop_first() + b));
        assert(run(m, a + b) =~= run(m, a) + run(after(m, a), b));
    }
}

proof fn lemma_run_len(m: FishingLoop, os: Seq<Outcome>)
    ensures
        run(m, os).len() == os.len(),
    decreases os.len(),
{
    if os.len() > 0 {
        lemma_run_len(m.next(os[0]).0, os.drop_first());
    }
}

/// A stopped run answers every outcome with `Halt`.
pub proof fn lemma_stopped_only_halts(m: FishingLoop, os: Seq<Outcome>)
    requires
        m.phase is Stopped,
    ensures
        forall|i: int| 0 <= i < run(m, os).len() ==> run(m, os)[i] is Halt,
    decreases os.len(),
{
    if os.len() > 0 {
        let m1 = m.next(os[0]).0;
        lemma_stopped_only_halts(m1, os.drop_first());
        let tail = run(m1, os.drop_first());
        assert forall|i: int| 0 <= i < run(m, os).len() implies run(m, os)[i] is Halt by {
            if i > 0 {
                assert(run(m, os)[i] == tail[i - 1]);
            }
        }
    }
}

/// Cancelling a run at any point ends it: from then on, whatever the driver
/// reports, the machine asks for nothing but `Halt`, so no further event is
/// emitted, in particular none after a cancel during a sleep.
pub proof fn lemma_cancel_halts(m: FishingLoop, rest: Seq<Outcome>)
    ensures
        forall|i: int|
            0 <= i < run(m, seq![Outcome::Cancelled] + rest).len() ==> #[trigger] run(
                m,
                seq![Outcome::Cancelled] + rest,
            )[i] is Halt,
{
    let os = seq![Outcome::Cancelled] + rest;
    let m1 = m.next(Outcome::Cancelled).0;
    assert(os.drop_first() == rest);
    lemma_stopped_only_halts(m1, rest);
    let tail = run(m1, rest);
    assert forall|i: int| 0 <= i < run(m, os).len() implies run(m, os)[i] is Halt by {
        if i > 0 {
            assert(run(m, os)[i] == tail[i - 1]);
        }
    }
}

proof fn lemma_early_run_spawns_nothing(m: FishingLoop, os: Seq<Outcome>)
    requires
        before_capture(m.phase),
        forall|i: int| 0 <= i < run(m, os).len() ==> !(#[trigger] run(m, os)[i] is Capture),
    ensures
        forall|i: int| 0 <= i < run(m, os).len() ==> !runs_program(#[trigger] run(m, os)[i]),
        before_capture(after(m, os).phase),
    decreases os.len(),
{
    if os.len() > 0 {
        let m1 = m.next(os[0]).0;
        let tail = run(m1, os.drop_first());
        assert(run(m, os)[0] == m.next(os[0]).1);
        assert(!(run(m, os)[0] is Capture));
        assert forall|i: int| 0 <= i < tail.len() implies !(#[trigger] tail[i] is Capture) by {
            assert(run(m, os)[i + 1] == tail[i]);
        }
        lemma_early_run_spawns_nothing(m1, os.drop_first());
        assert forall|i: int| 0 <= i < run(m, os).len() implies !runs_program(
            #[trigger] run(m, os)[i],
        ) by {
            if i > 0 {
                assert(run(m, os)[i] == tail[i - 1]);
            }
        }
    }
}

/// A fresh run cancelled before it asked for its first capture never starts
/// an outside program: not before the cancel, and not after it.
pub proof fn lemma_cancel_before_capture_spawns_nothing(
    m: FishingLoop,
    before: Seq<Outcome>,
    rest: Seq<Outcome>,
)
    requires
        m.phase is Preparing,
        forall|i: int| 0 <= i < run(m, before).len() ==> !(#[trigger] run(m, before)[i] is Capture),
    ensures
        forall|i: int|
            0 <= i < run(m, before + (seq![Outcome::Cancelled] + rest)).len() ==> !runs_program(
                #[trigger] run(m, before + (seq![Outcome::Cancelled] + rest))[i],
            ),
{
    let later = seq![Outcome::Cancelled] + rest;
    lemma_early_run_spawns_nothing(m, before);
    lemma_run_split(m, before, later);
    let m3 = after(m, before).next(Outcome::Cancelled).0;
    assert(later.drop_first() == rest);
    lemma_stopped_only_halts(m3, rest);
    let tail = run(m3, rest);
    let all = run(m, before + later);
    let first = run(m, before);
    let second = run(after(m, before), later);
    assert(all == first + second);
    assert forall|i: int| 0 <= i < all.len() implies !runs_program(#[trigger] all[i]) by {
        if i < first.len() {
            assert(all[i] == first[i]);
        } else {
            let k = i - first.len();
            assert(all[i] == second[k]);
            assert(second == seq![Action::Halt] + tail);
            if k > 0 {
                assert(second[k] == tail[k - 1]);
            }
        }
    }
}

/// A failed capture ends the run with exactly one error event, an I/O error
/// carrying the failure's detail; no capture, recognition or click follows.
pub proof fn lemma_capture_failure_ends_run(m: FishingLoop, detail: String, rest: Seq<Outcome>)
    requires
        m.phase is Capturing,
    ensures
        run(m, seq![Outcome::Failed(detail)] + rest)[0] == Action::Emit(
            FishingEvt::Failure(FishingErr::IoErr(detail)),
        ),
        forall|i: int|
            1 <= i < run(m, seq![Outcome::Failed(detail)] + rest).len() ==> #[trigger] run(
                m,
                seq![Outcome::Failed(detail)] + rest,
            )[i] is Halt,
{
    let os = seq![Outcome::Failed(detail)] + rest;
    let m1 = m.next(os[0]).0;
    assert(os.drop_first() == rest);
    assert(m1.phase is Failing);
    lemma_run_len(m, os);
    if rest.len() > 0 {
        let m2 = m1.next(rest[0]).0;
        lemma_stopped_only_halts(m2, rest.drop_first());
        let tail2 = run(m2, rest.drop_first());
        assert(run(m1, rest) == seq![Action::Halt] + tail2);
        assert forall|i: int| 1 <= i < run(m, os).len() implies #[trigger] run(m, os)[i] is Halt by {
            assert(run(m, os)[i] == run(m1, rest)[i - 1]);
            if i > 1 {
                assert(run(m1, rest)[i - 1] == tail2[i - 2]);
            }
        }
    }
}

/// A failed click does not end the run: after a matching text, failures of
/// both clicks lead on, through the click gap and the poll sleep, to the
/// next capture, exactly as successful clicks do.
pub proof fn lemma_click_failure_keeps_running(
    m: FishingLoop,
    text: String,
    first: String,
    second: String,
)
    requires
        m.phase is Recognizing,
        any_keyword_in(m.kws(), text@),
    ensures
        run(
            m,
            seq![
                Outcome::Text(text),
                Outcome::Failed(first),
                Outcome::Done,
                Outcome::Failed(second),
                Outcome::Done,
            ],
        ) == seq![
            Action::Click,
            Action::Sleep(CLICK_GAP_MS),
            Action::Click,
            Action::Sleep(m.interval),
            Action::Capture(m.scale),
        ],
{
    let os = seq![
        Outcome::Text(text),
        Outcome::Failed(first),
        Outcome::Done,
        Outcome::Failed(second),
        Outcome::Done,
    ];
    reveal_with_fuel(run, 6);
    assert(os.drop_first().drop_first().drop_first().drop_first().drop_first().len() == 0);
    assert(run(m, os) =~= seq![
        Action::Click,
        Action::Sleep(CLICK_GAP_MS),
        Action::Click,
        Action::Sleep(m.interval),
        Action::Capture(m.scale),
    ]);
}

/// Between the last click of one round and the first click of the next, the
/// run sleeps exactly once, for the poll interval, and otherwise only
/// captures and recognizes.
pub proof fn lemma_one_poll_sleep_between_rounds(m: FishingLoop, text: String)
    requires
        m.phase is SecondClick,
        any_keyword_in(m.kws(), text@),
    ensures
        run(m, seq![Outcome::Done, Outcome::Done, Outcome::Done, Outcome::Text(text)]) == seq![
            Action::Sleep(m.interval),
            Action::Capture(m.scale),
            Action::Recognize,
            Action::Click,
        ],
{
    let os = seq![Outcome::Done, Outcome::Done, Outcome::Done, Outcome::Text(text)];
    reveal_with_fuel(run, 5);
    assert(os.drop_first().drop_first().drop_first().drop_first().len() == 0);
    assert(run(m, os) =~= seq![
        Action::Sleep(m.interval),
        Action::Capture(m.scale),
        Action::Recognize,
        Action::Click,
    ]);
}

} // verus!
