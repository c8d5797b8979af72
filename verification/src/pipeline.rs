//! The hotkey round trip as a state machine: capture the selection through the
//! clipboard, have it enhanced, paste the result back, and always hide the
//! status pill at the end.
//!
//! The machine decides; the caller acts. Each call of [`Pipeline::step`] takes
//! the outcome of the previous action and returns the next one.

use vstd::prelude::*;
use crate::platform::Platform;
use crate::keys::{
    copy_chord, paste_chord, platform_copy, platform_paste, law_copy_and_paste_agree, send_copy, send_paste, modifiers_settled, modifiers_settled_spec,
    KeyEvent, KEY_RELEASE_POLL_MS, KEY_RELEASE_SETTLE_MS,
};
use crate::text::{is_blank, blank};

verus! {

/// How long the clipboard is given to settle after a copy or a write (ms).
pub const CLIPBOARD_SETTLE_MS: u64 = 120;

/// Why a round trip failed.
#[derive(Debug)]
pub enum PipelineError {
    /// The sentinel could not be written to the clipboard.
    PlantSentinel(String),
    /// The copy keystrokes could not be sent.
    CopyKeys(String),
    /// The sentinel was still on the clipboard after the copy: nothing was copied.
    NoCopy,
    /// The clipboard could not be read as text after the copy.
    Unreadable,
    /// The captured selection was empty or white space only.
    EmptySelection,
    /// The enhancement request failed.
    Enhance(String),
    /// The enhanced text could not be written to the clipboard.
    ClipboardWrite(String),
    /// The paste keystrokes could not be sent.
    PasteKeys(String),
}

/// What the caller reports back: the outcome of the last action.
#[derive(Debug)]
pub enum Event {
    /// The hotkey was pressed: begin.
    Start,
    /// The clipboard was read; `None` when it held no readable text.
    ClipboardRead(Option<String>),
    /// A clipboard write finished.
    ClipboardWritten(Result<(), String>),
    /// Whether Ctrl or Alt is still held, and how long (ms) since the first poll.
    Modifiers { held: bool, elapsed_ms: u64 },
    /// A requested sleep is over.
    Slept,
    /// The synthetic keystrokes were sent, or why not.
    KeysSent(Result<(), String>),
    /// The status pill was shown (or could not be; that is not an error).
    StatusShown,
    /// The enhancement finished with the enhanced text or an error message.
    Enhanced(Result<String, String>),
    /// The status pill was hidden.
    StatusHidden,
}

/// What the caller is to do next.
#[derive(Debug)]
pub enum Action {
    /// Nothing: the event did not fit the current stage.
    Nothing,
    /// Read the clipboard's text.
    ReadClipboard,
    /// Write this text to the clipboard.
    WriteClipboard(String),
    /// Report whether Ctrl or Alt is held.
    PollModifiers,
    /// Sleep this many milliseconds.
    Sleep(u64),
    /// Send these key events, in order.
    SendKeys(Vec<KeyEvent>),
    /// Show the status pill near the cursor.
    ShowStatus,
    /// Enhance this text.
    Enhance(String),
    /// Hide the status pill.
    HideStatus,
    /// The round trip is over, with this outcome.
    Finished(Result<(), PipelineError>),
}

/// Where a round trip stands.
#[derive(Debug)]
pub enum Stage {
    Idle,
    ReadingOriginal,
    PlantingSentinel { original: Option<String> },
    PollingModifiers { original: Option<String> },
    PausingModifiers { original: Option<String> },
    SettlingModifiers { original: Option<String> },
    Copying { original: Option<String> },
    SettlingCopy { original: Option<String> },
    ReadingCopy { original: Option<String> },
    Restoring { captured: Option<String> },
    ClearingSentinel { error: PipelineError },
    ShowingStatus { input: String },
    Enhancing,
    WritingEnhanced,
    SettlingPaste,
    Pasting,
    Hiding { outcome: Result<(), PipelineError> },
    Done,
}

/// One hotkey round trip.
#[derive(Debug)]
pub struct Pipeline {
    pub platform: Platform,
    pub sentinel: String,
    pub stage: Stage,
}

/// What the clipboard is restored to: its original text, or the empty text when
/// it held none.
pub open spec fn restore_text(original: Option<String>) -> Seq<char> {
    match original {
        Some(s) => s@,
        None => Seq::empty(),
    }
}

/// The round trip is ending or over.
pub open spec fn closing(s: Stage) -> bool {
    s is Hiding || s is Done
}

/// Fail with `err`: hide the status pill first.
pub open spec fn fails(q: Stage, a: Action, err: PipelineError) -> bool {
    q == Stage::Hiding { outcome: Err(err) } && a == Action::HideStatus
}

/// The machine's invariant: text about to be enhanced was really copied and is
/// not blank.
pub open spec fn wf(p: Pipeline) -> bool {
    p.stage matches Stage::ShowingStatus { input } ==> !is_blank(input@) && input@ != p.sentinel@
}

/// One step of the round trip: in `p`, on event `e`, the machine moves to `q`
/// and asks for action `a`.
pub open spec fn transition(p: Pipeline, e: Event, q: Pipeline, a: Action) -> bool {
    let same = q.stage == p.stage && a == Action::Nothing;
    &&& q.platform == p.platform
    &&& q.sentinel == p.sentinel
    &&& match p.stage {
        Stage::Idle => match e {
            Event::Start => q.stage == Stage::ReadingOriginal && a == Action::ReadClipboard,
            _ => same,
        },
        Stage::ReadingOriginal => match e {
            Event::ClipboardRead(o) => q.stage == Stage::PlantingSentinel { original: o } && a
                == Action::WriteClipboard(p.sentinel),
            _ => same,
        },
        Stage::PlantingSentinel { original } => match e {
            Event::ClipboardWritten(Ok(_)) => if p.platform == Platform::Windows {
                q.stage == Stage::PollingModifiers { original } && a == Action::PollModifiers
            } else {
                q.stage == Stage::SettlingModifiers { original } && a == Action::Sleep(
                    KEY_RELEASE_SETTLE_MS,
                )
            },
            Event::ClipboardWritten(Err(m)) => fails(q.stage, a, PipelineError::PlantSentinel(m)),
            _ => same,
        },
        Stage::PollingModifiers { original } => match e {
            Event::Modifiers { held, elapsed_ms } => if modifiers_settled_spec(held, elapsed_ms) {
                q.stage == Stage::Copying { original } && (a matches Action::SendKeys(ks) && ks@
                    == copy_chord(p.platform))
            } else {
                q.stage == Stage::PausingModifiers { original } && a == Action::Sleep(
                    KEY_RELEASE_POLL_MS,
                )
            },
            _ => same,
        },
        Stage::PausingModifiers { original } => match e {
            Event::Slept => q.stage == Stage::PollingModifiers { original } && a
                == Action::PollModifiers,
            _ => same,
        },
        Stage::SettlingModifiers { original } => match e {
            Event::Slept => q.stage == Stage::Copying { original } && (a matches Action::SendKeys(
                ks,
            ) && ks@ == copy_chord(p.platform)),
            _ => same,
        },
        Stage::Copying { original } => match e {
            Event::KeysSent(Ok(_)) => q.stage == Stage::SettlingCopy { original } && a
                == Action::Sleep(CLIPBOARD_SETTLE_MS),
            Event::KeysSent(Err(m)) => q.stage == Stage::ClearingSentinel {
                error: PipelineError::CopyKeys(m),
            } && (a matches Action::WriteClipboard(t) && t@ == restore_text(original)),
            _ => same,
        },
        Stage::SettlingCopy { original } => match e {
            Event::Slept => q.stage == Stage::ReadingCopy { original } && a == Action::ReadClipboard,
            _ => same,
        },
        Stage::ReadingCopy { original } => match e {
            Event::ClipboardRead(after) => q.stage == Stage::Restoring { captured: after } && (a
                matches Action::WriteClipboard(t) && t@ == restore_text(original)),
            _ => same,
        },
        Stage::Restoring { captured } => match e {
            Event::ClipboardWritten(_) => match captured {
                None => fails(q.stage, a, PipelineError::Unreadable),
                Some(t) => if t@ == p.sentinel@ {
                    fails(q.stage, a, PipelineError::NoCopy)
                } else if is_blank(t@) {
                    fails(q.stage, a, PipelineError::EmptySelection)
                } else {
                    q.stage == Stage::ShowingStatus { input: t } && a == Action::ShowStatus
                },
            },
            _ => same,
        },
        Stage::ClearingSentinel { error } => match e {
            Event::ClipboardWritten(_) => fails(q.stage, a, error),
            _ => same,
        },
        Stage::ShowingStatus { input } => match e {
            Event::StatusShown => q.stage == Stage::Enhancing && a == Action::Enhance(input),
            _ => same,
        },
        Stage::Enhancing => match e {
            Event::Enhanced(Ok(t)) => q.stage == Stage::WritingEnhanced && a
                == Action::WriteClipboard(t),
            Event::Enhanced(Err(m)) => fails(q.stage, a, PipelineError::Enhance(m)),
            _ => same,
        },
        Stage::WritingEnhanced => match e {
            Event::ClipboardWritten(Ok(_)) => q.stage == Stage::SettlingPaste && a == Action::Sleep(
                CLIPBOARD_SETTLE_MS,
            ),
            Event::ClipboardWritten(Err(m)) => fails(q.stage, a, PipelineError::ClipboardWrite(m)),
            _ => same,
        },
        Stage::SettlingPaste => match e {
            Event::Slept => q.stage == Stage::Pasting && (a matches Action::SendKeys(ks) && ks@
                == paste_chord(p.platform)),
            _ => same,
        },
        Stage::Pasting => match e {
            Event::KeysSent(Ok(_)) => q.stage == Stage::Hiding { outcome: Ok(()) } && a
                == Action::HideStatus,
            Event::KeysSent(Err(m)) => fails(q.stage, a, PipelineError::PasteKeys(m)),
            _ => same,
        },
        Stage::Hiding { outcome } => match e {
            Event::StatusHidden => q.stage == Stage::Done && a == Action::Finished(outcome),
            _ => same,
        },
        Stage::Done => same,
    }
}

impl PipelineError {
    /// The message logged when a round trip fails.
    pub fn message(&self) -> (r: String)
        ensures
            self matches PipelineError::PlantSentinel(e) ==> r@
                == "capture failed: could not plant sentinel on clipboard: "@ + e@,
            self matches PipelineError::CopyKeys(e) ==> r@ == "capture failed: "@ + e@,
            self is NoCopy ==> r@
                == "capture failed: synthetic Ctrl+C produced no copy — sentinel survived. Either no text was selected, focus shifted, or the active app blocks synthetic input"@,
            self is Unreadable ==> r@
                == "capture failed: clipboard was unreadable after Ctrl+C — the focused app may block synthetic input"@,
            self is EmptySelection ==> r@ == "captured selection is empty"@,
            self matches PipelineError::Enhance(e) ==> r@ == "enhance failed: "@ + e@,
            self matches PipelineError::ClipboardWrite(e) ==> r@
                == "replace failed: clipboard write failed: "@ + e@,
            self matches PipelineError::PasteKeys(e) ==> r@ == "replace failed: "@ + e@,
    {
        match self {
            PipelineError::PlantSentinel(e) => {
                let mut r = String::from_str("capture failed: could not plant sentinel on clipboard: ");
                r.append(e.as_str());
                r
            },
            PipelineError::CopyKeys(e) => {
                let mut r = String::from_str("capture failed: ");
                r.append(e.as_str());
                r
            },
            PipelineError::NoCopy => String::from_str(
                "capture failed: synthetic Ctrl+C produced no copy — sentinel survived. Either no text was selected, focus shifted, or the active app blocks synthetic input",
            ),
            PipelineError::Unreadable => String::from_str(
                "capture failed: clipboard was unreadable after Ctrl+C — the focused app may block synthetic input",
            ),
            PipelineError::EmptySelection => String::from_str("captured selection is empty"),
            PipelineError::Enhance(e) => {
                let mut r = String::from_str("enhance failed: ");
                r.append(e.as_str());
                r
            },
            PipelineError::ClipboardWrite(e) => {
                let mut r = String::from_str("replace failed: clipboard write failed: ");
                r.append(e.as_str());
                r
            },
            PipelineError::PasteKeys(e) => {
                let mut r = String::from_str("replace failed: ");
                r.append(e.as_str());
                r
            },
        }
    }
}

impl Pipeline {
    /// A round trip on `platform` that will plant `sentinel` on the clipboard.
    pub fn new(platform: Platform, sentinel: String) -> (r: Pipeline)
        ensures
            r.platform == platform,
            r.sentinel == sentinel,
            r.stage == Stage::Idle,
            wf(r),
    {
        Pipeline { platform, sentinel, stage: Stage::Idle }
    }

    /// Whether the round trip is over.
    pub fn is_done(&self) -> (b: bool)
        ensures
            b == (self.stage is Done),
    {
        match self.stage {
            Stage::Done => true,
            _ => false,
        }
    }

    /// Takes the outcome of the last action and returns the next action.
    pub fn step(&mut self, event: Event) -> (a: Action)
        ensures
            transition(*old(self), event, *final(self), a),
            wf(*old(self)) ==> wf(*final(self)),
    {
        let mut stage = Stage::Done;
        std::mem::swap(&mut stage, &mut self.stage);
        match stage {
            Stage::Idle => match event {
                Event::Start => {
                    self.stage = Stage::ReadingOriginal;
                    Action::ReadClipboard
                },
                _ => {
                    self.stage = Stage::Idle;
                    Action::Nothing
                },
            },
            Stage::ReadingOriginal => match event {
                Event::ClipboardRead(o) => {
                    self.stage = Stage::PlantingSentinel { original: o };
                    Action::WriteClipboard(self.sentinel.clone())
                },
                _ => {
                    self.stage = Stage::ReadingOriginal;
                    Action::Nothing
                },
            },
            Stage::PlantingSentinel { original } => match event {
                Event::ClipboardWritten(Ok(_)) => {
                    if self.platform == Platform::Windows {
                        self.stage = Stage::PollingModifiers { original };
                        Action::PollModifiers
                    } else {
                        self.stage = Stage::SettlingModifiers { original };
                        Action::Sleep(KEY_RELEASE_SETTLE_MS)
                    }
                },
                Event::ClipboardWritten(Err(m)) => {
                    self.stage = Stage::Hiding { outcome: Err(PipelineError::PlantSentinel(m)) };
                    Action::HideStatus
                },
                _ => {
                    self.stage = Stage::PlantingSentinel { original };
                    Action::Nothing
                },
            },
            Stage::PollingModifiers { original } => match event {
                Event::Modifiers { held, elapsed_ms } => {
                    if modifiers_settled(held, elapsed_ms) {
                        self.stage = Stage::Copying { original };
                        Action::SendKeys(send_copy(self.platform))
                    } else {
                        self.stage = Stage::PausingModifiers { original };
                        Action::Sleep(KEY_RELEASE_POLL_MS)
                    }
                },
                _ => {
                    self.stage = Stage::PollingModifiers { original };
                    Action::Nothing
                },
            },
            Stage::PausingModifiers { original } => match event {
                Event::Slept => {
                    self.stage = Stage::PollingModifiers { original };
                    Action::PollModifiers
                },
                _ => {
                    self.stage = Stage::PausingModifiers { original };
                    Action::Nothing
                },
            },
            Stage::SettlingModifiers { original } => match event {
                Event::Slept => {
                    self.stage = Stage::Copying { original };
                    Action::SendKeys(send_copy(self.platform))
                },
                _ => {
                    self.stage = Stage::SettlingModifiers { original };
                    Action::Nothing
                },
            },
            Stage::Copying { original } => match event {
                Event::KeysSent(Ok(_)) => {
                    self.stage = Stage::SettlingCopy { original };
                    Action::Sleep(CLIPBOARD_SETTLE_MS)
                },
                Event::KeysSent(Err(m)) => {
                    self.stage = Stage::ClearingSentinel { error: PipelineError::CopyKeys(m) };
                    let restore = match original {
                        Some(s) => s,
                        None => String::new(),
                    };
                    Action::WriteClipboard(restore)
                },
                _ => {
                    self.stage = Stage::Copying { original };
                    Action::Nothing
                },
            },
            Stage::SettlingCopy { original } => match event {
                Event::Slept => {
                    self.stage = Stage::ReadingCopy { original };
                    Action::ReadClipboard
                },
                _ => {
                    self.stage = Stage::SettlingCopy { original };
                    Action::Nothing
                },
            },
            Stage::ReadingCopy { original } => match event {
                Event::ClipboardRead(after) => {
                    self.stage = Stage::Restoring { captured: after };
                    let restore = match original {
                        Some(s) => s,
                        None => String::new(),
                    };
                    Action::WriteClipboard(restore)
                },
                _ => {
                    self.stage = Stage::ReadingCopy { original };
                    Action::Nothing
                },
            },
            Stage::Restoring { captured } => match event {
                Event::ClipboardWritten(_) => match captured {
                    None => {
                        self.stage = Stage::Hiding { outcome: Err(PipelineError::Unreadable) };
                        Action::HideStatus
                    },
                    Some(t) => {
                        if t == self.sentinel {
                            self.stage = Stage::Hiding { outcome: Err(PipelineError::NoCopy) };
                            Action::HideStatus
                        } else if blank(t.as_str()) {
                            self.stage = Stage::Hiding {
                                outcome: Err(PipelineError::EmptySelection),
                            };
                            Action::HideStatus
                        } else {
                            self.stage = Stage::ShowingStatus { input: t };
                            Action::ShowStatus
                        }
                    },
                },
                _ => {
                    self.stage = Stage::Restoring { captured };
                    Action::Nothing
                },
            },
            Stage::ClearingSentinel { error } => match event {
                Event::ClipboardWritten(_) => {
                    self.stage = Stage::Hiding { outcome: Err(error) };
                    Action::HideStatus
                },
                _ => {
                    self.stage = Stage::ClearingSentinel { error };
                    Action::Nothing
                },
            },
            Stage::ShowingStatus { input } => match event {
                Event::StatusShown => {
                    self.stage = Stage::Enhancing;
                    Action::Enhance(input)
                },
                _ => {
                    self.stage = Stage::ShowingStatus { input };
                    Action::Nothing
                },
            },
            Stage::Enhancing => match event {
                Event::Enhanced(Ok(t)) => {
                    self.stage = Stage::WritingEnhanced;
                    Action::WriteClipboard(t)
                },
                Event::Enhanced(Err(m)) => {
                    self.stage = Stage::Hiding { outcome: Err(PipelineError::Enhance(m)) };
                    Action::HideStatus
                },
                _ => {
                    self.stage = Stage::Enhancing;
                    Action::Nothing
                },
            },
            Stage::WritingEnhanced => match event {
                Event::ClipboardWritten(Ok(_)) => {
                    self.stage = Stage::SettlingPaste;
                    Action::Sleep(CLIPBOARD_SETTLE_MS)
                },
                Event::ClipboardWritten(Err(m)) => {
                    self.stage = Stage::Hiding { outcome: Err(PipelineError::ClipboardWrite(m)) };
                    Action::HideStatus
                },
                _ => {
                    self.stage = Stage::WritingEnhanced;
                    Action::Nothing
                },
            },
            Stage::SettlingPaste => match event {
                Event::Slept => {
                    self.stage = Stage::Pasting;
                    Action::SendKeys(send_paste(self.platform))
                },
                _ => {
                    self.stage = Stage::SettlingPaste;
                    Action::Nothing
                },
            },
            Stage::Pasting => match event {
                Event::KeysSent(Ok(_)) => {
                    self.stage = Stage::Hiding { outcome: Ok(()) };
                    Action::HideStatus
                },
                Event::KeysSent(Err(m)) => {
                    self.stage = Stage::Hiding { outcome: Err(PipelineError::PasteKeys(m)) };
                    Action::HideStatus
                },
                _ => {
                    self.stage = Stage::Pasting;
                    Action::Nothing
                },
            },
            Stage::Hiding { outcome } => match event {
                Event::StatusHidden => {
                    self.stage = Stage::Done;
                    Action::Finished(outcome)
                },
                _ => {
                    self.stage = Stage::Hiding { outcome };
                    Action::Nothing
                },
            },
            Stage::Done => {
                self.stage = Stage::Done;
                Action::Nothing
            },
        }
    }
}


// ---------------------------------------------------------------------------
// Replacing the selection alone
// ---------------------------------------------------------------------------

/// Where a replacement of the selection stands.
#[derive(Debug)]
pub enum ReplaceStage {
    Ready { text: String },
    Writing,
    Settling,
    Pasting,
    Done,
}

/// Pasting a given text over the selection: write it to the clipboard, let the
/// clipboard settle, send the paste keystrokes.
#[derive(Debug)]
pub struct Replacement {
    pub platform: Platform,
    pub stage: ReplaceStage,
}

/// One step of a replacement: in `p`, on event `e`, it moves to `q` and asks for
/// action `a`.
pub open spec fn replace_transition(p: Replacement, e: Event, q: Replacement, a: Action) -> bool {
    let same = q.stage == p.stage && a == Action::Nothing;
    &&& q.platform == p.platform
    &&& match p.stage {
        ReplaceStage::Ready { text } => match e {
            Event::Start => q.stage == ReplaceStage::Writing && a == Action::WriteClipboard(text),
            _ => same,
        },
        ReplaceStage::Writing => match e {
            Event::ClipboardWritten(Ok(_)) => q.stage == ReplaceStage::Settling && a
                == Action::Sleep(CLIPBOARD_SETTLE_MS),
            Event::ClipboardWritten(Err(m)) => q.stage == ReplaceStage::Done && a
                == Action::Finished(Err(PipelineError::ClipboardWrite(m))),
            _ => same,
        },
        ReplaceStage::Settling => match e {
            Event::Slept => q.stage == ReplaceStage::Pasting && (a matches Action::SendKeys(ks)
                && ks@ == paste_chord(p.platform)),
            _ => same,
        },
        ReplaceStage::Pasting => match e {
            Event::KeysSent(Ok(_)) => q.stage == ReplaceStage::Done && a == Action::Finished(
                Ok(()),
            ),
            Event::KeysSent(Err(m)) => q.stage == ReplaceStage::Done && a == Action::Finished(
                Err(PipelineError::PasteKeys(m)),
            ),
            _ => same,
        },
        ReplaceStage::Done => same,
    }
}

impl Replacement {
    /// A replacement of the selection by `text` on `platform`.
    pub fn new(platform: Platform, text: String) -> (r: Replacement)
        ensures
            r.platform == platform,
            r.stage == (ReplaceStage::Ready { text }),
    {
        Replacement { platform, stage: ReplaceStage::Ready { text } }
    }

    /// Takes the outcome of the last action and returns the next action.
    pub fn step(&mut self, event: Event) -> (a: Action)
        ensures
            replace_transition(*old(self), event, *final(self), a),
    {
        let mut stage = ReplaceStage::Done;
        std::mem::swap(&mut stage, &mut self.stage);
        match stage {
            ReplaceStage::Ready { text } => match event {
                Event::Start => {
                    self.stage = ReplaceStage::Writing;
                    Action::WriteClipboard(text)
                },
                _ => {
                    self.stage = ReplaceStage::Ready { text };
                    Action::Nothing
                },
            },
            ReplaceStage::Writing => match event {
                Event::ClipboardWritten(Ok(_)) => {
                    self.stage = ReplaceStage::Settling;
                    Action::Sleep(CLIPBOARD_SETTLE_MS)
                },
                Event::ClipboardWritten(Err(m)) => {
                    self.stage = ReplaceStage::Done;
                    Action::Finished(Err(PipelineError::ClipboardWrite(m)))
                },
                _ => {
                    self.stage = ReplaceStage::Writing;
                    Action::Nothing
                },
            },
            ReplaceStage::Settling => match event {
                Event::Slept => {
                    self.stage = ReplaceStage::Pasting;
                    Action::SendKeys(send_paste(self.platform))
                },
                _ => {
                    self.stage = ReplaceStage::Settling;
                    Action::Nothing
                },
            },
            ReplaceStage::Pasting => match event {
                Event::KeysSent(Ok(_)) => {
                    self.stage = ReplaceStage::Done;
                    Action::Finished(Ok(()))
                },
                Event::KeysSent(Err(m)) => {
                    self.stage = ReplaceStage::Done;
                    Action::Finished(Err(PipelineError::PasteKeys(m)))
                },
                _ => {
                    self.stage = ReplaceStage::Pasting;
                    Action::Nothing
                },
            },
            ReplaceStage::Done => {
                self.stage = ReplaceStage::Done;
                Action::Nothing
            },
        }
    }
}

// ---------------------------------------------------------------------------
// Runs and their laws
// ---------------------------------------------------------------------------

/// `states[i]` moves to `states[i + 1]` on `events[i]`, asking for `actions[i]`.
pub open spec fn is_run(states: Seq<Pipeline>, events: Seq<Event>, actions: Seq<Action>) -> bool {
    &&& states.len() == events.len() + 1
    &&& actions.len() == events.len()
    &&& forall|i: int|
        #![trigger events[i]]
        0 <= i < events.len() ==> transition(states[i], events[i], states[i + 1], actions[i])
}

/// The clipboard's original text, for the stages that carry it.
pub open spec fn carried_original(s: Stage) -> Option<Option<String>> {
    match s {
        Stage::PlantingSentinel { original } => Some(original),
        Stage::PollingModifiers { original } => Some(original),
        Stage::PausingModifiers { original } => Some(original),
        Stage::SettlingModifiers { original } => Some(original),
        Stage::Copying { original } => Some(original),
        Stage::SettlingCopy { original } => Some(original),
        Stage::ReadingCopy { original } => Some(original),
        _ => None,
    }
}

/// The stages after the clipboard has been given back its original text.
pub open spec fn past_restore(s: Stage) -> bool {
    ||| s is Restoring
    ||| s is ClearingSentinel
    ||| s is ShowingStatus
    ||| s is Enhancing
    ||| s is WritingEnhanced
    ||| s is SettlingPaste
    ||| s is Pasting
}

/// At step `i` of a run the clipboard's original text `o` was read.
pub open spec fn read_original_at(
    states: Seq<Pipeline>,
    events: Seq<Event>,
    i: int,
    o: Option<String>,
) -> bool {
    &&& 0 <= i < events.len()
    &&& states[i].stage is ReadingOriginal
    &&& events[i] == Event::ClipboardRead(o)
}

/// At step `j` of a run the clipboard was given back the original text `o`.
pub open spec fn restored_at(actions: Seq<Action>, j: int, o: Option<String>) -> bool {
    &&& 0 <= j < actions.len()
    &&& actions[j] matches Action::WriteClipboard(t)
    &&& t@ == restore_text(o)
}

/// In stage `s`, action `a` gives the clipboard back its original text.
pub open spec fn restores_original(s: Stage, a: Action) -> bool {
    carried_original(s) matches Some(original) && (a matches Action::WriteClipboard(t) && t@
        == restore_text(original))
}

/// At step `i` of a run the sentinel was written to the clipboard.
pub open spec fn plants_sentinel_at(states: Seq<Pipeline>, events: Seq<Event>, i: int) -> bool {
    &&& 0 <= i < events.len()
    &&& states[i].stage is PlantingSentinel
    &&& events[i] matches Event::ClipboardWritten(Ok(_))
}

/// The stages in which the sentinel has not yet been written.
pub open spec fn before_sentinel(s: Stage) -> bool {
    s is Idle || s is ReadingOriginal || s is PlantingSentinel
}

/// Before step `k` of a run, the original clipboard text was read and written
/// back.
pub open spec fn restored_before(
    states: Seq<Pipeline>,
    events: Seq<Event>,
    actions: Seq<Action>,
    k: int,
) -> bool {
    exists|i: int, j: int, o: Option<String>|
        i < k && j < k && #[trigger] read_original_at(states, events, i, o) && #[trigger] restored_at(
            actions,
            j,
            o,
        )
}

/// Before step `k` of a run, the sentinel was never written.
pub open spec fn none_planted_before(states: Seq<Pipeline>, events: Seq<Event>, k: int) -> bool {
    forall|i: int| 0 <= i < k ==> !#[trigger] plants_sentinel_at(states, events, i)
}

/// At step `j` of a run, after the copy keystrokes, the clipboard held `c`.
pub open spec fn copied_at(states: Seq<Pipeline>, events: Seq<Event>, j: int, c: Option<String>) -> bool {
    &&& 0 <= j < events.len()
    &&& states[j].stage is ReadingCopy
    &&& events[j] == Event::ClipboardRead(c)
}

spec fn run_inv(states: Seq<Pipeline>, events: Seq<Event>, actions: Seq<Action>, k: int) -> bool {
    &&& (states[k].stage matches Stage::Restoring { captured } ==> exists|j: int|
        j < k && #[trigger] copied_at(states, events, j, captured))
    &&& (states[k].stage matches Stage::ShowingStatus { input } ==> exists|j: int|
        j < k && #[trigger] copied_at(states, events, j, Some(input)))
    &&& (carried_original(states[k].stage) matches Some(o) ==> exists|i: int|
        i < k && #[trigger] read_original_at(states, events, i, o))
    &&& (past_restore(states[k].stage) ==> restored_before(states, events, actions, k))
    &&& (before_sentinel(states[k].stage) ==> none_planted_before(states, events, k))
    &&& (closing(states[k].stage) ==> restored_before(states, events, actions, k)
        || none_planted_before(states, events, k))
    &&& wf(states[k])
}

proof fn lemma_step_classes(p: Pipeline, e: Event, q: Pipeline, a: Action)
    requires
        transition(p, e, q, a),
    ensures
        q.stage matches Stage::Restoring { captured } ==> (p.stage is ReadingCopy && e
            == Event::ClipboardRead(captured)) || p.stage == q.stage,
        q.stage matches Stage::ShowingStatus { input } ==> p.stage == (Stage::Restoring {
            captured: Some(input),
        }) || p.stage == q.stage,
        before_sentinel(q.stage) ==> before_sentinel(p.stage) && !(p.stage is PlantingSentinel
            && e matches Event::ClipboardWritten(Ok(_))),
        closing(q.stage) && !closing(p.stage) ==> past_restore(p.stage) || (before_sentinel(
            p.stage,
        ) && !(p.stage is PlantingSentinel && e matches Event::ClipboardWritten(Ok(_)))),
{
}

proof fn lemma_restored_later(
    states: Seq<Pipeline>,
    events: Seq<Event>,
    actions: Seq<Action>,
    k: int,
)
    requires
        restored_before(states, events, actions, k - 1),
    ensures
        restored_before(states, events, actions, k),
{
    let (i, j, o) = choose|i: int, j: int, o: Option<String>|
        i < k - 1 && j < k - 1 && #[trigger] read_original_at(states, events, i, o)
            && #[trigger] restored_at(actions, j, o);
    assert(read_original_at(states, events, i, o) && restored_at(actions, j, o));
}

proof fn lemma_none_planted_later(states: Seq<Pipeline>, events: Seq<Event>, k: int)
    requires
        none_planted_before(states, events, k - 1),
        !plants_sentinel_at(states, events, k - 1),
    ensures
        none_planted_before(states, events, k),
{
    assert forall|i: int| 0 <= i < k implies !#[trigger] plants_sentinel_at(states, events, i) by {
        if i < k - 1 {
            assert(!plants_sentinel_at(states, events, i));
        }
    }
}

proof fn lemma_step_entering_close(p: Pipeline, e: Event, q: Pipeline, a: Action)
    requires
        transition(p, e, q, a),
        !closing(p.stage),
        closing(q.stage),
    ensures
        a == Action::HideStatus,
{
}

proof fn lemma_step_carries(p: Pipeline, e: Event, q: Pipeline, a: Action)
    requires
        transition(p, e, q, a),
    ensures
        carried_original(q.stage) matches Some(o) ==> ((p.stage is ReadingOriginal && e
            == Event::ClipboardRead(o)) || carried_original(p.stage) == Some(o)),
        past_restore(q.stage) ==> past_restore(p.stage) || restores_original(p.stage, a),
{
}

/// Taking a step keeps the invariant: the text about to be enhanced was really
/// copied and is not blank, and only such text is ever sent for enhancement.
pub proof fn law_only_copied_text_is_enhanced(p: Pipeline, e: Event, q: Pipeline, a: Action)
    requires
        transition(p, e, q, a),
        wf(p),
    ensures
        wf(q),
        a matches Action::Enhance(t) ==> !is_blank(t@) && t@ != p.sentinel@,
{
}

proof fn lemma_run_inv(states: Seq<Pipeline>, events: Seq<Event>, actions: Seq<Action>, k: int)
    requires
        is_run(states, events, actions),
        states[0].stage is Idle,
        wf(states[0]),
        0 <= k <= events.len(),
    ensures
        run_inv(states, events, actions, k),
    decreases k,
{
    if k > 0 {
        lemma_run_inv(states, events, actions, k - 1);
        let p = states[k - 1];
        let q = states[k];
        assert(transition(p, events[k - 1], q, actions[k - 1]));
        lemma_step_carries(p, events[k - 1], q, actions[k - 1]);
        law_only_copied_text_is_enhanced(p, events[k - 1], q, actions[k - 1]);
        if carried_original(q.stage) is Some {
            let o = carried_original(q.stage)->0;
            if p.stage is ReadingOriginal && events[k - 1] == Event::ClipboardRead(o) {
                assert(read_original_at(states, events, k - 1, o));
            } else {
                let i = choose|i: int| i < k - 1 && #[trigger] read_original_at(states, events, i, o);
                assert(read_original_at(states, events, i, o));
            }
        }
        if past_restore(q.stage) {
            if past_restore(p.stage) {
                lemma_restored_later(states, events, actions, k);
            } else {
                let o = carried_original(p.stage)->0;
                let i = choose|i: int| i < k - 1 && #[trigger] read_original_at(states, events, i, o);
                assert(restored_at(actions, k - 1, o));
                assert(read_original_at(states, events, i, o));
            }
        }
        lemma_step_classes(p, events[k - 1], q, actions[k - 1]);
        if q.stage is Restoring {
            let c = q.stage->captured;
            if p.stage == q.stage {
                let j = choose|j: int| j < k - 1 && #[trigger] copied_at(states, events, j, c);
                assert(copied_at(states, events, j, c));
            } else {
                assert(copied_at(states, events, k - 1, c));
            }
        }
        if q.stage is ShowingStatus {
            let t = q.stage->input;
            let j = if p.stage == q.stage {
                choose|j: int| j < k - 1 && #[trigger] copied_at(states, events, j, Some(t))
            } else {
                choose|j: int| j < k - 1 && #[trigger] copied_at(states, events, j, Some(t))
            };
            assert(copied_at(states, events, j, Some(t)));
        }
        let planting = plants_sentinel_at(states, events, k - 1);
        if before_sentinel(q.stage) {
            lemma_none_planted_later(states, events, k);
        }
        if closing(q.stage) {
            if closing(p.stage) {
                assert(!planting);
                if restored_before(states, events, actions, k - 1) {
                    lemma_restored_later(states, events, actions, k);
                } else {
                    lemma_none_planted_later(states, events, k);
                }
            } else if past_restore(p.stage) {
                lemma_restored_later(states, events, actions, k);
            } else {
                lemma_none_planted_later(states, events, k);
            }
        }
    }
}

/// However a round trip goes, it ends only after the status pill was hidden:
/// once a run reaches the closing stages, a `HideStatus` action was issued.
pub proof fn law_status_hidden_before_finish(
    states: Seq<Pipeline>,
    events: Seq<Event>,
    actions: Seq<Action>,
    k: int,
)
    requires
        is_run(states, events, actions),
        !closing(states[0].stage),
        0 <= k <= events.len(),
        closing(states[k].stage),
    ensures
        exists|i: int| 0 <= i < k && actions[i] == Action::HideStatus,
    decreases k,
{
    assert(k > 0);
    let p = states[k - 1];
    assert(transition(p, events[k - 1], states[k], actions[k - 1]));
    if closing(p.stage) {
        law_status_hidden_before_finish(states, events, actions, k - 1);
        let i = choose|i: int| 0 <= i < k - 1 && actions[i] == Action::HideStatus;
        assert(actions[i] == Action::HideStatus);
    } else {
        lemma_step_entering_close(p, events[k - 1], states[k], actions[k - 1]);
    }
}

/// The clipboard is given back its original contents before the selection is
/// sent for enhancement: in a run begun idle, every `Enhance` action follows a
/// write of the text the clipboard held when the round trip began.
pub proof fn law_clipboard_restored_before_enhancing(
    states: Seq<Pipeline>,
    events: Seq<Event>,
    actions: Seq<Action>,
    m: int,
)
    requires
        is_run(states, events, actions),
        states[0].stage is Idle,
        wf(states[0]),
        0 <= m < events.len(),
        actions[m] is Enhance,
    ensures
        exists|i: int, j: int, o: Option<String>|
            i < m && j < m && #[trigger] read_original_at(states, events, i, o)
                && #[trigger] restored_at(actions, j, o),
{
    lemma_run_inv(states, events, actions, m);
    assert(transition(states[m], events[m], states[m + 1], actions[m]));
}

/// In a run begun idle, the text sent for enhancement is never blank and never
/// the sentinel.
pub proof fn law_enhanced_text_was_copied(
    states: Seq<Pipeline>,
    events: Seq<Event>,
    actions: Seq<Action>,
    m: int,
)
    requires
        is_run(states, events, actions),
        states[0].stage is Idle,
        wf(states[0]),
        0 <= m < events.len(),
    ensures
        actions[m] matches Action::Enhance(t) ==> !is_blank(t@) && t@ != states[m].sentinel@,
{
    lemma_run_inv(states, events, actions, m);
    assert(transition(states[m], events[m], states[m + 1], actions[m]));
    law_only_copied_text_is_enhanced(states[m], events[m], states[m + 1], actions[m]);
}

/// The sentinel never outlives a round trip: in a run begun idle that wrote the
/// sentinel to the clipboard (at step `p`), the clipboard was given back its
/// original text before the run reached its closing stages, whatever failed.
pub proof fn law_sentinel_cleared_before_finish(
    states: Seq<Pipeline>,
    events: Seq<Event>,
    actions: Seq<Action>,
    k: int,
    p: int,
)
    requires
        is_run(states, events, actions),
        states[0].stage is Idle,
        wf(states[0]),
        0 <= k <= events.len(),
        closing(states[k].stage),
        0 <= p < k,
        plants_sentinel_at(states, events, p),
    ensures
        restored_before(states, events, actions, k),
{
    lemma_run_inv(states, events, actions, k);
    if !restored_before(states, events, actions, k) {
        assert(!plants_sentinel_at(states, events, p));
    }
}

/// When the paste settle ends, the round trip sends the paste shortcut of its
/// own platform (Cmd+V on macOS, Ctrl+V elsewhere), whatever that platform is.
pub proof fn law_round_trip_pastes_with_own_platform(p: Pipeline, q: Pipeline, a: Action)
    requires
        p.stage is SettlingPaste,
        transition(p, Event::Slept, q, a),
    ensures
        q.stage is Pasting,
        a matches Action::SendKeys(ks) && ks@ == platform_paste(p.platform),
{
    law_copy_and_paste_agree(p.platform);
}

/// The copy keystrokes of a round trip are the copy shortcut of its own
/// platform (Cmd+C on macOS, Ctrl+C elsewhere), sent once the modifiers are
/// released, or once the fixed wait is over where they cannot be polled.
pub proof fn law_round_trip_copies_with_own_platform(p: Pipeline, e: Event, q: Pipeline, a: Action)
    requires
        transition(p, e, q, a),
        a is SendKeys,
        !(p.stage is SettlingPaste),
    ensures
        q.stage is Copying,
        a matches Action::SendKeys(ks) && ks@ == platform_copy(p.platform),
        p.stage is PollingModifiers || (p.stage is SettlingModifiers && e is Slept),
{
    law_copy_and_paste_agree(p.platform);
}

/// A replacement sends the paste shortcut of its own platform (Cmd+V on macOS,
/// Ctrl+V elsewhere) once the clipboard has settled, and only then.
pub proof fn law_replacement_pastes_with_own_platform(
    r: Replacement,
    e: Event,
    q: Replacement,
    a: Action,
)
    requires
        replace_transition(r, e, q, a),
        a is SendKeys,
    ensures
        r.stage is Settling,
        e is Slept,
        q.stage is Pasting,
        a matches Action::SendKeys(ks) && ks@ == platform_paste(r.platform),
{
    law_copy_and_paste_agree(r.platform);
}

/// A replacement writes exactly the text it was made with, first.
pub proof fn law_replacement_writes_its_text(platform: Platform, text: String, q: Replacement, a: Action)
    requires
        replace_transition(Replacement { platform, stage: ReplaceStage::Ready { text } }, Event::Start, q, a),
    ensures
        a == Action::WriteClipboard(text),
        q.stage is Writing,
{
}

/// What is sent for enhancement is exactly the text the clipboard held after
/// the copy keystrokes, unchanged.
pub proof fn law_enhances_the_copied_text(
    states: Seq<Pipeline>,
    events: Seq<Event>,
    actions: Seq<Action>,
    m: int,
)
    requires
        is_run(states, events, actions),
        states[0].stage is Idle,
        wf(states[0]),
        0 <= m < events.len(),
    ensures
        actions[m] matches Action::Enhance(t) ==> exists|j: int|
            j < m && #[trigger] copied_at(states, events, j, Some(t)),
{
    lemma_run_inv(states, events, actions, m);
    assert(transition(states[m], events[m], states[m + 1], actions[m]));
    if actions[m] is Enhance {
        let t = actions[m]->Enhance_0;
        assert(states[m].stage == Stage::ShowingStatus { input: t });
        let j = choose|j: int| j < m && #[trigger] copied_at(states, events, j, Some(t));
        assert(copied_at(states, events, j, Some(t)));
    }
}

/// The text pasted is the enhancement as the model returned it, unchanged; a
/// failed enhancement writes nothing and ends the round trip.
pub proof fn law_pastes_the_enhancement(p: Pipeline, e: Event, q: Pipeline, a: Action)
    requires
        p.stage is Enhancing,
        transition(p, e, q, a),
    ensures
        e matches Event::Enhanced(Ok(t)) ==> a == Action::WriteClipboard(t) && q.stage is WritingEnhanced,
        e matches Event::Enhanced(Err(m)) ==> a == Action::HideStatus && q.stage == (Stage::Hiding {
            outcome: Err(PipelineError::Enhance(m)),
        }),
{
}

/// The first clipboard write of a round trip is its sentinel.
pub proof fn law_first_write_is_the_sentinel(p: Pipeline, o: Option<String>, q: Pipeline, a: Action)
    requires
        p.stage is ReadingOriginal,
        transition(p, Event::ClipboardRead(o), q, a),
    ensures
        a == Action::WriteClipboard(p.sentinel),
        q.stage == (Stage::PlantingSentinel { original: o }),
{
}

/// What the clipboard is given back: its text as it was, or the empty text when
/// it held none.
pub proof fn law_restore_text(s: String)
    ensures
        restore_text(Some(s)) == s@,
        restore_text(None) == Seq::<char>::empty(),
{
}

/// While polling, the copy is sent as soon as Ctrl and Alt are up or the wait
/// has lasted 1500 ms; otherwise the round trip sleeps 20 ms and polls again.
pub proof fn law_modifier_polling(p: Pipeline, held: bool, elapsed_ms: u64, q: Pipeline, a: Action)
    requires
        p.stage is PollingModifiers,
        transition(p, Event::Modifiers { held, elapsed_ms }, q, a),
    ensures
        (!held || elapsed_ms >= 1500) ==> q.stage is Copying && a is SendKeys,
        (held && elapsed_ms < 1500) ==> q.stage is PausingModifiers && a == Action::Sleep(20),
{
}

} // verus!
