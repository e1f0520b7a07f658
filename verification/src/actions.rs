use vstd::prelude::*;

verus! {

/// How a screenshot artifact is to be named: by its content hash (manual and
/// debug captures) or by the 1-based command counter (recording mode).
#[derive(Debug)]
pub enum ScreenshotName {
    ByHash(String),
    ByStep(u64),
}

/// Mathematical image of a `ScreenshotName`.
pub enum NameView {
    ByHash(Seq<char>),
    ByStep(u64),
}

impl View for ScreenshotName {
    type V = NameView;

    open spec fn view(&self) -> NameView {
        match self {
            ScreenshotName::ByHash(h) => NameView::ByHash(h@),
            ScreenshotName::ByStep(n) => NameView::ByStep(*n),
        }
    }
}

impl DeepView for ScreenshotName {
    type V = NameView;

    open spec fn deep_view(&self) -> NameView {
        self.view()
    }
}

/// One primitive effect the sequencing machinery asks its driver to perform.
/// The driver performs the actions of a batch strictly in order; `Capture` and
/// `Prompt` end a batch and determine which observation comes back next.
#[derive(Debug)]
pub enum RunAction {
    /// Press (`down == true`) or release one key, by keysym.
    SendKey { down: bool, keysym: u32 },
    /// Sleep the given number of milliseconds.
    SleepMs(u64),
    /// Sleep the given number of seconds.
    SleepSecs(u64),
    /// Capture a full frame and hand it back.
    Capture,
    /// Show the operator breakpoint prompt and hand back one input line.
    Prompt,
    /// Persist an already-encoded grayscale PNG under the given name.
    WritePng { name: ScreenshotName, png: Vec<u8> },
}

/// Mathematical image of a `RunAction`.
pub enum ActionView {
    SendKey { down: bool, keysym: u32 },
    SleepMs(u64),
    SleepSecs(u64),
    Capture,
    Prompt,
    WritePng { name: NameView, png: Seq<u8> },
}

impl View for RunAction {
    type V = ActionView;

    open spec fn view(&self) -> ActionView {
        match self {
            RunAction::SendKey { down, keysym } => ActionView::SendKey {
                down: *down,
                keysym: *keysym,
            },
            RunAction::SleepMs(n) => ActionView::SleepMs(*n),
            RunAction::SleepSecs(n) => ActionView::SleepSecs(*n),
            RunAction::Capture => ActionView::Capture,
            RunAction::Prompt => ActionView::Prompt,
            RunAction::WritePng { name, png } => ActionView::WritePng {
                name: name@,
                png: png@,
            },
        }
    }
}

impl DeepView for RunAction {
    type V = ActionView;

    open spec fn deep_view(&self) -> ActionView {
        self.view()
    }
}

/// A key press.
pub open spec fn key_down(keysym: u32) -> ActionView {
    ActionView::SendKey { down: true, keysym }
}

/// A key release.
pub open spec fn key_up(keysym: u32) -> ActionView {
    ActionView::SendKey { down: false, keysym }
}

} // verus!
