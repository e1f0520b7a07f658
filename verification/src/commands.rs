use vstd::prelude::*;

use vstd::string::StringExecFns;

verus! {

/// One scripted instruction for the virtual console. A step is an ordered
/// `Vec<VncCmd>`; a script is an ordered `Vec` of steps. Ordering is
/// significant and never reordered.
#[derive(Debug, Clone)]
pub enum VncCmd {
    /// Press and release Return.
    Enter,
    /// Press and release the space bar.
    Spacebar,
    /// Press and release Tab.
    Tab,
    /// Press and release the left Super key.
    LeftSuper,
    /// Type the given text characters with a fixed pacing delay between each.
    Type(String),
    /// Wait the given amount of seconds.
    Wait(u64),
    /// Wait for the full screen's content hash to match the given hash.
    WaitScreen(String),
    /// Wait for a region of the screen to match the given hash; the fields
    /// are hash, top, left, width, height.
    WaitScreenRect(String, u16, u16, u16, u16),
}

/// Mathematical image of a `VncCmd`.
pub enum CmdView {
    Enter,
    Spacebar,
    Tab,
    LeftSuper,
    Type(Seq<char>),
    Wait(u64),
    WaitScreen(Seq<char>),
    WaitScreenRect(Seq<char>, u16, u16, u16, u16),
}

impl View for VncCmd {
    type V = CmdView;

    open spec fn view(&self) -> CmdView {
        match self {
            VncCmd::Enter => CmdView::Enter,
            VncCmd::Spacebar => CmdView::Spacebar,
            VncCmd::Tab => CmdView::Tab,
            VncCmd::LeftSuper => CmdView::LeftSuper,
            VncCmd::Type(t) => CmdView::Type(t@),
            VncCmd::Wait(n) => CmdView::Wait(*n),
            VncCmd::WaitScreen(h) => CmdView::WaitScreen(h@),
            VncCmd::WaitScreenRect(h, top, left, width, height) => CmdView::WaitScreenRect(
                h@,
                *top,
                *left,
                *width,
                *height,
            ),
        }
    }
}

impl DeepView for VncCmd {
    type V = CmdView;

    open spec fn deep_view(&self) -> CmdView {
        self.view()
    }
}

/// Type a text and press Return, then give the guest two seconds.
pub open spec fn enter_step(t: Seq<char>) -> Seq<CmdView> {
    seq![CmdView::Type(t), CmdView::Enter, CmdView::Wait(2)]
}

/// Type a text and press Tab, then give the guest two seconds.
pub open spec fn tab_step(t: Seq<char>) -> Seq<CmdView> {
    seq![CmdView::Type(t), CmdView::Tab, CmdView::Wait(2)]
}

/// Type a text, then give the guest one second.
pub open spec fn input_step(t: Seq<char>) -> Seq<CmdView> {
    seq![CmdView::Type(t), CmdView::Wait(1)]
}

/// Build the step that types `text` and presses Return.
pub fn enter(text: &str) -> (r: Vec<VncCmd>)
    ensures
        r.deep_view() == enter_step(text@),
{
    let r = vec![
        VncCmd::Type(String::from_str(text)),
        VncCmd::Enter,
        VncCmd::Wait(2),
    ];
    proof {
        assert(r.deep_view() =~= enter_step(text@));
    }
    r
}

/// Build the step that presses Return alone.
pub fn enter_key() -> (r: Vec<VncCmd>)
    ensures
        r.deep_view() == seq![CmdView::Enter, CmdView::Wait(2)],
{
    let r = vec![VncCmd::Enter, VncCmd::Wait(2)];
    proof {
        assert(r.deep_view() =~= seq![CmdView::Enter, CmdView::Wait(2)]);
    }
    r
}

/// Build the step that presses the space bar.
pub fn spacebar() -> (r: Vec<VncCmd>)
    ensures
        r.deep_view() == seq![CmdView::Spacebar, CmdView::Wait(2)],
{
    let r = vec![VncCmd::Spacebar, VncCmd::Wait(2)];
    proof {
        assert(r.deep_view() =~= seq![CmdView::Spacebar, CmdView::Wait(2)]);
    }
    r
}

/// Build the step that types `text` and presses Tab.
pub fn tab(text: &str) -> (r: Vec<VncCmd>)
    ensures
        r.deep_view() == tab_step(text@),
{
    let r = vec![
        VncCmd::Type(String::from_str(text)),
        VncCmd::Tab,
        VncCmd::Wait(2),
    ];
    proof {
        assert(r.deep_view() =~= tab_step(text@));
    }
    r
}

/// Build the step that presses Tab alone.
pub fn tab_key() -> (r: Vec<VncCmd>)
    ensures
        r.deep_view() == seq![CmdView::Tab, CmdView::Wait(2)],
{
    let r = vec![VncCmd::Tab, VncCmd::Wait(2)];
    proof {
        assert(r.deep_view() =~= seq![CmdView::Tab, CmdView::Wait(2)]);
    }
    r
}

/// Build the step that waits the given number of seconds.
pub fn wait(seconds: u64) -> (r: Vec<VncCmd>)
    ensures
        r.deep_view() == seq![CmdView::Wait(seconds)],
{
    let r = vec![VncCmd::Wait(seconds)];
    proof {
        assert(r.deep_view() =~= seq![CmdView::Wait(seconds)]);
    }
    r
}

/// Build the step that waits for the full screen to match a hash.
pub fn wait_screen(hash: &str) -> (r: Vec<VncCmd>)
    ensures
        r.deep_view() == seq![CmdView::WaitScreen(hash@)],
{
    let r = vec![VncCmd::WaitScreen(String::from_str(hash))];
    proof {
        assert(r.deep_view() =~= seq![CmdView::WaitScreen(hash@)]);
    }
    r
}

/// Build the step that waits for a screen region to match a hash.
pub fn wait_screen_rect(hash: &str, top: u16, left: u16, width: u16, height: u16) -> (r: Vec<
    VncCmd,
>)
    ensures
        r.deep_view() == seq![CmdView::WaitScreenRect(hash@, top, left, width, height)],
{
    let r = vec![VncCmd::WaitScreenRect(String::from_str(hash), top, left, width, height)];
    proof {
        assert(r.deep_view() =~= seq![CmdView::WaitScreenRect(hash@, top, left, width, height)]);
    }
    r
}

/// Build the step that types `text` and waits one second.
pub fn input(text: &str) -> (r: Vec<VncCmd>)
    ensures
        r.deep_view() == input_step(text@),
{
    let r = vec![VncCmd::Type(String::from_str(text)), VncCmd::Wait(1)];
    proof {
        assert(r.deep_view() =~= input_step(text@));
    }
    r
}

/// Build the step that presses the left Super key.
pub fn left_super() -> (r: Vec<VncCmd>)
    ensures
        r.deep_view() == seq![CmdView::LeftSuper, CmdView::Wait(2)],
{
    let r = vec![VncCmd::LeftSuper, VncCmd::Wait(2)];
    proof {
        assert(r.deep_view() =~= seq![CmdView::LeftSuper, CmdView::Wait(2)]);
    }
    r
}

} // verus!
