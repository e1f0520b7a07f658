use vstd::prelude::*;

use crate::actions::{ActionView, NameView, RunAction, ScreenshotName};
use crate::artifact::{encode_png_gray, png_gray_of};
use crate::commands::{CmdView, VncCmd};
use crate::digest::hash_spec;
use crate::errors::CoreError;
use crate::input::{
    push_special_key, push_text_actions, special_key_actions, text_actions, KEYSYM_ENTER,
    KEYSYM_LEFT_SUPER, KEYSYM_SPACEBAR, KEYSYM_TAB,
};
use crate::parse::{parse_line, parse_operator_line, OperatorCmd};
use crate::rng::jitter_ms;
use crate::screenshot::{lemma_trim_bytes, region_bytes, Rect, VncScreenshot};
use crate::session::VncConnection;

verus! {

/// Where a bootstrap run stands between observations.
#[derive(Debug)]
pub enum Phase {
    /// Ready to begin the command at the current position (or to finish).
    AtCommand,
    /// Suspended at an operator breakpoint, awaiting one input line.
    Breakpoint,
    /// An operator asked for a screenshot: awaiting the capture, to be
    /// trimmed to `rect` if one was given.
    BreakpointCapture { rect: Option<Rect> },
    /// A wait-screen command is polling: awaiting a capture to compare
    /// against `target`, over the region `rect` if one was given.
    Waiting { target: String, rect: Option<Rect> },
    /// The command ran and the session records: awaiting the capture to
    /// persist under the command counter.
    Record,
    /// The whole script has run.
    Finished,
}

/// The number of commands in a script.
pub open spec fn total_cmds(sc: Seq<Seq<CmdView>>) -> int
    decreases sc.len(),
{
    if sc.len() == 0 {
        0
    } else {
        total_cmds(sc.drop_last()) + sc.last().len()
    }
}

/// The number of commands strictly before position `(si, ci)`.
pub open spec fn cmds_before(sc: Seq<Seq<CmdView>>, si: int, ci: int) -> int {
    total_cmds(sc.take(si)) + ci
}

/// The first real command position at or after `(si, ci)`: empty (or
/// exhausted) steps are skipped; the end is `(sc.len(), 0)`.
pub open spec fn skip_empty(sc: Seq<Seq<CmdView>>, si: int, ci: int) -> (int, int)
    decreases sc.len() - si,
{
    if si < 0 || si >= sc.len() {
        (sc.len() as int, 0)
    } else if ci >= sc[si].len() {
        skip_empty(sc, si + 1, 0)
    } else {
        (si, ci)
    }
}

proof fn lemma_total_nonneg(sc: Seq<Seq<CmdView>>)
    ensures
        total_cmds(sc) >= 0,
    decreases sc.len(),
{
    if sc.len() > 0 {
        lemma_total_nonneg(sc.drop_last());
    }
}

proof fn lemma_total_take_succ(sc: Seq<Seq<CmdView>>, i: int)
    requires
        0 <= i < sc.len(),
    ensures
        total_cmds(sc.take(i + 1)) == total_cmds(sc.take(i)) + sc[i].len(),
{
    assert(sc.take(i + 1).drop_last() =~= sc.take(i));
    assert(sc.take(i + 1).last() == sc[i]);
}

proof fn lemma_total_take_le(sc: Seq<Seq<CmdView>>, i: int)
    requires
        0 <= i <= sc.len(),
    ensures
        total_cmds(sc.take(i)) <= total_cmds(sc),
    decreases sc.len() - i,
{
    if i == sc.len() {
        assert(sc.take(i) =~= sc);
    } else {
        lemma_total_take_succ(sc, i);
        lemma_total_take_le(sc, i + 1);
    }
}

/// A real command position counts strictly below the script's total.
proof fn lemma_cmds_before_lt_total(sc: Seq<Seq<CmdView>>, si: int, ci: int)
    requires
        0 <= si < sc.len(),
        0 <= ci < sc[si].len(),
    ensures
        0 <= cmds_before(sc, si, ci) < total_cmds(sc),
{
    lemma_total_nonneg(sc.take(si));
    lemma_total_take_succ(sc, si);
    lemma_total_take_le(sc, si + 1);
}

/// Skipping empty steps reaches a real position (or the end) and passes no
/// command by.
proof fn lemma_skip_empty_props(sc: Seq<Seq<CmdView>>, si: int, ci: int)
    requires
        0 <= si <= sc.len(),
        si < sc.len() ==> 0 <= ci <= sc[si].len(),
        si == sc.len() ==> ci == 0,
    ensures
        ({
            let (si2, ci2) = skip_empty(sc, si, ci);
            &&& 0 <= si2 <= sc.len()
            &&& (si2 == sc.len() ==> ci2 == 0)
            &&& (si2 < sc.len() ==> 0 <= ci2 < sc[si2].len())
            &&& cmds_before(sc, si2, ci2) == cmds_before(sc, si, ci)
        }),
    decreases sc.len() - si,
{
    if si == sc.len() {
        assert(sc.take(si) =~= sc.take(sc.len() as int));
    } else if ci >= sc[si].len() {
        lemma_total_take_succ(sc, si);
        lemma_skip_empty_props(sc, si + 1, 0);
    }
}

/// The synchronous effect and state change of running one command whose
/// position is `(pre.step_idx, pre.cmd_idx)`. A key or wait command completes
/// at once (and, when the session records, leaves a recording capture
/// pending); a wait-screen command starts polling and leaves the position
/// where it is until a matching capture arrives.
pub open spec fn exec_cmd_post(
    pre: BootSequencer,
    post: BootSequencer,
    record: bool,
    cmd: CmdView,
    acts: Seq<ActionView>,
) -> bool {
    match cmd {
        CmdView::Type(t) => done_cmd_post(pre, post, record, text_actions(t), acts),
        CmdView::Enter => done_cmd_post(
            pre,
            post,
            record,
            special_key_actions(KEYSYM_ENTER as u32),
            acts,
        ),
        CmdView::Tab => done_cmd_post(pre, post, record, special_key_actions(KEYSYM_TAB as u32), acts),
        CmdView::Spacebar => done_cmd_post(
            pre,
            post,
            record,
            special_key_actions(KEYSYM_SPACEBAR as u32),
            acts,
        ),
        CmdView::LeftSuper => done_cmd_post(
            pre,
            post,
            record,
            special_key_actions(KEYSYM_LEFT_SUPER as u32),
            acts,
        ),
        CmdView::Wait(n) => done_cmd_post(pre, post, record, seq![ActionView::SleepSecs(n)], acts),
        CmdView::WaitScreen(h) => {
            &&& (exists|j: u64|
                500 <= j < 1000 && acts == seq![ActionView::SleepMs(j), ActionView::Capture])
            &&& post.phase matches Phase::Waiting { target, rect } && target@ == h && rect is None
            &&& post.step_idx == pre.step_idx
            &&& post.cmd_idx == pre.cmd_idx
        },
        CmdView::WaitScreenRect(h, top, left, width, height) => {
            &&& acts == seq![ActionView::SleepSecs(1), ActionView::Capture]
            &&& post.phase matches Phase::Waiting { target, rect } && target@ == h && rect
                == Some(Rect { left, top, width, height })
            &&& post.step_idx == pre.step_idx
            &&& post.cmd_idx == pre.cmd_idx
        },
    }
}

/// The tail of `exec_cmd_post` for commands that complete synchronously:
/// their own actions, then either a pending recording capture or the move to
/// the next command.
pub open spec fn done_cmd_post(
    pre: BootSequencer,
    post: BootSequencer,
    record: bool,
    core_acts: Seq<ActionView>,
    acts: Seq<ActionView>,
) -> bool {
    if record {
        &&& acts == core_acts + seq![ActionView::Capture]
        &&& post.phase is Record
        &&& post.step_idx == pre.step_idx
        &&& post.cmd_idx == pre.cmd_idx
    } else {
        &&& acts == core_acts
        &&& post.phase is AtCommand
        &&& (post.step_idx as int, post.cmd_idx as int) == skip_empty(
            pre.sv(),
            pre.step_idx as int,
            pre.cmd_idx as int + 1,
        )
    }
}

/// What one `next` call does: finish when the script is exhausted; otherwise
/// begin the command at the current position, counting it, and either
/// suspend at a breakpoint (debug mode, and the command is not a plain wait)
/// or run it.
pub open spec fn next_post(
    pre: BootSequencer,
    post: BootSequencer,
    conn: VncConnection,
    r: Result<Vec<RunAction>, CoreError>,
) -> bool {
    let sc = pre.sv();
    &&& post.sv() == sc
    &&& r is Ok
    &&& {
        let acts = r->Ok_0.deep_view();
        if pre.step_idx == sc.len() {
            &&& acts == Seq::<ActionView>::empty()
            &&& post.phase is Finished
            &&& post.counter == pre.counter
        } else {
            let cmd = sc[pre.step_idx as int][pre.cmd_idx as int];
            &&& post.counter == pre.counter + 1
            &&& if conn.debug && !(cmd is Wait) {
                &&& acts == seq![ActionView::Prompt]
                &&& post.phase is Breakpoint
                &&& post.step_idx == pre.step_idx
                &&& post.cmd_idx == pre.cmd_idx
            } else {
                exec_cmd_post(pre, post, conn.record, cmd, acts)
            }
        }
    }
}

/// What one breakpoint interaction does, by the parse of the operator's
/// line: `c` and `q` run the pending command (`q` first turning debug mode
/// off, for good); `s` leaves a capture pending; four rectangle words of
/// which one is malformed are a fatal parse error; anything else re-prompts.
pub open spec fn operator_post(
    pre: BootSequencer,
    post: BootSequencer,
    cpre: VncConnection,
    cpost: VncConnection,
    line: Seq<char>,
    r: Result<Vec<RunAction>, CoreError>,
) -> bool {
    let sc = pre.sv();
    let cmd = sc[pre.step_idx as int][pre.cmd_idx as int];
    &&& post.sv() == sc
    &&& cpost.record == cpre.record
    &&& cpost.width == cpre.width
    &&& cpost.height == cpre.height
    &&& post.counter == pre.counter
    &&& match parse_operator_line(line) {
        OperatorCmd::Continue => {
            &&& cpost.debug == cpre.debug
            &&& r is Ok
            &&& exec_cmd_post(pre, post, cpre.record, cmd, r->Ok_0.deep_view())
        },
        OperatorCmd::Quit => {
            &&& cpost.debug == false
            &&& r is Ok
            &&& exec_cmd_post(pre, post, cpre.record, cmd, r->Ok_0.deep_view())
        },
        OperatorCmd::Shot(rect) => {
            &&& cpost.debug == cpre.debug
            &&& r is Ok
            &&& r->Ok_0.deep_view() == seq![ActionView::Capture]
            &&& post.phase matches Phase::BreakpointCapture { rect: rr } && rr == rect
            &&& post.step_idx == pre.step_idx
            &&& post.cmd_idx == pre.cmd_idx
        },
        OperatorCmd::BadRect => {
            &&& cpost.debug == cpre.debug
            &&& r is Err
            &&& r->Err_0 is OperatorParse
            &&& post == pre
        },
        OperatorCmd::Ignored => {
            &&& cpost.debug == cpre.debug
            &&& r is Ok
            &&& r->Ok_0.deep_view() == seq![ActionView::Prompt]
            &&& post == pre
        },
    }
}

/// The completion of a wait-screen command whose poll matched: the fixed
/// 1-second settle delay, then either the pending recording capture or the
/// move to the next command.
pub open spec fn settle_post(
    pre: BootSequencer,
    post: BootSequencer,
    record: bool,
    acts: Seq<ActionView>,
) -> bool {
    if record {
        &&& acts == seq![ActionView::SleepSecs(1), ActionView::Capture]
        &&& post.phase is Record
        &&& post.step_idx == pre.step_idx
        &&& post.cmd_idx == pre.cmd_idx
    } else {
        &&& acts == seq![ActionView::SleepSecs(1)]
        &&& post.phase is AtCommand
        &&& (post.step_idx as int, post.cmd_idx as int) == skip_empty(
            pre.sv(),
            pre.step_idx as int,
            pre.cmd_idx as int + 1,
        )
    }
}

/// The actions of one more poll round: the fixed 1-second interval for a
/// region wait, a fresh random 500 to 1000 millisecond jitter for a
/// full-frame wait, then a capture.
pub open spec fn repoll_acts(rect_mode: bool, acts: Seq<ActionView>) -> bool {
    if rect_mode {
        acts == seq![ActionView::SleepSecs(1), ActionView::Capture]
    } else {
        exists|j: u64| 500 <= j < 1000 && acts == seq![ActionView::SleepMs(j), ActionView::Capture]
    }
}

/// What one observed capture does, by the phase that awaited it.
///
/// A poll compares the observed hash (of the whole frame, or of the region)
/// with the target: on a mismatch the machine is unchanged and re-polls; on
/// a match it settles. A recording capture is persisted under the 1-based
/// command counter. A breakpoint capture is persisted under the hash of the
/// capture itself — trimmed first if the operator gave a region — and the
/// prompt returns. A region that does not fit the frame is a fatal bounds
/// error; a frame or region with a zero dimension cannot be encoded.
pub open spec fn capture_post(
    pre: BootSequencer,
    post: BootSequencer,
    conn: VncConnection,
    shot: VncScreenshot,
    r: Result<Vec<RunAction>, CoreError>,
) -> bool {
    let sc = pre.sv();
    &&& post.sv() == sc
    &&& match pre.phase {
        Phase::Waiting { target, rect } => {
            &&& post.counter == pre.counter
            &&& match rect {
                Option::Some(rc) => {
                    if !rc.fits(shot.width, shot.height) {
                        r is Err && r->Err_0 is Bounds && post == pre
                    } else if hash_spec(region_bytes(&shot, rc)) == target@ {
                        r is Ok && settle_post(pre, post, conn.record, r->Ok_0.deep_view())
                    } else {
                        r is Ok && repoll_acts(true, r->Ok_0.deep_view()) && post == pre
                    }
                },
                Option::None => {
                    if hash_spec(shot.data@) == target@ {
                        r is Ok && settle_post(pre, post, conn.record, r->Ok_0.deep_view())
                    } else {
                        r is Ok && repoll_acts(false, r->Ok_0.deep_view()) && post == pre
                    }
                },
            }
        },
        Phase::Record => {
            if shot.width > 0 && shot.height > 0 {
                &&& r is Ok
                &&& r->Ok_0.deep_view() == seq![
                    ActionView::WritePng {
                        name: NameView::ByStep(pre.counter),
                        png: png_gray_of(shot.width, shot.height, shot.data@),
                    },
                ]
                &&& post.phase is AtCommand
                &&& post.counter == pre.counter
                &&& (post.step_idx as int, post.cmd_idx as int) == skip_empty(
                    sc,
                    pre.step_idx as int,
                    pre.cmd_idx as int + 1,
                )
            } else {
                r is Err && r->Err_0 is Artifact && post == pre
            }
        },
        Phase::BreakpointCapture { rect } => {
            &&& post.counter == pre.counter
            &&& match rect {
                Option::Some(rc) => {
                    if !rc.fits(shot.width, shot.height) {
                        r is Err && r->Err_0 is Bounds && post == pre
                    } else if rc.width > 0 && rc.height > 0 {
                        &&& r is Ok
                        &&& r->Ok_0.deep_view() == seq![
                            ActionView::WritePng {
                                name: NameView::ByHash(hash_spec(region_bytes(&shot, rc))),
                                png: png_gray_of(rc.width, rc.height, region_bytes(&shot, rc)),
                            },
                            ActionView::Prompt,
                        ]
                        &&& post.phase is Breakpoint
                        &&& post.step_idx == pre.step_idx
                        &&& post.cmd_idx == pre.cmd_idx
                    } else {
                        r is Err && r->Err_0 is Artifact && post == pre
                    }
                },
                Option::None => {
                    if shot.width > 0 && shot.height > 0 {
                        &&& r is Ok
                        &&& r->Ok_0.deep_view() == seq![
                            ActionView::WritePng {
                                name: NameView::ByHash(hash_spec(shot.data@)),
                                png: png_gray_of(shot.width, shot.height, shot.data@),
                            },
                            ActionView::Prompt,
                        ]
                        &&& post.phase is Breakpoint
                        &&& post.step_idx == pre.step_idx
                        &&& post.cmd_idx == pre.cmd_idx
                    } else {
                        r is Err && r->Err_0 is Artifact && post == pre
                    }
                },
            }
        },
        _ => false,
    }
}

/// What the machine needs from its driver next.
#[derive(Clone, Copy, Debug, PartialEq, Eq, Structural)]
pub enum Expect {
    /// Call `next`.
    Idle,
    /// Perform the pending actions, ending in a capture, then call
    /// `on_capture`.
    AwaitCapture,
    /// Show the prompt, read one line, then call `on_operator_line`.
    AwaitLine,
    /// The run is complete.
    Done,
}

/// What a capture-expecting phase holds, cloned out so the machine can be
/// updated while it is examined.
enum AwaitedCapture {
    Poll(String, Option<Rect>),
    Recording,
    OperatorShot(Option<Rect>),
}

/// The bootstrap sequencer: executes an ordered script of commands, strictly
/// in order, suspending at operator breakpoints while debug mode is on and
/// recording every executed command's resulting frame when the session
/// records. The machine only decides; its driver performs the returned
/// actions and feeds back captures and operator lines.
#[derive(Debug)]
pub struct BootSequencer {
    pub script: Vec<Vec<VncCmd>>,
    /// Index of the current step within the script.
    pub step_idx: usize,
    /// Index of the current command within its step.
    pub cmd_idx: usize,
    /// 1-based count of commands begun, naming recorded frames.
    pub counter: u64,
    pub phase: Phase,
}

impl BootSequencer {
    /// The script as a mathematical sequence of steps.
    pub open spec fn sv(&self) -> Seq<Seq<CmdView>> {
        self.script.deep_view()
    }

    /// The position points at a real command.
    pub open spec fn position_ok(&self) -> bool {
        self.step_idx < self.sv().len() && self.cmd_idx < self.sv()[self.step_idx as int].len()
    }

    /// The machine invariant: the position is normalized, and the counter
    /// counts exactly the commands begun.
    pub open spec fn wf(&self) -> bool {
        let sc = self.sv();
        &&& total_cmds(sc) <= u64::MAX
        &&& match self.phase {
            Phase::AtCommand => {
                &&& self.step_idx <= sc.len()
                &&& (self.step_idx == sc.len() ==> self.cmd_idx == 0)
                &&& (self.step_idx < sc.len() ==> self.cmd_idx < sc[self.step_idx as int].len())
                &&& self.counter == cmds_before(sc, self.step_idx as int, self.cmd_idx as int)
            },
            Phase::Finished => {
                &&& self.step_idx == sc.len()
                &&& self.cmd_idx == 0
                &&& self.counter == total_cmds(sc)
            },
            _ => {
                &&& self.position_ok()
                &&& self.counter == cmds_before(sc, self.step_idx as int, self.cmd_idx as int) + 1
            },
        }
    }

    /// Start a run of the given script, positioned at its first command.
    pub fn new(script: Vec<Vec<VncCmd>>) -> (r: BootSequencer)
        requires
            total_cmds(script.deep_view()) <= u64::MAX,
        ensures
            r.wf(),
            r.phase is AtCommand,
            r.sv() == script.deep_view(),
            r.counter == 0,
            (r.step_idx as int, r.cmd_idx as int) == skip_empty(script.deep_view(), 0, 0),
    {
        let mut r = BootSequencer {
            script,
            step_idx: 0,
            cmd_idx: 0,
            counter: 0,
            phase: Phase::AtCommand,
        };
        proof {
            assert(r.sv().take(0) =~= Seq::<Seq<CmdView>>::empty());
        }
        r.normalize();
        r
    }

    /// Move the position past empty (or exhausted) steps to the next real
    /// command, or to the end.
    fn normalize(&mut self)
        requires
            total_cmds(old(self).sv()) <= u64::MAX,
            old(self).phase is AtCommand,
            old(self).step_idx <= old(self).sv().len(),
            old(self).step_idx < old(self).sv().len() ==> old(self).cmd_idx <= old(self).sv()[old(
                self,
            ).step_idx as int].len(),
            old(self).step_idx == old(self).sv().len() ==> old(self).cmd_idx == 0,
            old(self).counter == cmds_before(
                old(self).sv(),
                old(self).step_idx as int,
                old(self).cmd_idx as int,
            ),
        ensures
            final(self).wf(),
            final(self).phase is AtCommand,
            final(self).script == old(self).script,
            final(self).counter == old(self).counter,
            (final(self).step_idx as int, final(self).cmd_idx as int) == skip_empty(
                old(self).sv(),
                old(self).step_idx as int,
                old(self).cmd_idx as int,
            ),
    {
        proof {
            lemma_skip_empty_props(old(self).sv(), old(self).step_idx as int, old(self).cmd_idx as int);
        }
        loop
            invariant
                self.phase is AtCommand,
                self.script == old(self).script,
                self.counter == old(self).counter,
                total_cmds(self.sv()) <= u64::MAX,
                self.step_idx <= self.sv().len(),
                self.step_idx < self.sv().len() ==> self.cmd_idx <= self.sv()[self.step_idx as int].len(),
                self.step_idx == self.sv().len() ==> self.cmd_idx == 0,
                self.counter == cmds_before(self.sv(), self.step_idx as int, self.cmd_idx as int),
                skip_empty(self.sv(), self.step_idx as int, self.cmd_idx as int) == skip_empty(
                    old(self).sv(),
                    old(self).step_idx as int,
                    old(self).cmd_idx as int,
                ),
            ensures
                self.step_idx == self.sv().len() || (self.step_idx < self.sv().len()
                    && self.cmd_idx < self.sv()[self.step_idx as int].len()),
            decreases self.sv().len() - self.step_idx,
        {
            if self.step_idx >= self.script.len() {
                break ;
            }
            let step_len = self.script[self.step_idx].len();
            if self.cmd_idx < step_len {
                break ;
            }
            proof {
                lemma_total_take_succ(self.sv(), self.step_idx as int);
            }
            self.step_idx += 1;
            self.cmd_idx = 0;
        }
    }

    /// Begin (and, unless it polls or a breakpoint intervenes, complete) the
    /// next command of the script, or finish the run.
    pub fn next(&mut self, conn: &VncConnection) -> (r: Result<Vec<RunAction>, CoreError>)
        requires
            old(self).wf(),
            old(self).phase is AtCommand,
        ensures
            final(self).wf(),
            next_post(*old(self), *final(self), *conn, r),
    {
        if self.step_idx >= self.script.len() {
            proof {
                assert(self.sv().take(self.sv().len() as int) =~= self.sv());
            }
            self.phase = Phase::Finished;
            let acts: Vec<RunAction> = Vec::new();
            proof {
                assert(acts.deep_view() =~= Seq::<ActionView>::empty());
            }
            return Ok(acts);
        }
        proof {
            lemma_cmds_before_lt_total(self.sv(), self.step_idx as int, self.cmd_idx as int);
        }
        self.counter = self.counter + 1;
        let is_wait = match &self.script[self.step_idx][self.cmd_idx] {
            VncCmd::Wait(_) => true,
            _ => false,
        };
        if conn.debug && !is_wait {
            self.phase = Phase::Breakpoint;
            let acts = vec![RunAction::Prompt];
            proof {
                assert(acts.deep_view() =~= seq![ActionView::Prompt]);
            }
            return Ok(acts);
        }
        let acts = self.execute_current(conn.record);
        Ok(acts)
    }

    /// Run the command at the current position: emit its effect actions and
    /// take the machine to its next phase.
    fn execute_current(&mut self, record: bool) -> (acts: Vec<RunAction>)
        requires
            total_cmds(old(self).sv()) <= u64::MAX,
            old(self).position_ok(),
            old(self).counter == cmds_before(
                old(self).sv(),
                old(self).step_idx as int,
                old(self).cmd_idx as int,
            ) + 1,
        ensures
            final(self).wf(),
            final(self).script == old(self).script,
            final(self).counter == old(self).counter,
            exec_cmd_post(
                *old(self),
                *final(self),
                record,
                old(self).sv()[old(self).step_idx as int][old(self).cmd_idx as int],
                acts.deep_view(),
            ),
    {
        let mut acts: Vec<RunAction> = Vec::new();
        let mut wait_phase: Option<Phase> = None;
        let si = self.step_idx;
        let ci = self.cmd_idx;
        match &self.script[si][ci] {
            VncCmd::Type(t) => {
                push_text_actions(&mut acts, t.as_str());
                proof {
                    assert(acts.deep_view() =~= text_actions(t@));
                }
            },
            VncCmd::Enter => {
                push_special_key(&mut acts, KEYSYM_ENTER);
                proof {
                    assert(acts.deep_view() =~= special_key_actions(KEYSYM_ENTER as u32));
                }
            },
            VncCmd::Tab => {
                push_special_key(&mut acts, KEYSYM_TAB);
                proof {
                    assert(acts.deep_view() =~= special_key_actions(KEYSYM_TAB as u32));
                }
            },
            VncCmd::Spacebar => {
                push_special_key(&mut acts, KEYSYM_SPACEBAR);
                proof {
                    assert(acts.deep_view() =~= special_key_actions(KEYSYM_SPACEBAR as u32));
                }
            },
            VncCmd::LeftSuper => {
                push_special_key(&mut acts, KEYSYM_LEFT_SUPER);
                proof {
                    assert(acts.deep_view() =~= special_key_actions(KEYSYM_LEFT_SUPER as u32));
                }
            },
            VncCmd::Wait(n) => {
                acts.push(RunAction::SleepSecs(*n));
                proof {
                    assert(acts.deep_view() =~= seq![ActionView::SleepSecs(*n)]);
                }
            },
            VncCmd::WaitScreen(h) => {
                let j = jitter_ms();
                acts.push(RunAction::SleepMs(j));
                acts.push(RunAction::Capture);
                wait_phase = Some(Phase::Waiting { target: h.clone(), rect: None });
                proof {
                    assert(acts.deep_view() =~= seq![
                        ActionView::SleepMs(j),
                        ActionView::Capture,
                    ]);
                }
            },
            VncCmd::WaitScreenRect(h, top, left, width, height) => {
                acts.push(RunAction::SleepSecs(1));
                acts.push(RunAction::Capture);
                wait_phase = Some(
                    Phase::Waiting {
                        target: h.clone(),
                        rect: Some(
                            Rect { top: *top, left: *left, width: *width, height: *height },
                        ),
                    },
                );
                proof {
                    assert(acts.deep_view() =~= seq![
                        ActionView::SleepSecs(1),
                        ActionView::Capture,
                    ]);
                }
            },
        }
        match wait_phase {
            Some(p) => {
                self.phase = p;
            },
            None => {
                if record {
                    self.phase = Phase::Record;
                    let ghost before = acts.deep_view();
                    acts.push(RunAction::Capture);
                    proof {
                        assert(acts.deep_view() =~= before + seq![ActionView::Capture]);
                    }
                } else {
                    self.advance_cursor();
                }
            },
        }
        acts
    }

    /// Step the position past the command just completed, to the next real
    /// command or the end.
    fn advance_cursor(&mut self)
        requires
            total_cmds(old(self).sv()) <= u64::MAX,
            old(self).position_ok(),
            old(self).counter == cmds_before(
                old(self).sv(),
                old(self).step_idx as int,
                old(self).cmd_idx as int,
            ) + 1,
        ensures
            final(self).wf(),
            final(self).phase is AtCommand,
            final(self).script == old(self).script,
            final(self).counter == old(self).counter,
            (final(self).step_idx as int, final(self).cmd_idx as int) == skip_empty(
                old(self).sv(),
                old(self).step_idx as int,
                old(self).cmd_idx as int + 1,
            ),
    {
        let step_len = self.script[self.step_idx].len();
        proof {
            assert(self.cmd_idx < step_len);
        }
        self.cmd_idx = self.cmd_idx + 1;
        self.phase = Phase::AtCommand;
        self.normalize();
    }

    /// Which call the machine expects next.
    pub fn expects(&self) -> (r: Expect)
        ensures
            r == (match self.phase {
                Phase::AtCommand => Expect::Idle,
                Phase::Breakpoint => Expect::AwaitLine,
                Phase::BreakpointCapture { .. } => Expect::AwaitCapture,
                Phase::Waiting { .. } => Expect::AwaitCapture,
                Phase::Record => Expect::AwaitCapture,
                Phase::Finished => Expect::Done,
            }),
    {
        match &self.phase {
            Phase::AtCommand => Expect::Idle,
            Phase::Breakpoint => Expect::AwaitLine,
            Phase::BreakpointCapture { .. } => Expect::AwaitCapture,
            Phase::Waiting { .. } => Expect::AwaitCapture,
            Phase::Record => Expect::AwaitCapture,
            Phase::Finished => Expect::Done,
        }
    }

    /// React to one operator input line at a breakpoint.
    pub fn on_operator_line(&mut self, conn: &mut VncConnection, line: &str) -> (r: Result<
        Vec<RunAction>,
        CoreError,
    >)
        requires
            old(self).wf(),
            old(self).phase is Breakpoint,
        ensures
            final(self).wf(),
            operator_post(*old(self), *final(self), *old(conn), *final(conn), line@, r),
    {
        match parse_line(line) {
            OperatorCmd::Continue => Ok(self.execute_current(conn.record)),
            OperatorCmd::Quit => {
                conn.debug = false;
                Ok(self.execute_current(conn.record))
            },
            OperatorCmd::Shot(rect) => {
                self.phase = Phase::BreakpointCapture { rect };
                let acts = vec![RunAction::Capture];
                proof {
                    assert(acts.deep_view() =~= seq![ActionView::Capture]);
                }
                Ok(acts)
            },
            OperatorCmd::BadRect => Err(CoreError::OperatorParse),
            OperatorCmd::Ignored => {
                let acts = vec![RunAction::Prompt];
                proof {
                    assert(acts.deep_view() =~= seq![ActionView::Prompt]);
                }
                Ok(acts)
            },
        }
    }

    /// Complete a matched wait: the settle delay, then recording or the next
    /// command.
    fn settle(&mut self, record: bool) -> (acts: Vec<RunAction>)
        requires
            total_cmds(old(self).sv()) <= u64::MAX,
            old(self).position_ok(),
            old(self).counter == cmds_before(
                old(self).sv(),
                old(self).step_idx as int,
                old(self).cmd_idx as int,
            ) + 1,
        ensures
            final(self).wf(),
            final(self).script == old(self).script,
            final(self).counter == old(self).counter,
            settle_post(*old(self), *final(self), record, acts.deep_view()),
    {
        let mut acts: Vec<RunAction> = Vec::new();
        acts.push(RunAction::SleepSecs(1));
        if record {
            self.phase = Phase::Record;
            acts.push(RunAction::Capture);
            proof {
                assert(acts.deep_view() =~= seq![ActionView::SleepSecs(1), ActionView::Capture]);
            }
        } else {
            self.advance_cursor();
            proof {
                assert(acts.deep_view() =~= seq![ActionView::SleepSecs(1)]);
            }
        }
        acts
    }

    /// React to the capture the current phase awaited: compare a poll,
    /// persist a recording, or persist an operator screenshot.
    pub fn on_capture(&mut self, conn: &VncConnection, shot: VncScreenshot) -> (r: Result<
        Vec<RunAction>,
        CoreError,
    >)
        requires
            old(self).wf(),
            shot.wf(),
            old(self).phase is Waiting || old(self).phase is Record || old(self).phase
                is BreakpointCapture,
        ensures
            final(self).wf(),
            capture_post(*old(self), *final(self), *conn, shot, r),
    {
        let awaited = match &self.phase {
            Phase::Waiting { target, rect } => AwaitedCapture::Poll(target.clone(), *rect),
            Phase::Record => AwaitedCapture::Recording,
            Phase::BreakpointCapture { rect } => AwaitedCapture::OperatorShot(*rect),
            _ => {
                proof {
                    assert(false);
                }
                AwaitedCapture::Recording
            },
        };
        match awaited {
            AwaitedCapture::Poll(target, rect) => {
                let matched: bool;
                match rect {
                    Option::Some(rc) => {
                        let trimmed = match shot.trim(rc) {
                            Ok(t) => t,
                            Err(e) => {
                                return Err(e);
                            },
                        };
                        proof {
                            lemma_trim_bytes(&shot, &trimmed, rc);
                        }
                        let h = trimmed.hash();
                        matched = h.eq(&target);
                    },
                    Option::None => {
                        let h = shot.hash();
                        matched = h.eq(&target);
                    },
                }
                if matched {
                    Ok(self.settle(conn.record))
                } else {
                    let mut acts: Vec<RunAction> = Vec::new();
                    match rect {
                        Option::Some(_) => {
                            acts.push(RunAction::SleepSecs(1));
                            acts.push(RunAction::Capture);
                            proof {
                                assert(acts.deep_view() =~= seq![
                                    ActionView::SleepSecs(1),
                                    ActionView::Capture,
                                ]);
                            }
                        },
                        Option::None => {
                            let j = jitter_ms();
                            acts.push(RunAction::SleepMs(j));
                            acts.push(RunAction::Capture);
                            proof {
                                assert(acts.deep_view() =~= seq![
                                    ActionView::SleepMs(j),
                                    ActionView::Capture,
                                ]);
                            }
                        },
                    }
                    Ok(acts)
                }
            },
            AwaitedCapture::Recording => {
                let png = match encode_png_gray(shot.width, shot.height, &shot.data) {
                    Option::Some(p) => p,
                    Option::None => {
                        return Err(CoreError::Artifact);
                    },
                };
                let mut acts: Vec<RunAction> = Vec::new();
                acts.push(RunAction::WritePng { name: ScreenshotName::ByStep(self.counter), png });
                self.advance_cursor();
                proof {
                    assert(acts.deep_view() =~= seq![
                        ActionView::WritePng {
                            name: NameView::ByStep(old(self).counter),
                            png: png_gray_of(shot.width, shot.height, shot.data@),
                        },
                    ]);
                }
                Ok(acts)
            },
            AwaitedCapture::OperatorShot(rect) => {
                match rect {
                    Option::Some(rc) => {
                        let trimmed = match shot.trim(rc) {
                            Ok(t) => t,
                            Err(e) => {
                                return Err(e);
                            },
                        };
                        proof {
                            lemma_trim_bytes(&shot, &trimmed, rc);
                        }
                        let h = trimmed.hash();
                        let png = match encode_png_gray(
                            trimmed.width,
                            trimmed.height,
                            &trimmed.data,
                        ) {
                            Option::Some(p) => p,
                            Option::None => {
                                return Err(CoreError::Artifact);
                            },
                        };
                        let mut acts: Vec<RunAction> = Vec::new();
                        acts.push(RunAction::WritePng { name: ScreenshotName::ByHash(h), png });
                        acts.push(RunAction::Prompt);
                        self.phase = Phase::Breakpoint;
                        proof {
                            assert(acts.deep_view() =~= seq![
                                ActionView::WritePng {
                                    name: NameView::ByHash(hash_spec(region_bytes(&shot, rc))),
                                    png: png_gray_of(rc.width, rc.height, region_bytes(&shot, rc)),
                                },
                                ActionView::Prompt,
                            ]);
                        }
                        Ok(acts)
                    },
                    Option::None => {
                        let h = shot.hash();
                        let png = match encode_png_gray(shot.width, shot.height, &shot.data) {
                            Option::Some(p) => p,
                            Option::None => {
                                return Err(CoreError::Artifact);
                            },
                        };
                        let mut acts: Vec<RunAction> = Vec::new();
                        acts.push(RunAction::WritePng { name: ScreenshotName::ByHash(h), png });
                        acts.push(RunAction::Prompt);
                        self.phase = Phase::Breakpoint;
                        proof {
                            assert(acts.deep_view() =~= seq![
                                ActionView::WritePng {
                                    name: NameView::ByHash(hash_spec(shot.data@)),
                                    png: png_gray_of(shot.width, shot.height, shot.data@),
                                },
                                ActionView::Prompt,
                            ]);
                        }
                        Ok(acts)
                    },
                }
            },
        }
    }
}

/// Count a script's commands, or report that the count does not fit the
/// counter's range (so that a run of it cannot be started).
pub fn checked_total(script: &Vec<Vec<VncCmd>>) -> (r: Option<u64>)
    ensures
        r is Some <==> total_cmds(script.deep_view()) <= u64::MAX,
        r is Some ==> r->0 == total_cmds(script.deep_view()),
{
    let ghost sc = script.deep_view();
    let mut acc: u64 = 0;
    let mut i: usize = 0;
    proof {
        assert(sc.take(0) =~= Seq::<Seq<CmdView>>::empty());
    }
    while i < script.len()
        invariant
            sc == script.deep_view(),
            i <= script@.len(),
            acc == total_cmds(sc.take(i as int)),
        decreases script@.len() - i,
    {
        let l = script[i].len();
        proof {
            lemma_total_take_succ(sc, i as int);
        }
        if acc > u64::MAX - l as u64 {
            proof {
                lemma_total_take_le(sc, i + 1);
            }
            return None;
        }
        acc = acc + l as u64;
        i += 1;
    }
    proof {
        assert(sc.take(script@.len() as int) =~= sc);
    }
    Some(acc)
}

/// A wait never completes early: on a poll whose observed hash differs from
/// the target (over the whole frame, or over the region when one was given
/// and it fits), the machine is unchanged — same phase, same target, same
/// position, same counter — and merely sleeps and polls again.
pub proof fn lemma_wait_no_early_return(
    pre: BootSequencer,
    post: BootSequencer,
    conn: VncConnection,
    shot: VncScreenshot,
    r: Result<Vec<RunAction>, CoreError>,
)
    requires
        capture_post(pre, post, conn, shot, r),
        pre.phase matches Phase::Waiting { target, rect } && (match rect {
            Option::None => hash_spec(shot.data@) != target@,
            Option::Some(rc) => rc.fits(shot.width, shot.height) && hash_spec(
                region_bytes(&shot, rc),
            ) != target@,
        }),
    ensures
        post == pre,
        r is Ok,
        repoll_acts(pre.phase->Waiting_rect is Some, r->Ok_0.deep_view()),
{
}

/// A matched poll returns within one settle delay: the first action after
/// the matching observation is the fixed 1-second settle sleep, and the
/// machine leaves the waiting phase.
pub proof fn lemma_wait_settles(
    pre: BootSequencer,
    post: BootSequencer,
    conn: VncConnection,
    shot: VncScreenshot,
    r: Result<Vec<RunAction>, CoreError>,
)
    requires
        capture_post(pre, post, conn, shot, r),
        pre.phase matches Phase::Waiting { target, rect } && (match rect {
            Option::None => hash_spec(shot.data@) == target@,
            Option::Some(rc) => rc.fits(shot.width, shot.height) && hash_spec(
                region_bytes(&shot, rc),
            ) == target@,
        }),
    ensures
        r is Ok,
        r->Ok_0.deep_view()[0] == ActionView::SleepSecs(1),
        conn.record ==> post.phase is Record,
        !conn.record ==> post.phase is AtCommand,
{
}

/// Debug mode is one-way: no breakpoint interaction ever turns it on, and
/// the session's recording flag and dimensions are untouched by it.
pub proof fn lemma_debug_one_way(
    pre: BootSequencer,
    post: BootSequencer,
    cpre: VncConnection,
    cpost: VncConnection,
    line: Seq<char>,
    r: Result<Vec<RunAction>, CoreError>,
)
    requires
        operator_post(pre, post, cpre, cpost, line, r),
    ensures
        cpost.debug ==> cpre.debug,
        cpost.record == cpre.record,
{
}

/// A run only moves forward: no interaction decreases the 1-based command
/// counter, and `next` is the only one that increases it.
pub proof fn lemma_run_progress(
    pre: BootSequencer,
    post: BootSequencer,
    conn: VncConnection,
    r: Result<Vec<RunAction>, CoreError>,
)
    requires
        next_post(pre, post, conn, r),
    ensures
        pre.counter <= post.counter <= pre.counter + 1,
{
}

} // verus!
