use vstd::prelude::*;

verus! {

/// The per-template build lifecycle: strictly sequential, no retries between
/// states, with a single terminal failure state reachable from every
/// non-terminal state.
#[derive(Clone, Copy, Debug, PartialEq, Eq, Structural)]
pub enum BuildState {
    Created,
    MediaReady,
    Launched,
    ScriptedInstall,
    ShellReachable,
    PostInstall,
    ShuttingDown,
    Done,
    Failed,
}

/// The work owed in each non-terminal state; its success or failure decides
/// the next state.
#[derive(Clone, Copy, Debug, PartialEq, Eq, Structural)]
pub enum BuildTask {
    /// Resolve the installation media by URL and checksum.
    ResolveMedia,
    /// Assemble the launch arguments and start the VM process.
    LaunchVm,
    /// Run the template's script against the VM's console.
    RunScript,
    /// Block until a remote shell is reachable on the guest's fixed port.
    WaitForShell,
    /// Upload and execute the post-install payload, if any; a non-zero exit
    /// status is a failure.
    RunPayload,
    /// Issue the guest shutdown command over the shell.
    IssueShutdown,
    /// Block until the VM process exits.
    AwaitExit,
}

/// Whether a build state is terminal.
pub open spec fn is_terminal(s: BuildState) -> bool {
    s is Done || s is Failed
}

/// The unique successor of a non-terminal state on success.
pub open spec fn successor(s: BuildState) -> BuildState {
    match s {
        BuildState::Created => BuildState::MediaReady,
        BuildState::MediaReady => BuildState::Launched,
        BuildState::Launched => BuildState::ScriptedInstall,
        BuildState::ScriptedInstall => BuildState::ShellReachable,
        BuildState::ShellReachable => BuildState::PostInstall,
        BuildState::PostInstall => BuildState::ShuttingDown,
        BuildState::ShuttingDown => BuildState::Done,
        BuildState::Done => BuildState::Done,
        BuildState::Failed => BuildState::Failed,
    }
}

/// One lifecycle transition: success moves to the unique successor, any
/// failure moves directly to `Failed`; terminal states stay put.
pub open spec fn advance_spec(s: BuildState, ok: bool) -> BuildState {
    if is_terminal(s) {
        s
    } else if ok {
        successor(s)
    } else {
        BuildState::Failed
    }
}

/// The state after running a sequence of transition outcomes from `s`.
pub open spec fn run_from(s: BuildState, oks: Seq<bool>) -> BuildState
    decreases oks.len(),
{
    if oks.len() == 0 {
        s
    } else {
        run_from(advance_spec(s, oks[0]), oks.drop_first())
    }
}

/// Whether a build state is terminal.
pub fn is_terminal_state(s: BuildState) -> (r: bool)
    ensures
        r == is_terminal(s),
{
    match s {
        BuildState::Done => true,
        BuildState::Failed => true,
        _ => false,
    }
}

/// Take one lifecycle transition.
pub fn advance(s: BuildState, ok: bool) -> (r: BuildState)
    requires
        !is_terminal(s),
    ensures
        r == advance_spec(s, ok),
        ok ==> r == successor(s),
        !ok ==> r is Failed,
{
    if !ok {
        return BuildState::Failed;
    }
    match s {
        BuildState::Created => BuildState::MediaReady,
        BuildState::MediaReady => BuildState::Launched,
        BuildState::Launched => BuildState::ScriptedInstall,
        BuildState::ScriptedInstall => BuildState::ShellReachable,
        BuildState::ShellReachable => BuildState::PostInstall,
        BuildState::PostInstall => BuildState::ShuttingDown,
        BuildState::ShuttingDown => BuildState::Done,
        BuildState::Done => BuildState::Done,
        BuildState::Failed => BuildState::Failed,
    }
}

/// The work owed in a non-terminal state.
pub fn task_of(s: BuildState) -> (r: Option<BuildTask>)
    ensures
        r is Some <==> !is_terminal(s),
        match s {
            BuildState::Created => r == Some(BuildTask::ResolveMedia),
            BuildState::MediaReady => r == Some(BuildTask::LaunchVm),
            BuildState::Launched => r == Some(BuildTask::RunScript),
            BuildState::ScriptedInstall => r == Some(BuildTask::WaitForShell),
            BuildState::ShellReachable => r == Some(BuildTask::RunPayload),
            BuildState::PostInstall => r == Some(BuildTask::IssueShutdown),
            BuildState::ShuttingDown => r == Some(BuildTask::AwaitExit),
            _ => r is None,
        },
{
    match s {
        BuildState::Created => Some(BuildTask::ResolveMedia),
        BuildState::MediaReady => Some(BuildTask::LaunchVm),
        BuildState::Launched => Some(BuildTask::RunScript),
        BuildState::ScriptedInstall => Some(BuildTask::WaitForShell),
        BuildState::ShellReachable => Some(BuildTask::RunPayload),
        BuildState::PostInstall => Some(BuildTask::IssueShutdown),
        BuildState::ShuttingDown => Some(BuildTask::AwaitExit),
        BuildState::Done => None,
        BuildState::Failed => None,
    }
}

/// Whether a payload's exit status counts as success: only a zero exit
/// status does; anything else is fatal to the build.
pub fn exit_ok(code: i64) -> (r: bool)
    ensures
        r == (code == 0),
{
    code == 0
}

/// A failure in any non-terminal state moves the build directly to `Failed`,
/// and `Failed` is absorbing: no later outcome leaves it.
pub proof fn lemma_failure_is_fatal(s: BuildState, oks: Seq<bool>)
    requires
        !is_terminal(s),
    ensures
        advance_spec(s, false) == BuildState::Failed,
        run_from(BuildState::Failed, oks) == BuildState::Failed,
    decreases oks.len(),
{
    if oks.len() > 0 {
        lemma_failure_is_fatal(s, oks.drop_first());
    }
}

/// A build completes exactly when all seven lifecycle transitions succeed,
/// in their fixed order.
pub proof fn lemma_build_succeeds_iff(oks: Seq<bool>)
    requires
        oks.len() == 7,
    ensures
        run_from(BuildState::Created, oks) == BuildState::Done <==> (forall|i: int|
            0 <= i < 7 ==> oks[i]),
{
    reveal_with_fuel(run_from, 8);
    let s1 = advance_spec(BuildState::Created, oks[0]);
    let s2 = advance_spec(s1, oks[1]);
    let s3 = advance_spec(s2, oks[2]);
    let s4 = advance_spec(s3, oks[3]);
    let s5 = advance_spec(s4, oks[4]);
    let s6 = advance_spec(s5, oks[5]);
    let s7 = advance_spec(s6, oks[6]);
    assert(oks.drop_first()[0] == oks[1]);
    assert(oks.drop_first().drop_first()[0] == oks[2]);
    assert(oks.drop_first().drop_first().drop_first()[0] == oks[3]);
    assert(oks.drop_first().drop_first().drop_first().drop_first()[0] == oks[4]);
    assert(oks.drop_first().drop_first().drop_first().drop_first().drop_first()[0] == oks[5]);
    assert(oks.drop_first().drop_first().drop_first().drop_first().drop_first().drop_first()[0]
        == oks[6]);
    assert(run_from(BuildState::Created, oks) == s7);
    if forall|i: int| 0 <= i < 7 ==> oks[i] {
        assert(oks[0] && oks[1] && oks[2] && oks[3] && oks[4] && oks[5] && oks[6]);
        assert(s7 == BuildState::Done);
    }
    if run_from(BuildState::Created, oks) == BuildState::Done {
        assert(oks[0] && oks[1] && oks[2] && oks[3] && oks[4] && oks[5] && oks[6]);
    }
}

} // verus!
