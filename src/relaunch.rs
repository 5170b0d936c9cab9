use vstd::prelude::*;
use crate::layout::{InstallPath, Layout, under_or_eq, version_dir_of};
use crate::urls::{artifact_url, artifact_url_of};

verus! {

/// What the hand-over to the current launcher needs to know.
pub struct Relaunch {
    /// The directory of the resolved version.
    pub version_dir: InstallPath,
    /// The launcher binary of that version, inside `version_dir`.
    pub launcher: InstallPath,
    /// Where that launcher binary is downloaded from.
    pub launcher_url: String,
    /// The invocation arguments, forwarded unchanged.
    pub args: Vec<String>,
}

pub struct RelaunchView {
    pub version_dir: Seq<Seq<char>>,
    pub launcher: Seq<Seq<char>>,
    pub launcher_url: Seq<char>,
    pub args: Seq<Seq<char>>,
}

impl View for Relaunch {
    type V = RelaunchView;

    open spec fn view(&self) -> RelaunchView {
        RelaunchView {
            version_dir: self.version_dir@,
            launcher: self.launcher@,
            launcher_url: self.launcher_url@,
            args: self.args@.map_values(|a: String| a@),
        }
    }
}

/// Where the hand-over stands.
#[derive(Clone, Copy, PartialEq, Eq, Structural)]
pub enum RelaunchPhase {
    /// Nothing is known of the running binary yet.
    Start,
    /// The launcher binary is being fetched; `retry` once it was replaced.
    Fetching { retry: bool },
    /// The launcher binary is being started; `retry` once it was replaced.
    Spawning { retry: bool },
    /// The hand-over is over; nothing more is done.
    Done,
}

/// What the outside world reports.
pub enum RelaunchEvent {
    /// Where the running binary lives, and whether the launcher binary of the
    /// version is already on disk.
    Observed { exe: InstallPath, launcher_present: bool },
    /// The requested download finished.
    Fetched,
    /// The launcher binary was started.
    SpawnSucceeded,
    /// The launcher binary could not be started.
    SpawnFailed,
}

pub enum RelaunchEventView {
    Observed { exe: Seq<Seq<char>>, launcher_present: bool },
    Fetched,
    SpawnSucceeded,
    SpawnFailed,
}

impl View for RelaunchEvent {
    type V = RelaunchEventView;

    open spec fn view(&self) -> RelaunchEventView {
        match self {
            RelaunchEvent::Observed { exe, launcher_present } => RelaunchEventView::Observed {
                exe: exe@,
                launcher_present: *launcher_present,
            },
            RelaunchEvent::Fetched => RelaunchEventView::Fetched,
            RelaunchEvent::SpawnSucceeded => RelaunchEventView::SpawnSucceeded,
            RelaunchEvent::SpawnFailed => RelaunchEventView::SpawnFailed,
        }
    }
}

/// What the caller does next.
pub enum RelaunchAction {
    /// The running binary is the current one: go on to install and launch.
    Proceed,
    /// Download `url` into `dest`, then report `Fetched`.
    Download { url: String, dest: InstallPath },
    /// Delete `dest`, download `url` into it, then report `Fetched`.
    Replace { url: String, dest: InstallPath },
    /// Start `program` with `args`, then report how that went.
    Spawn { program: InstallPath, args: Vec<String> },
    /// Terminate this process.
    Exit,
    /// Report that the launcher could not be started, and terminate.
    Fatal,
}

pub enum RelaunchActionView {
    Proceed,
    Download { url: Seq<char>, dest: Seq<Seq<char>> },
    Replace { url: Seq<char>, dest: Seq<Seq<char>> },
    Spawn { program: Seq<Seq<char>>, args: Seq<Seq<char>> },
    Exit,
    Fatal,
}

impl View for RelaunchAction {
    type V = RelaunchActionView;

    open spec fn view(&self) -> RelaunchActionView {
        match self {
            RelaunchAction::Proceed => RelaunchActionView::Proceed,
            RelaunchAction::Download { url, dest } => RelaunchActionView::Download {
                url: url@,
                dest: dest@,
            },
            RelaunchAction::Replace { url, dest } => RelaunchActionView::Replace {
                url: url@,
                dest: dest@,
            },
            RelaunchAction::Spawn { program, args } => RelaunchActionView::Spawn {
                program: program@,
                args: args@.map_values(|a: String| a@),
            },
            RelaunchAction::Exit => RelaunchActionView::Exit,
            RelaunchAction::Fatal => RelaunchActionView::Fatal,
        }
    }
}

pub open spec fn spawn_of(ctx: RelaunchView) -> RelaunchActionView {
    RelaunchActionView::Spawn { program: ctx.launcher, args: ctx.args }
}

/// One transition. A binary outside the version directory (stale) fetches
/// the launcher where it is missing and starts it; a start that fails gets
/// the launcher replaced once, a second failure is fatal, and after a start
/// the process ends. Only a binary inside the version directory (current)
/// proceeds. An event that does not fit the phase ends the hand-over.
pub open spec fn step_of(
    ctx: RelaunchView,
    phase: RelaunchPhase,
    event: RelaunchEventView,
) -> (RelaunchPhase, RelaunchActionView) {
    match (phase, event) {
        (RelaunchPhase::Start, RelaunchEventView::Observed { exe, launcher_present }) => {
            if under_or_eq(ctx.version_dir, exe) {
                (RelaunchPhase::Done, RelaunchActionView::Proceed)
            } else if launcher_present {
                (RelaunchPhase::Spawning { retry: false }, spawn_of(ctx))
            } else {
                (
                    RelaunchPhase::Fetching { retry: false },
                    RelaunchActionView::Download { url: ctx.launcher_url, dest: ctx.launcher },
                )
            }
        },
        (RelaunchPhase::Fetching { retry }, RelaunchEventView::Fetched) => {
            (RelaunchPhase::Spawning { retry }, spawn_of(ctx))
        },
        (RelaunchPhase::Spawning { retry }, RelaunchEventView::SpawnSucceeded) => {
            (RelaunchPhase::Done, RelaunchActionView::Exit)
        },
        (RelaunchPhase::Spawning { retry }, RelaunchEventView::SpawnFailed) => {
            if retry {
                (RelaunchPhase::Done, RelaunchActionView::Fatal)
            } else {
                (
                    RelaunchPhase::Fetching { retry: true },
                    RelaunchActionView::Replace { url: ctx.launcher_url, dest: ctx.launcher },
                )
            }
        },
        _ => (RelaunchPhase::Done, RelaunchActionView::Exit),
    }
}

/// The actions taken on a sequence of events from `phase` on.
pub open spec fn run_of(
    ctx: RelaunchView,
    phase: RelaunchPhase,
    events: Seq<RelaunchEventView>,
) -> Seq<RelaunchActionView>
    decreases events.len(),
{
    if events.len() == 0 {
        seq![]
    } else {
        let (next, action) = step_of(ctx, phase, events[0]);
        seq![action] + run_of(ctx, next, events.skip(1))
    }
}

fn copy_args(args: &Vec<String>) -> (r: Vec<String>)
    ensures
        r@.map_values(|a: String| a@) == args@.map_values(|a: String| a@),
{
    let mut r: Vec<String> = Vec::new();
    let mut i: usize = 0;
    while i < args.len()
        invariant
            i <= args@.len(),
            r@.len() == i,
            forall|j: int| 0 <= j < i ==> #[trigger] r@[j]@ == args@[j]@,
        decreases args@.len() - i,
    {
        r.push(args[i].clone());
        i = i + 1;
    }
    proof {
        assert(r@.map_values(|a: String| a@) =~= args@.map_values(|a: String| a@));
    }
    r
}

impl Relaunch {
    /// The hand-over to the launcher named `launcher_name` of `version`,
    /// fetched from `host`, installed under `layout`.
    pub fn new(
        layout: &Layout,
        host: &str,
        version: &str,
        launcher_name: &str,
        args: Vec<String>,
    ) -> (r: Relaunch)
        ensures
            r@.version_dir == version_dir_of(layout.root@, version@),
            r@.launcher == version_dir_of(layout.root@, version@).push(launcher_name@),
            r@.launcher_url == artifact_url_of(host@, version@, launcher_name@),
            r@.args == args@.map_values(|a: String| a@),
    {
        let version_dir = layout.version_dir(version);
        let launcher = version_dir.join(launcher_name);
        Relaunch { version_dir, launcher, launcher_url: artifact_url(host, version, launcher_name), args }
    }

    fn spawn(&self) -> (r: RelaunchAction)
        ensures
            r@ == spawn_of(self@),
    {
        RelaunchAction::Spawn { program: self.launcher.duplicate(), args: copy_args(&self.args) }
    }

    /// One transition (see `step_of`).
    pub fn step(&self, phase: RelaunchPhase, event: RelaunchEvent) -> (r: (
        RelaunchPhase,
        RelaunchAction,
    ))
        ensures
            (r.0, r.1@) == step_of(self@, phase, event@),
    {
        match (phase, event) {
            (RelaunchPhase::Start, RelaunchEvent::Observed { exe, launcher_present }) => {
                if exe.starts_with(&self.version_dir) {
                    (RelaunchPhase::Done, RelaunchAction::Proceed)
                } else if launcher_present {
                    (RelaunchPhase::Spawning { retry: false }, self.spawn())
                } else {
                    (
                        RelaunchPhase::Fetching { retry: false },
                        RelaunchAction::Download {
                            url: self.launcher_url.clone(),
                            dest: self.launcher.duplicate(),
                        },
                    )
                }
            },
            (RelaunchPhase::Fetching { retry }, RelaunchEvent::Fetched) => {
                (RelaunchPhase::Spawning { retry }, self.spawn())
            },
            (RelaunchPhase::Spawning { retry }, RelaunchEvent::SpawnSucceeded) => {
                (RelaunchPhase::Done, RelaunchAction::Exit)
            },
            (RelaunchPhase::Spawning { retry }, RelaunchEvent::SpawnFailed) => {
                if retry {
                    (RelaunchPhase::Done, RelaunchAction::Fatal)
                } else {
                    (
                        RelaunchPhase::Fetching { retry: true },
                        RelaunchAction::Replace {
                            url: self.launcher_url.clone(),
                            dest: self.launcher.duplicate(),
                        },
                    )
                }
            },
            _ => (RelaunchPhase::Done, RelaunchAction::Exit),
        }
    }
}

} // verus!
