use vstd::prelude::*;
use crate::directives::{LaunchDirectives, DirectivesView};
use crate::layout::{InstallPath, default_exe_of, marker_of, default_executable, marker_path};
use crate::urls::{auth_url, auth_url_of};

verus! {

/// The client executable for a client year: the three known years have their
/// own subdirectory, any other year takes the default executable.
pub open spec fn client_exe_of(vdir: Seq<Seq<char>>, year: Seq<char>) -> Seq<Seq<char>> {
    if year == "2018"@ {
        vdir.push("Client2018"@).push("SyntaxPlayerBeta.exe"@)
    } else if year == "2020"@ {
        vdir.push("Client2020"@).push("SyntaxPlayerBeta.exe"@)
    } else if year == "2014"@ {
        vdir.push("Client2014"@).push("SyntaxPlayerBeta.exe"@)
    } else {
        default_exe_of(vdir)
    }
}

pub open spec fn is_blank(c: char) -> bool {
    c == ' ' || c == '\t' || c == '\n' || c == '\r'
}

/// `s` without trailing blanks.
pub open spec fn trim_end_of(s: Seq<char>) -> Seq<char>
    decreases s.len(),
{
    if s.len() > 0 && is_blank(s.last()) {
        trim_end_of(s.drop_last())
    } else {
        s
    }
}

/// The compatibility-layer binary: the contents of the override file without
/// trailing blanks, unless there is no such file or it names nothing, in
/// which case the default binary.
pub open spec fn compat_binary_of(override_text: Option<Seq<char>>) -> Seq<char> {
    match override_text {
        Some(t) => if trim_end_of(t).len() > 0 {
            trim_end_of(t)
        } else {
            "wine64"@
        },
        None => "wine64"@,
    }
}

/// The arguments that start the client in play mode.
pub open spec fn play_args_of(base_host: Seq<char>, ticket: Seq<char>, join_script: Seq<char>) -> Seq<
    Seq<char>,
> {
    seq![
        "--play"@,
        "--authenticationUrl"@,
        auth_url_of(base_host),
        "--authenticationTicket"@,
        ticket,
        "--joinScriptUrl"@,
        join_script,
    ]
}

/// How the client is started.
pub struct LaunchCommand {
    /// The client executable.
    pub executable: InstallPath,
    /// Where the platform cannot run the executable itself: the binary that
    /// runs it, with the executable as its first argument.
    pub compat_layer: Option<String>,
    /// The arguments after the executable.
    pub args: Vec<String>,
    /// Whether to wait for the client to exit.
    pub wait: bool,
}

/// What the dispatcher decided.
pub enum LaunchOutcome {
    /// The executable is missing: delete the marker `marker` so that the next
    /// run reinstalls, report, and exit.
    MissingExecutable { marker: InstallPath },
    /// Start the client.
    Start { command: LaunchCommand },
    /// The launch mode is not known: report and exit, starting nothing.
    UnknownMode,
}

pub enum LaunchOutcomeView {
    MissingExecutable { marker: Seq<Seq<char>> },
    Start {
        executable: Seq<Seq<char>>,
        compat_layer: Option<Seq<char>>,
        args: Seq<Seq<char>>,
        wait: bool,
    },
    UnknownMode,
}

impl View for LaunchOutcome {
    type V = LaunchOutcomeView;

    open spec fn view(&self) -> LaunchOutcomeView {
        match self {
            LaunchOutcome::MissingExecutable { marker } => LaunchOutcomeView::MissingExecutable {
                marker: marker@,
            },
            LaunchOutcome::Start { command } => LaunchOutcomeView::Start {
                executable: command.executable@,
                compat_layer: match command.compat_layer {
                    Some(c) => Some(c@),
                    None => None,
                },
                args: command.args@.map_values(|a: String| a@),
                wait: command.wait,
            },
            LaunchOutcome::UnknownMode => LaunchOutcomeView::UnknownMode,
        }
    }
}

/// The decision for the directives `d` in the version directory `vdir`,
/// given whether the selected executable exists and which compatibility
/// layer the platform needs (none where it runs the client natively): a
/// missing executable comes first, then `play` starts the client (waiting for
/// it when it runs through a compatibility layer), and any other mode is
/// refused.
pub open spec fn launch_outcome_of(
    vdir: Seq<Seq<char>>,
    d: DirectivesView,
    executable_present: bool,
    base_host: Seq<char>,
    compat_layer: Option<Seq<char>>,
) -> LaunchOutcomeView {
    if !executable_present {
        LaunchOutcomeView::MissingExecutable { marker: marker_of(vdir) }
    } else if d.launch_mode == "play"@ {
        LaunchOutcomeView::Start {
            executable: client_exe_of(vdir, d.client_year),
            compat_layer,
            args: play_args_of(base_host, d.ticket, d.join_script),
            wait: compat_layer is Some,
        }
    } else {
        LaunchOutcomeView::UnknownMode
    }
}

fn same_text(a: &str, b: &str) -> (r: bool)
    ensures
        r == (a@ == b@),
{
    String::from_str(a) == String::from_str(b)
}

/// The client executable selected by a client year.
pub fn client_executable(vdir: &InstallPath, year: &str) -> (r: InstallPath)
    ensures
        r@ == client_exe_of(vdir@, year@),
{
    if same_text(year, "2018") {
        vdir.join("Client2018").join("SyntaxPlayerBeta.exe")
    } else if same_text(year, "2020") {
        vdir.join("Client2020").join("SyntaxPlayerBeta.exe")
    } else if same_text(year, "2014") {
        vdir.join("Client2014").join("SyntaxPlayerBeta.exe")
    } else {
        default_executable(vdir)
    }
}

/// `s` without trailing blanks.
pub fn trim_end(s: &str) -> (r: &str)
    ensures
        r@ == trim_end_of(s@),
{
    let n = s.unicode_len();
    let mut end: usize = n;
    proof {
        assert(s@.take(n as int) =~= s@);
    }
    while end > 0 && is_blank_char(s.get_char(end - 1))
        invariant
            n == s@.len(),
            end <= n,
            trim_end_of(s@.take(end as int)) == trim_end_of(s@),
        decreases end,
    {
        proof {
            assert(s@.take(end as int).drop_last() =~= s@.take(end - 1));
        }
        end = end - 1;
    }
    s.substring_char(0, end)
}

fn is_blank_char(c: char) -> (r: bool)
    ensures
        r == is_blank(c),
{
    c == ' ' || c == '\t' || c == '\n' || c == '\r'
}

/// The compatibility-layer binary, from the contents of the override file
/// where there is one.
pub fn compat_binary(override_text: Option<String>) -> (r: String)
    ensures
        r@ == compat_binary_of(
            match override_text {
                Some(t) => Some(t@),
                None => None,
            },
        ),
{
    match override_text {
        Some(t) => {
            let trimmed = trim_end(t.as_str());
            if trimmed.unicode_len() > 0 {
                String::from_str(trimmed)
            } else {
                String::from_str("wine64")
            }
        },
        None => String::from_str("wine64"),
    }
}

/// The arguments that start the client in play mode.
pub fn play_args(base_host: &str, ticket: &str, join_script: &str) -> (r: Vec<String>)
    ensures
        r@.map_values(|a: String| a@) == play_args_of(base_host@, ticket@, join_script@),
{
    let mut r: Vec<String> = Vec::new();
    r.push(String::from_str("--play"));
    r.push(String::from_str("--authenticationUrl"));
    r.push(auth_url(base_host));
    r.push(String::from_str("--authenticationTicket"));
    r.push(String::from_str(ticket));
    r.push(String::from_str("--joinScriptUrl"));
    r.push(String::from_str(join_script));
    proof {
        assert(r@.map_values(|a: String| a@) =~= play_args_of(base_host@, ticket@, join_script@));
    }
    r
}

/// The launch decision (see `launch_outcome_of`).
pub fn launch_outcome(
    vdir: &InstallPath,
    d: &LaunchDirectives,
    executable_present: bool,
    base_host: &str,
    compat_layer: Option<String>,
) -> (r: LaunchOutcome)
    ensures
        r@ == launch_outcome_of(
            vdir@,
            d@,
            executable_present,
            base_host@,
            match compat_layer {
                Some(c) => Some(c@),
                None => None,
            },
        ),
{
    if !executable_present {
        LaunchOutcome::MissingExecutable { marker: marker_path(vdir) }
    } else if same_text(d.launch_mode.as_str(), "play") {
        let wait = compat_layer.is_some();
        LaunchOutcome::Start {
            command: LaunchCommand {
                executable: client_executable(vdir, d.client_year.as_str()),
                compat_layer,
                args: play_args(base_host, d.ticket.as_str(), d.join_script.as_str()),
                wait,
            },
        }
    } else {
        LaunchOutcome::UnknownMode
    }
}

} // verus!
