use std::collections::BTreeSet;
use syntax_bootstrapper::installer::{install_plan, install_steps, settings_document, InstallStep};
use syntax_bootstrapper::launch::{
    client_executable, compat_binary, launch_outcome, play_args, trim_end, LaunchOutcome,
};
use syntax_bootstrapper::directives::parse_invocation;
use syntax_bootstrapper::layout::{InstallPath, Layout};
use syntax_bootstrapper::manifest::package_manifest;
use syntax_bootstrapper::relaunch::{Relaunch, RelaunchAction, RelaunchEvent, RelaunchPhase};
use syntax_bootstrapper::resolver::{Hosts, ResolveStep};
use syntax_bootstrapper::urls::{artifact_url, auth_url, version_query_url};

fn path(parts: &[&str]) -> InstallPath {
    InstallPath::from_parts(parts.iter().map(|p| p.to_string()).collect())
}

fn root() -> Layout {
    Layout::new(path(&["/", "data", "Syntax"]))
}

fn under(dir: &[String], p: &[String]) -> bool {
    p.len() >= dir.len() && &p[..dir.len()] == dir
}

/// Runs steps over a set of paths the way the filesystem would.
fn simulate(fs: &mut BTreeSet<Vec<String>>, steps: &[InstallStep]) {
    for s in steps {
        match s {
            InstallStep::ClearDir { dir, keep } => fs.retain(|q| {
                !(under(&dir.parts, q) && q.len() > dir.parts.len() && *q != keep.parts)
            }),
            InstallStep::EnsureDir { dir } => {
                fs.insert(dir.parts.clone());
            }
            InstallStep::Download { dest, .. } => {
                fs.insert(dest.parts.clone());
            }
            InstallStep::Extract { dest, .. } => {
                fs.insert(dest.parts.clone());
            }
            InstallStep::RemoveTree { dir } => fs.retain(|q| !under(&dir.parts, q)),
            InstallStep::WriteFile { path, .. } => {
                fs.insert(path.parts.clone());
            }
            InstallStep::PruneOthers { dir, keep } => fs.retain(|q| {
                !(under(&dir.parts, q) && q.len() > dir.parts.len() && !under(&keep.parts, q))
            }),
        }
    }
}

#[test]
fn urls_are_built_from_host_and_version() {
    assert_eq!(version_query_url("h.example"), "https://h.example/version");
    assert_eq!(artifact_url("h", "v9", "shaders.zip"), "https://h/v9-shaders.zip");
    assert_eq!(auth_url("www.b"), "https://www.b/Login/Negotiate.ashx");
}

#[test]
fn primary_host_is_asked_first_and_adopted() {
    let hosts = Hosts::new("setup.a", "fallback.b");
    match hosts.first_query() {
        ResolveStep::Query { host, url } => {
            assert_eq!(host, "setup.a");
            assert_eq!(url, "https://setup.a/version");
        }
        _ => panic!("expected a query"),
    }
    match hosts.after_reply(false, Some("7.0".to_string())) {
        ResolveStep::Resolved { host, version } => {
            assert_eq!(host, "setup.a");
            assert_eq!(version, "7.0");
        }
        _ => panic!("expected a resolution"),
    }
}

#[test]
fn fallback_answer_is_adopted_with_its_host() {
    let hosts = Hosts::new("setup.a", "fallback.b");
    match hosts.after_reply(false, None) {
        ResolveStep::Query { host, url } => {
            assert_eq!(host, "fallback.b");
            assert_eq!(url, "https://fallback.b/version");
        }
        _ => panic!("expected the fallback query"),
    }
    let (host, version) = match hosts.after_reply(true, Some("1.2.3".to_string())) {
        ResolveStep::Resolved { host, version } => (host, version),
        _ => panic!("expected a resolution"),
    };
    assert_eq!(version, "1.2.3");
    assert_eq!(host, "fallback.b");
    let plan = install_plan(&root(), &host, &version, &path(&["x"]), "www.b");
    let mut downloads = 0;
    for s in &plan {
        if let InstallStep::Download { url, .. } = s {
            assert!(url.starts_with("https://fallback.b/1.2.3-"));
            downloads += 1;
        }
    }
    assert_eq!(downloads, 19);
}

#[test]
fn both_hosts_failing_is_fatal() {
    let hosts = Hosts::new("setup.a", "fallback.b");
    assert!(matches!(hosts.after_reply(true, None), ResolveStep::Fatal));
}

#[test]
fn manifest_has_every_package() {
    let m = package_manifest();
    assert_eq!(m.len(), 19);
    assert_eq!(m[0].archive, "SyntaxApp.zip");
    assert!(m[0].dest.is_empty());
    assert_eq!(m[13].archive, "content-terrain.zip");
    assert_eq!(m[13].dest, vec!["PlatformContent", "pc", "terrain"]);
    assert_eq!(m[17].archive, "2020client.zip");
    assert_eq!(m[17].dest, vec!["Client2020"]);
}

#[test]
fn valid_install_needs_no_step() {
    let steps = install_steps(&root(), "h", "v", &path(&["x"]), "www.b", true, true);
    assert!(steps.is_empty());
}

#[test]
fn invalid_install_gets_a_full_pass() {
    for (m, e) in [(false, true), (true, false), (false, false)] {
        let steps = install_steps(&root(), "h", "v", &path(&["x"]), "www.b", m, e);
        assert_eq!(steps.len(), 2 + 3 * 19 + 3);
    }
}

#[test]
fn install_pass_order_and_contents() {
    let layout = root();
    let running = path(&["/", "data", "Syntax", "Versions", "v", "Launcher"]);
    let steps = install_plan(&layout, "h", "v", &running, "www.b");
    match &steps[0] {
        InstallStep::ClearDir { dir, keep } => {
            assert_eq!(dir.parts, vec!["/", "data", "Syntax", "Versions", "v"]);
            assert_eq!(keep.parts, running.parts);
        }
        _ => panic!("expected the version directory to be cleared first"),
    }
    match &steps[2] {
        InstallStep::Download { url, dest } => {
            assert_eq!(url, "https://h/v-SyntaxApp.zip");
            assert_eq!(dest.parts.len(), 5);
            assert_eq!(dest.parts[3], "Downloads");
        }
        _ => panic!("expected a download"),
    }
    match &steps[4] {
        InstallStep::Extract { dest, .. } => {
            assert_eq!(dest.parts, vec!["/", "data", "Syntax", "Versions", "v"]);
        }
        _ => panic!("expected an extraction"),
    }
    let n = steps.len();
    assert!(matches!(&steps[n - 3], InstallStep::RemoveTree { dir } if dir.parts == vec!["/", "data", "Syntax", "Downloads"]));
    match &steps[n - 2] {
        InstallStep::WriteFile { path, contents } => {
            assert_eq!(path.parts, vec!["/", "data", "Syntax", "Versions", "v", "AppSettings.xml"]);
            assert_eq!(*contents, settings_document("www.b"));
        }
        _ => panic!("expected the marker to be written"),
    }
    assert!(matches!(&steps[n - 1], InstallStep::PruneOthers { .. }));
}

#[test]
fn settings_document_names_base_url() {
    assert_eq!(
        settings_document("www.b"),
        "<?xml version=\"1.0\" encoding=\"UTF-8\"?>\n<Settings>\n\t<ContentFolder>content</ContentFolder>\n\t<BaseUrl>https://www.b</BaseUrl>\n</Settings>"
    );
}

#[test]
fn install_pass_leaves_one_version_and_no_scratch() {
    let s = |v: &[&str]| v.iter().map(|x| x.to_string()).collect::<Vec<String>>();
    let mut fs = BTreeSet::new();
    fs.insert(s(&["/", "data", "Syntax", "Downloads", "stale"]));
    fs.insert(s(&["/", "data", "Syntax", "Versions", "old"]));
    fs.insert(s(&["/", "data", "Syntax", "Versions", "old", "AppSettings.xml"]));
    fs.insert(s(&["/", "data", "Syntax", "Versions", "v", "junk"]));
    fs.insert(s(&["/", "data", "Syntax", "Versions", "v", "Launcher"]));
    let running = path(&["/", "data", "Syntax", "Versions", "v", "Launcher"]);
    let steps = install_steps(&root(), "h", "v", &running, "www.b", false, true);
    simulate(&mut fs, &steps);
    assert!(fs.contains(&s(&["/", "data", "Syntax", "Versions", "v", "AppSettings.xml"])));
    assert!(fs.contains(&s(&["/", "data", "Syntax", "Versions", "v", "Launcher"])));
    assert!(!fs.contains(&s(&["/", "data", "Syntax", "Versions", "v", "junk"])));
    for q in &fs {
        assert!(!under(&s(&["/", "data", "Syntax", "Downloads"]), q));
        if under(&s(&["/", "data", "Syntax", "Versions"]), q) && q.len() > 4 {
            assert_eq!(q[4], "v");
        }
    }
}

#[test]
fn interrupted_pass_leaves_no_marker() {
    let s = |v: &[&str]| v.iter().map(|x| x.to_string()).collect::<Vec<String>>();
    let marker = s(&["/", "data", "Syntax", "Versions", "v", "AppSettings.xml"]);
    let running = path(&["/", "data", "Syntax", "Versions", "v", "Launcher"]);
    let steps = install_plan(&root(), "h", "v", &running, "www.b");
    for k in 1..=steps.len() - 2 {
        let mut fs = BTreeSet::new();
        fs.insert(marker.clone());
        simulate(&mut fs, &steps[..k]);
        assert!(!fs.contains(&marker));
    }
    let mut fs = BTreeSet::new();
    simulate(&mut fs, &steps);
    assert!(fs.contains(&marker));
}

fn relaunch() -> Relaunch {
    Relaunch::new(&root(), "h", "v", "Launcher", vec!["scheme://x".to_string()])
}

#[test]
fn current_binary_proceeds() {
    let r = relaunch();
    let exe = path(&["/", "data", "Syntax", "Versions", "v", "Launcher"]);
    let (phase, action) = r.step(RelaunchPhase::Start, RelaunchEvent::Observed { exe, launcher_present: true });
    assert!(phase == RelaunchPhase::Done);
    assert!(matches!(action, RelaunchAction::Proceed));
}

#[test]
fn stale_binary_fetches_retries_once_and_never_proceeds() {
    let r = relaunch();
    assert_eq!(r.launcher_url, "https://h/v-Launcher");
    let exe = path(&["/", "usr", "bin", "Launcher"]);
    let (phase, action) = r.step(RelaunchPhase::Start, RelaunchEvent::Observed { exe, launcher_present: false });
    assert!(phase == RelaunchPhase::Fetching { retry: false });
    match action {
        RelaunchAction::Download { url, dest } => {
            assert_eq!(url, "https://h/v-Launcher");
            assert_eq!(dest.parts, vec!["/", "data", "Syntax", "Versions", "v", "Launcher"]);
        }
        _ => panic!("expected a download"),
    }
    let (phase, action) = r.step(phase, RelaunchEvent::Fetched);
    assert!(phase == RelaunchPhase::Spawning { retry: false });
    match action {
        RelaunchAction::Spawn { program, args } => {
            assert_eq!(program.parts, vec!["/", "data", "Syntax", "Versions", "v", "Launcher"]);
            assert_eq!(args, vec!["scheme://x"]);
        }
        _ => panic!("expected a spawn"),
    }
    let (phase, action) = r.step(phase, RelaunchEvent::SpawnFailed);
    assert!(phase == RelaunchPhase::Fetching { retry: true });
    assert!(matches!(action, RelaunchAction::Replace { .. }));
    let (phase, action) = r.step(phase, RelaunchEvent::Fetched);
    assert!(matches!(action, RelaunchAction::Spawn { .. }));
    let (phase, action) = r.step(phase, RelaunchEvent::SpawnFailed);
    assert!(phase == RelaunchPhase::Done);
    assert!(matches!(action, RelaunchAction::Fatal));
}

#[test]
fn stale_binary_with_launcher_spawns_then_exits() {
    let r = relaunch();
    let exe = path(&["/", "data", "Syntax", "Versions", "old", "Launcher"]);
    let (phase, action) = r.step(RelaunchPhase::Start, RelaunchEvent::Observed { exe, launcher_present: true });
    assert!(matches!(action, RelaunchAction::Spawn { .. }));
    let (phase, action) = r.step(phase, RelaunchEvent::SpawnSucceeded);
    assert!(phase == RelaunchPhase::Done);
    assert!(matches!(action, RelaunchAction::Exit));
}

#[test]
fn client_year_selects_executable() {
    let vdir = path(&["v"]);
    assert_eq!(client_executable(&vdir, "2018").parts, vec!["v", "Client2018", "SyntaxPlayerBeta.exe"]);
    assert_eq!(client_executable(&vdir, "2020").parts, vec!["v", "Client2020", "SyntaxPlayerBeta.exe"]);
    assert_eq!(client_executable(&vdir, "2014").parts, vec!["v", "Client2014", "SyntaxPlayerBeta.exe"]);
    assert_eq!(client_executable(&vdir, "2016").parts, vec!["v", "SyntaxPlayerBeta.exe"]);
    assert_eq!(client_executable(&vdir, "").parts, vec!["v", "SyntaxPlayerBeta.exe"]);
}

#[test]
fn compat_binary_override() {
    assert_eq!(compat_binary(None), "wine64");
    assert_eq!(compat_binary(Some("/opt/wine/bin/wine\n".to_string())), "/opt/wine/bin/wine");
    assert_eq!(compat_binary(Some(" \n".to_string())), "wine64");
    assert_eq!(trim_end("a b \t\r\n"), "a b");
}

#[test]
fn play_arguments() {
    assert_eq!(
        play_args("www.b", "T", "J"),
        vec![
            "--play",
            "--authenticationUrl",
            "https://www.b/Login/Negotiate.ashx",
            "--authenticationTicket",
            "T",
            "--joinScriptUrl",
            "J"
        ]
    );
}

#[test]
fn end_to_end_play_launch() {
    let d = parse_invocation(
        "scheme://launchmode:play+gameinfo:T1+placelauncherurl:https://host/join?t=T1+clientyear:2020",
    );
    let vdir = path(&["v"]);
    match launch_outcome(&vdir, &d, true, "www.b", Some("wine64".to_string())) {
        LaunchOutcome::Start { command } => {
            assert_eq!(command.executable.parts, vec!["v", "Client2020", "SyntaxPlayerBeta.exe"]);
            assert_eq!(command.compat_layer, Some("wine64".to_string()));
            assert!(command.wait);
            let a = &command.args;
            let t = a.iter().position(|x| x == "--authenticationTicket").unwrap();
            assert_eq!(a[t + 1], "T1");
            let j = a.iter().position(|x| x == "--joinScriptUrl").unwrap();
            assert_eq!(a[j + 1], "https://host/join?t=T1");
        }
        _ => panic!("expected a launch"),
    }
    match launch_outcome(&vdir, &d, true, "www.b", None) {
        LaunchOutcome::Start { command } => {
            assert!(command.compat_layer.is_none());
            assert!(!command.wait);
        }
        _ => panic!("expected a launch"),
    }
}

#[test]
fn missing_executable_marks_install_invalid() {
    let d = parse_invocation("scheme://launchmode:play");
    match launch_outcome(&path(&["v"]), &d, false, "www.b", None) {
        LaunchOutcome::MissingExecutable { marker } => assert_eq!(marker.parts, vec!["v", "AppSettings.xml"]),
        _ => panic!("expected a missing executable"),
    }
}

#[test]
fn unknown_launch_mode_starts_nothing() {
    let d = parse_invocation("scheme://launchmode:edit");
    assert!(matches!(launch_outcome(&path(&["v"]), &d, true, "www.b", None), LaunchOutcome::UnknownMode));
}
