use vstd::prelude::*;
use crate::layout::{
    InstallPath, Layout, under_or_eq, strictly_under, cache_path_of, versions_dir_of,
    downloads_dir_of, version_dir_of, marker_of, download_path, marker_path,
};
use crate::manifest::{Package, package_manifest, manifest_of};
use crate::urls::{artifact_url, artifact_url_of};

verus! {

/// One filesystem action of an install pass.
pub enum InstallStep {
    /// Delete everything below `dir` but the file `keep`.
    ClearDir { dir: InstallPath, keep: InstallPath },
    /// Create `dir` and its ancestors where missing.
    EnsureDir { dir: InstallPath },
    /// Fetch `url` into the file `dest`.
    Download { url: String, dest: InstallPath },
    /// Unpack the archive `archive` into the directory `dest`.
    Extract { archive: InstallPath, dest: InstallPath },
    /// Delete `dir` with everything below it.
    RemoveTree { dir: InstallPath },
    /// Write `contents` to the file `path`.
    WriteFile { path: InstallPath, contents: String },
    /// Delete every entry of `dir` other than `keep`.
    PruneOthers { dir: InstallPath, keep: InstallPath },
}

pub enum StepView {
    ClearDir { dir: Seq<Seq<char>>, keep: Seq<Seq<char>> },
    EnsureDir { dir: Seq<Seq<char>> },
    Download { url: Seq<char>, dest: Seq<Seq<char>> },
    Extract { archive: Seq<Seq<char>>, dest: Seq<Seq<char>> },
    RemoveTree { dir: Seq<Seq<char>> },
    WriteFile { path: Seq<Seq<char>>, contents: Seq<char> },
    PruneOthers { dir: Seq<Seq<char>>, keep: Seq<Seq<char>> },
}

impl View for InstallStep {
    type V = StepView;

    open spec fn view(&self) -> StepView {
        match self {
            InstallStep::ClearDir { dir, keep } => StepView::ClearDir { dir: dir@, keep: keep@ },
            InstallStep::EnsureDir { dir } => StepView::EnsureDir { dir: dir@ },
            InstallStep::Download { url, dest } => StepView::Download { url: url@, dest: dest@ },
            InstallStep::Extract { archive, dest } => StepView::Extract {
                archive: archive@,
                dest: dest@,
            },
            InstallStep::RemoveTree { dir } => StepView::RemoveTree { dir: dir@ },
            InstallStep::WriteFile { path, contents } => StepView::WriteFile {
                path: path@,
                contents: contents@,
            },
            InstallStep::PruneOthers { dir, keep } => StepView::PruneOthers {
                dir: dir@,
                keep: keep@,
            },
        }
    }
}

pub open spec fn steps_view(steps: Seq<InstallStep>) -> Seq<StepView> {
    steps.map_values(|s: InstallStep| s@)
}

/// The settings marker written at the end of a pass: it names the content
/// folder and the base service URL.
pub open spec fn settings_of(base_host: Seq<char>) -> Seq<char> {
    "<?xml version=\"1.0\" encoding=\"UTF-8\"?>\n<Settings>\n\t<ContentFolder>content</ContentFolder>\n\t<BaseUrl>https://"@
        + base_host + "</BaseUrl>\n</Settings>"@
}

/// Download, target directory and extraction of one package.
pub open spec fn package_steps_of(
    pkg: (Seq<char>, Seq<Seq<char>>),
    scratch: Seq<Seq<char>>,
    vdir: Seq<Seq<char>>,
    host: Seq<char>,
    version: Seq<char>,
) -> Seq<StepView> {
    let url = artifact_url_of(host, version, pkg.0);
    let dest = vdir + pkg.1;
    seq![
        StepView::Download { url, dest: cache_path_of(scratch, url) },
        StepView::EnsureDir { dir: dest },
        StepView::Extract { archive: cache_path_of(scratch, url), dest },
    ]
}

/// The steps of a list of packages, one package after the other.
pub open spec fn payload_steps_of(
    pkgs: Seq<(Seq<char>, Seq<Seq<char>>)>,
    scratch: Seq<Seq<char>>,
    vdir: Seq<Seq<char>>,
    host: Seq<char>,
    version: Seq<char>,
) -> Seq<StepView>
    decreases pkgs.len(),
{
    if pkgs.len() == 0 {
        seq![]
    } else {
        payload_steps_of(pkgs.drop_last(), scratch, vdir, host, version) + package_steps_of(
            pkgs.last(),
            scratch,
            vdir,
            host,
            version,
        )
    }
}

/// A full install pass of `version`, fetched from `host`, into the install
/// root `root`, run by the launcher at `running`: clear the version
/// directory, fetch and unpack every package through the scratch directory,
/// drop the scratch directory, write the marker last, and delete every other
/// version.
pub open spec fn install_plan_of(
    root: Seq<Seq<char>>,
    host: Seq<char>,
    version: Seq<char>,
    running: Seq<Seq<char>>,
    base_host: Seq<char>,
) -> Seq<StepView> {
    let vdir = version_dir_of(root, version);
    let scratch = downloads_dir_of(root);
    seq![StepView::ClearDir { dir: vdir, keep: running }, StepView::EnsureDir { dir: scratch }]
        + payload_steps_of(manifest_of(), scratch, vdir, host, version) + seq![
        StepView::RemoveTree { dir: scratch },
        StepView::WriteFile { path: marker_of(vdir), contents: settings_of(base_host) },
        StepView::PruneOthers { dir: versions_dir_of(root), keep: vdir },
    ]
}

/// The steps of a run: none where the marker and the executable are both
/// present, a full pass otherwise.
pub open spec fn install_steps_of(
    root: Seq<Seq<char>>,
    host: Seq<char>,
    version: Seq<char>,
    running: Seq<Seq<char>>,
    base_host: Seq<char>,
    marker_present: bool,
    executable_present: bool,
) -> Seq<StepView> {
    if marker_present && executable_present {
        seq![]
    } else {
        install_plan_of(root, host, version, running, base_host)
    }
}

/// The contents of the settings marker.
pub fn settings_document(base_host: &str) -> (r: String)
    ensures
        r@ == settings_of(base_host@),
{
    String::from_str(
        "<?xml version=\"1.0\" encoding=\"UTF-8\"?>\n<Settings>\n\t<ContentFolder>content</ContentFolder>\n\t<BaseUrl>https://",
    ).concat(base_host).concat("</BaseUrl>\n</Settings>")
}

fn extend_path(base: &InstallPath, rel: &Vec<String>) -> (r: InstallPath)
    ensures
        r@ == base@ + rel@.map_values(|d: String| d@),
{
    let mut r = base.duplicate();
    let mut i: usize = 0;
    while i < rel.len()
        invariant
            i <= rel@.len(),
            r@ == base@ + rel@.map_values(|d: String| d@).take(i as int),
        decreases rel@.len() - i,
    {
        r = r.join(rel[i].as_str());
        proof {
            assert(base@ + rel@.map_values(|d: String| d@).take(i + 1) =~= (base@
                + rel@.map_values(|d: String| d@).take(i as int)).push(rel@[i as int]@));
        }
        i = i + 1;
    }
    proof {
        assert(rel@.map_values(|d: String| d@).take(rel@.len() as int) =~= rel@.map_values(
            |d: String| d@,
        ));
    }
    r
}

fn push_package_steps(
    steps: &mut Vec<InstallStep>,
    pkg: &Package,
    scratch: &InstallPath,
    vdir: &InstallPath,
    host: &str,
    version: &str,
)
    ensures
        steps_view(final(steps)@) == steps_view(old(steps)@) + package_steps_of(
            pkg@,
            scratch@,
            vdir@,
            host@,
            version@,
        ),
{
    let url = artifact_url(host, version, pkg.archive.as_str());
    let cached = download_path(scratch, url.as_str());
    let dest = extend_path(vdir, &pkg.dest);
    let dest2 = dest.duplicate();
    let cached2 = cached.duplicate();
    steps.push(InstallStep::Download { url, dest: cached });
    steps.push(InstallStep::EnsureDir { dir: dest });
    steps.push(InstallStep::Extract { archive: cached2, dest: dest2 });
    proof {
        assert(steps_view(final(steps)@) =~= steps_view(old(steps)@) + package_steps_of(
            pkg@,
            scratch@,
            vdir@,
            host@,
            version@,
        ));
    }
}

/// A full install pass (see `install_plan_of`).
pub fn install_plan(
    layout: &Layout,
    host: &str,
    version: &str,
    running: &InstallPath,
    base_host: &str,
) -> (r: Vec<InstallStep>)
    ensures
        steps_view(r@) == install_plan_of(layout.root@, host@, version@, running@, base_host@),
{
    let vdir = layout.version_dir(version);
    let scratch = layout.downloads_dir();
    let pkgs = package_manifest();
    let ghost m = manifest_of();
    let mut steps: Vec<InstallStep> = Vec::new();
    steps.push(InstallStep::ClearDir { dir: vdir.duplicate(), keep: running.duplicate() });
    steps.push(InstallStep::EnsureDir { dir: scratch.duplicate() });
    let ghost head = steps_view(steps@);
    proof {
        assert(head =~= seq![
            StepView::ClearDir { dir: vdir@, keep: running@ },
            StepView::EnsureDir { dir: scratch@ },
        ]);
    }
    let mut i: usize = 0;
    while i < pkgs.len()
        invariant
            i <= pkgs@.len(),
            pkgs@.map_values(|p: Package| p@) == m,
            steps_view(steps@) == head + payload_steps_of(
                m.take(i as int),
                scratch@,
                vdir@,
                host@,
                version@,
            ),
        decreases pkgs@.len() - i,
    {
        push_package_steps(&mut steps, &pkgs[i], &scratch, &vdir, host, version);
        proof {
            assert(m.take(i + 1).drop_last() =~= m.take(i as int));
            assert(pkgs@[i as int]@ == m[i as int]);
        }
        i = i + 1;
    }
    proof {
        assert(m.take(pkgs@.len() as int) =~= m);
    }
    let marker = marker_path(&vdir);
    let ghost mid = steps_view(steps@);
    let ghost (scratch_v, vdir_v) = (scratch@, vdir@);
    steps.push(InstallStep::RemoveTree { dir: scratch });
    steps.push(InstallStep::WriteFile { path: marker, contents: settings_document(base_host) });
    steps.push(InstallStep::PruneOthers { dir: layout.versions_dir(), keep: vdir });
    proof {
        assert(steps_view(steps@) =~= mid + seq![
            StepView::RemoveTree { dir: scratch_v },
            StepView::WriteFile { path: marker_of(vdir_v), contents: settings_of(base_host@) },
            StepView::PruneOthers { dir: versions_dir_of(layout.root@), keep: vdir_v },
        ]);
        assert(steps_view(steps@) =~= install_plan_of(
            layout.root@,
            host@,
            version@,
            running@,
            base_host@,
        ));
    }
    steps
}

/// The steps of a run, given whether the marker and the client executable of
/// the version directory exist: nothing to do for a valid install, a full
/// pass for any other.
pub fn install_steps(
    layout: &Layout,
    host: &str,
    version: &str,
    running: &InstallPath,
    base_host: &str,
    marker_present: bool,
    executable_present: bool,
) -> (r: Vec<InstallStep>)
    ensures
        steps_view(r@) == install_steps_of(
            layout.root@,
            host@,
            version@,
            running@,
            base_host@,
            marker_present,
            executable_present,
        ),
{
    if marker_present && executable_present {
        let r: Vec<InstallStep> = Vec::new();
        proof {
            assert(steps_view(r@) =~= Seq::<StepView>::empty());
        }
        r
    } else {
        install_plan(layout, host, version, running, base_host)
    }
}

} // verus!

verus! {

/// The paths that exist after one step, over the paths that the steps name:
/// what an archive holds is not modelled, only that its target directory
/// exists once it is unpacked.
pub open spec fn apply_step_of(fs: Set<Seq<Seq<char>>>, s: StepView) -> Set<Seq<Seq<char>>> {
    match s {
        StepView::ClearDir { dir, keep } => fs.filter(
            |q: Seq<Seq<char>>| !(strictly_under(dir, q) && q != keep),
        ),
        StepView::EnsureDir { dir } => fs.insert(dir),
        StepView::Download { url, dest } => fs.insert(dest),
        StepView::Extract { archive, dest } => fs.insert(dest),
        StepView::RemoveTree { dir } => fs.filter(|q: Seq<Seq<char>>| !under_or_eq(dir, q)),
        StepView::WriteFile { path, contents } => fs.insert(path),
        StepView::PruneOthers { dir, keep } => fs.filter(
            |q: Seq<Seq<char>>| !(strictly_under(dir, q) && !under_or_eq(keep, q)),
        ),
    }
}

/// The paths that exist after a sequence of steps, all of them successful.
pub open spec fn apply_steps_of(fs: Set<Seq<Seq<char>>>, steps: Seq<StepView>) -> Set<
    Seq<Seq<char>>,
>
    decreases steps.len(),
{
    if steps.len() == 0 {
        fs
    } else {
        apply_step_of(apply_steps_of(fs, steps.drop_last()), steps.last())
    }
}

} // verus!
