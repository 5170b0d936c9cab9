use vstd::prelude::*;
use crate::layout::{
    under_or_eq, strictly_under, versions_dir_of, downloads_dir_of, version_dir_of, marker_of,
    default_exe_of,
};
use crate::installer::{
    StepView, install_steps_of, install_plan_of, payload_steps_of, apply_step_of, apply_steps_of,
    settings_of,
};
use crate::manifest::manifest_of;
use crate::resolver::{ResolveStepView, after_reply_of, query_of};
use crate::relaunch::{RelaunchView, RelaunchPhase, RelaunchEventView, run_of, step_of};
use crate::urls::artifact_url_of;
use crate::directives::{
    first_colon_of, key_of, value_of, directives_of_segments, lemma_first_colon_stays,
};

verus! {

/// An already valid version directory (marker and executable present) gets
/// no install step: nothing is downloaded and the filesystem is left as it
/// is.
pub proof fn lemma_valid_install_untouched(
    fs: Set<Seq<Seq<char>>>,
    root: Seq<Seq<char>>,
    host: Seq<char>,
    version: Seq<char>,
    running: Seq<Seq<char>>,
    base_host: Seq<char>,
)
    requires
        fs.contains(marker_of(version_dir_of(root, version))),
        fs.contains(default_exe_of(version_dir_of(root, version))),
    ensures
        ({
            let vdir = version_dir_of(root, version);
            let steps = install_steps_of(
                root,
                host,
                version,
                running,
                base_host,
                fs.contains(marker_of(vdir)),
                fs.contains(default_exe_of(vdir)),
            );
            steps.len() == 0 && apply_steps_of(fs, steps) == fs
        }),
{
}

/// After the pass that a run makes on a version directory that misses its
/// marker or its executable: the marker exists, the scratch directory and
/// everything in it are gone, and everything left under the versions root
/// belongs to the installed version.
pub proof fn lemma_install_pass_cleans_up(
    fs: Set<Seq<Seq<char>>>,
    root: Seq<Seq<char>>,
    host: Seq<char>,
    version: Seq<char>,
    running: Seq<Seq<char>>,
    base_host: Seq<char>,
    marker_present: bool,
    executable_present: bool,
)
    requires
        !(marker_present && executable_present),
    ensures
        ({
            let vdir = version_dir_of(root, version);
            let versions = versions_dir_of(root);
            let after = apply_steps_of(
                fs,
                install_steps_of(
                    root,
                    host,
                    version,
                    running,
                    base_host,
                    marker_present,
                    executable_present,
                ),
            );
            &&& after.contains(marker_of(vdir))
            &&& forall|q: Seq<Seq<char>>|
                after.contains(q) ==> !under_or_eq(downloads_dir_of(root), q)
            &&& forall|q: Seq<Seq<char>>|
                after.contains(q) && strictly_under(versions, q) ==> under_or_eq(vdir, q)
                    && q[versions.len() as int] == version
        }),
{
    let vdir = version_dir_of(root, version);
    let versions = versions_dir_of(root);
    let scratch = downloads_dir_of(root);
    let marker = marker_of(vdir);
    let plan = install_plan_of(root, host, version, running, base_host);
    let s3 = plan.drop_last();
    let s2 = s3.drop_last();
    let s1 = s2.drop_last();
    assert(plan.last() == StepView::PruneOthers { dir: versions, keep: vdir });
    assert(s3.last() == StepView::WriteFile { path: marker, contents: settings_of(base_host) });
    assert(s2.last() == StepView::RemoveTree { dir: scratch });
    let after_remove = apply_steps_of(fs, s2);
    let after_write = apply_steps_of(fs, s3);
    let after = apply_steps_of(fs, plan);
    assert(after_remove == apply_steps_of(fs, s1).filter(
        |q: Seq<Seq<char>>| !under_or_eq(scratch, q),
    ));
    assert(after_write == after_remove.insert(marker));
    reveal_strlit("Downloads");
    reveal_strlit("Versions");
    assert(marker[root.len() as int] == "Versions"@);
    assert(scratch[root.len() as int] == "Downloads"@);
    assert("Versions"@[0] != "Downloads"@[0]);
    assert(!under_or_eq(scratch, marker)) by {
        if under_or_eq(scratch, marker) {
            assert(marker.take(scratch.len() as int)[root.len() as int] == scratch[root.len() as int]);
        }
    }
    assert(marker.take(vdir.len() as int) =~= vdir);
    assert(after.contains(marker));
    assert forall|q: Seq<Seq<char>>|
        after.contains(q) && strictly_under(versions, q) implies under_or_eq(vdir, q)
        && q[versions.len() as int] == version by {
        assert(q.take(vdir.len() as int)[versions.len() as int] == vdir[versions.len() as int]);
    }
}

/// When the primary host fails and the fallback host answers `version`, the
/// fallback host is asked exactly once, `version` is adopted with that host,
/// and every download of the following install pass is fetched from it.
pub proof fn lemma_fallback_host_is_authoritative(
    primary: Seq<char>,
    fallback: Seq<char>,
    version: Seq<char>,
    root: Seq<Seq<char>>,
    running: Seq<Seq<char>>,
    base_host: Seq<char>,
)
    ensures
        after_reply_of(primary, fallback, false, None) == query_of(fallback),
        after_reply_of(primary, fallback, true, Some(version)) == (ResolveStepView::Resolved {
            host: fallback,
            version,
        }),
        forall|i: int|
            0 <= i < install_plan_of(root, fallback, version, running, base_host).len()
                && #[trigger] install_plan_of(root, fallback, version, running, base_host)[i] is Download
                ==> is_artifact_of(
                install_plan_of(root, fallback, version, running, base_host)[i]->Download_url,
                fallback,
                version,
            ),
{
    let vdir = version_dir_of(root, version);
    let scratch = downloads_dir_of(root);
    let plan = install_plan_of(root, fallback, version, running, base_host);
    let payload = payload_steps_of(manifest_of(), scratch, vdir, fallback, version);
    lemma_payload_downloads(manifest_of(), scratch, vdir, fallback, version);
    assert forall|i: int| 0 <= i < plan.len() && #[trigger] plan[i] is Download implies is_artifact_of(
        plan[i]->Download_url,
        fallback,
        version,
    ) by {
        if 2 <= i < 2 + payload.len() {
            assert(plan[i] == payload[i - 2]);
        }
    }
}

/// `url` names an artifact of `version` on `host`.
pub open spec fn is_artifact_of(url: Seq<char>, host: Seq<char>, version: Seq<char>) -> bool {
    exists|name: Seq<char>| url == artifact_url_of(host, version, name)
}

proof fn lemma_payload_downloads(
    pkgs: Seq<(Seq<char>, Seq<Seq<char>>)>,
    scratch: Seq<Seq<char>>,
    vdir: Seq<Seq<char>>,
    host: Seq<char>,
    version: Seq<char>,
)
    ensures
        forall|i: int|
            0 <= i < payload_steps_of(pkgs, scratch, vdir, host, version).len()
                && #[trigger] payload_steps_of(pkgs, scratch, vdir, host, version)[i] is Download
                ==> is_artifact_of(
                payload_steps_of(pkgs, scratch, vdir, host, version)[i]->Download_url,
                host,
                version,
            ),
    decreases pkgs.len(),
{
    if pkgs.len() > 0 {
        let rest = payload_steps_of(pkgs.drop_last(), scratch, vdir, host, version);
        let all = payload_steps_of(pkgs, scratch, vdir, host, version);
        lemma_payload_downloads(pkgs.drop_last(), scratch, vdir, host, version);
        assert forall|i: int| 0 <= i < all.len() && #[trigger] all[i] is Download implies is_artifact_of(
            all[i]->Download_url,
            host,
            version,
        ) by {
            if i < rest.len() {
                assert(all[i] == rest[i]);
            } else {
                let name = pkgs.last().0;
                assert(all[i]->Download_url == artifact_url_of(host, version, name));
            }
        }
    }
}

proof fn lemma_no_proceed_after_start(
    ctx: RelaunchView,
    phase: RelaunchPhase,
    events: Seq<RelaunchEventView>,
)
    requires
        phase != RelaunchPhase::Start,
    ensures
        forall|i: int|
            0 <= i < run_of(ctx, phase, events).len() ==> !(#[trigger] run_of(
                ctx,
                phase,
                events,
            )[i] is Proceed),
    decreases events.len(),
{
    if events.len() > 0 {
        let (next, action) = step_of(ctx, phase, events[0]);
        lemma_no_proceed_after_start(ctx, next, events.skip(1));
        let rest = run_of(ctx, next, events.skip(1));
        assert forall|i: int| 0 <= i < run_of(ctx, phase, events).len() implies !(#[trigger] run_of(
            ctx,
            phase,
            events,
        )[i] is Proceed) by {
            if i > 0 {
                assert(run_of(ctx, phase, events)[i] == rest[i - 1]);
            }
        }
    }
}

/// A process whose binary lies outside the version directory never proceeds
/// to install or launch, whatever the events that follow.
pub proof fn lemma_stale_binary_never_proceeds(
    ctx: RelaunchView,
    exe: Seq<Seq<char>>,
    launcher_present: bool,
    later: Seq<RelaunchEventView>,
)
    requires
        !under_or_eq(ctx.version_dir, exe),
    ensures
        ({
            let events = seq![RelaunchEventView::Observed { exe, launcher_present }] + later;
            forall|i: int|
                0 <= i < run_of(ctx, RelaunchPhase::Start, events).len() ==> !(#[trigger] run_of(
                    ctx,
                    RelaunchPhase::Start,
                    events,
                )[i] is Proceed)
        }),
{
    let events = seq![RelaunchEventView::Observed { exe, launcher_present }] + later;
    let (next, action) = step_of(ctx, RelaunchPhase::Start, events[0]);
    assert(events.skip(1) =~= later);
    lemma_no_proceed_after_start(ctx, next, later);
    let rest = run_of(ctx, next, later);
    assert forall|i: int| 0 <= i < run_of(ctx, RelaunchPhase::Start, events).len() implies !(
    #[trigger] run_of(ctx, RelaunchPhase::Start, events)[i] is Proceed) by {
        if i > 0 {
            assert(run_of(ctx, RelaunchPhase::Start, events)[i] == rest[i - 1]);
        }
    }
}

proof fn lemma_no_colon(k: Seq<char>)
    requires
        forall|i: int| 0 <= i < k.len() ==> k[i] != ':',
    ensures
        first_colon_of(k) == -1,
    decreases k.len(),
{
    if k.len() > 0 {
        lemma_no_colon(k.drop_last());
    }
}

/// A segment `key:value` whose key holds no colon splits into that key and
/// that value, whatever colons the value holds.
pub proof fn lemma_value_keeps_colons(k: Seq<char>, v: Seq<char>)
    requires
        forall|i: int| 0 <= i < k.len() ==> k[i] != ':',
    ensures
        key_of(k + seq![':'] + v) == k,
        value_of(k + seq![':'] + v) == v,
{
    let seg = k + seq![':'] + v;
    assert(seg.take(k.len() as int) =~= k);
    lemma_no_colon(k);
    assert(seg.take(k.len() as int + 1).drop_last() =~= k);
    lemma_first_colon_stays(seg, k.len() as int + 1, seg.len() as int);
    assert(seg.take(seg.len() as int) =~= seg);
    assert(seg.skip(k.len() as int + 1) =~= v);
}

/// A segment whose key is not one of the recognized keys changes nothing,
/// wherever it stands among the segments.
pub proof fn lemma_unknown_segment_ignored(
    before: Seq<Seq<char>>,
    seg: Seq<char>,
    after: Seq<Seq<char>>,
)
    requires
        key_of(seg) != "launchmode"@,
        key_of(seg) != "gameinfo"@,
        key_of(seg) != "placelauncherurl"@,
        key_of(seg) != "clientyear"@,
    ensures
        directives_of_segments(before.push(seg) + after) == directives_of_segments(before + after),
    decreases after.len(),
{
    if after.len() == 0 {
        assert(before.push(seg) + after =~= before.push(seg));
        assert(before + after =~= before);
        assert(before.push(seg).drop_last() =~= before);
    } else {
        lemma_unknown_segment_ignored(before, seg, after.drop_last());
        assert((before.push(seg) + after).drop_last() =~= before.push(seg) + after.drop_last());
        assert((before + after).drop_last() =~= before + after.drop_last());
    }
}

/// Whether a step creates the path `p`.
pub open spec fn step_creates(s: StepView, p: Seq<Seq<char>>) -> bool {
    match s {
        StepView::EnsureDir { dir } => dir == p,
        StepView::Download { url, dest } => dest == p,
        StepView::Extract { archive, dest } => dest == p,
        StepView::WriteFile { path, contents } => path == p,
        _ => false,
    }
}

proof fn lemma_step_keeps_absent(fs: Set<Seq<Seq<char>>>, s: StepView, p: Seq<Seq<char>>)
    requires
        !fs.contains(p),
        !step_creates(s, p),
    ensures
        !apply_step_of(fs, s).contains(p),
{
}

proof fn lemma_manifest_avoids_marker()
    ensures
        forall|j: int|
            0 <= j < manifest_of().len() ==> #[trigger] manifest_of()[j].1 != seq![
                "AppSettings.xml"@,
            ],
{
    reveal_strlit("AppSettings.xml");
    reveal_strlit("shaders");
    reveal_strlit("Client2018");
    reveal_strlit("Client2020");
    reveal_strlit("Client2014");
    let m = manifest_of();
    let bad = seq!["AppSettings.xml"@];
    assert(m[0].1.len() == 0 && m[1].1.len() == 0 && m[2].1.len() == 0 && m[3].1.len() == 0);
    assert(m[4].1.len() == 0 && m[5].1.len() == 2 && m[6].1.len() == 2 && m[7].1.len() == 2);
    assert(m[8].1.len() == 2 && m[9].1.len() == 2 && m[10].1.len() == 2 && m[11].1.len() == 2);
    assert(m[12].1.len() == 2 && m[13].1.len() == 3 && m[14].1.len() == 3);
    assert(m[15].1.len() == 1 && m[16].1.len() == 1 && m[17].1.len() == 1 && m[18].1.len() == 1);
    assert(m[15].1[0].len() != bad[0].len());
    assert(m[16].1[0].len() != bad[0].len());
    assert(m[17].1[0].len() != bad[0].len());
    assert(m[18].1[0].len() != bad[0].len());
    assert forall|j: int| 0 <= j < m.len() implies #[trigger] m[j].1 != bad by {
        if m[j].1.len() == 1 {
            assert(m[j].1[0] != bad[0]);
        }
    }
}

proof fn lemma_payload_avoids(
    pkgs: Seq<(Seq<char>, Seq<Seq<char>>)>,
    scratch: Seq<Seq<char>>,
    vdir: Seq<Seq<char>>,
    host: Seq<char>,
    version: Seq<char>,
    target: Seq<Seq<char>>,
)
    requires
        target.len() != scratch.len() + 1,
        forall|j: int| 0 <= j < pkgs.len() ==> vdir + #[trigger] pkgs[j].1 != target,
    ensures
        forall|i: int|
            0 <= i < payload_steps_of(pkgs, scratch, vdir, host, version).len() ==> !step_creates(
                #[trigger] payload_steps_of(pkgs, scratch, vdir, host, version)[i],
                target,
            ),
    decreases pkgs.len(),
{
    if pkgs.len() > 0 {
        let rest = payload_steps_of(pkgs.drop_last(), scratch, vdir, host, version);
        let all = payload_steps_of(pkgs, scratch, vdir, host, version);
        assert forall|j: int| 0 <= j < pkgs.drop_last().len() implies vdir
            + #[trigger] pkgs.drop_last()[j].1 != target by {
            assert(pkgs.drop_last()[j] == pkgs[j]);
        }
        lemma_payload_avoids(pkgs.drop_last(), scratch, vdir, host, version, target);
        assert(vdir + pkgs[pkgs.len() - 1].1 != target);
        assert forall|i: int| 0 <= i < all.len() implies !step_creates(#[trigger] all[i], target) by {
            if i < rest.len() {
                assert(all[i] == rest[i]);
            }
        }
    }
}

/// Until the marker is written, an install pass leaves no marker behind: a
/// pass cut short after any of its earlier steps leaves the version
/// directory invalid, and the next run redoes the whole pass.
pub proof fn lemma_marker_absent_until_written(
    fs: Set<Seq<Seq<char>>>,
    root: Seq<Seq<char>>,
    host: Seq<char>,
    version: Seq<char>,
    running: Seq<Seq<char>>,
    base_host: Seq<char>,
    k: int,
)
    requires
        running != marker_of(version_dir_of(root, version)),
        1 <= k <= install_plan_of(root, host, version, running, base_host).len() - 2,
    ensures
        !apply_steps_of(fs, install_plan_of(root, host, version, running, base_host).take(k)).contains(
            marker_of(version_dir_of(root, version)),
        ),
    decreases k,
{
    let vdir = version_dir_of(root, version);
    let scratch = downloads_dir_of(root);
    let marker = marker_of(vdir);
    let plan = install_plan_of(root, host, version, running, base_host);
    let payload = payload_steps_of(manifest_of(), scratch, vdir, host, version);
    assert(plan.take(k).drop_last() =~= plan.take(k - 1));
    if k == 1 {
        assert(plan.take(0) =~= Seq::<StepView>::empty());
        assert(marker.take(vdir.len() as int) =~= vdir);
    } else {
        lemma_marker_absent_until_written(fs, root, host, version, running, base_host, k - 1);
        lemma_manifest_avoids_marker();
        assert forall|j: int| 0 <= j < manifest_of().len() implies vdir + #[trigger] manifest_of()[j].1
            != marker by {
            if vdir + manifest_of()[j].1 == marker {
                assert(manifest_of()[j].1 =~= (vdir + manifest_of()[j].1).skip(vdir.len() as int));
                assert(marker.skip(vdir.len() as int) =~= seq!["AppSettings.xml"@]);
            }
        }
        lemma_payload_avoids(manifest_of(), scratch, vdir, host, version, marker);
        if k - 1 >= 2 && k - 1 < 2 + payload.len() {
            assert(plan[k - 1] == payload[k - 1 - 2]);
        }
        lemma_step_keeps_absent(apply_steps_of(fs, plan.take(k - 1)), plan[k - 1], marker);
    }
}

} // verus!
