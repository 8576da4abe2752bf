//! An abstract model of a capture plan's residue: what a plan's execution
//! leaves behind on the machine — the selection temporary file on disk, and
//! a running viewer process — and proofs that the freeze illusion cleans up
//! after itself while the non-freeze path deliberately does not.

use vstd::prelude::*;
use crate::plan::{
    run_of, spec_capture_plan, spec_cleanup, spec_freeze_area_plan, spec_missing_viewer_step,
    spec_viewer_step, temp_path, ArgView, PlanStepView, ScreenshotKind,
};
use crate::resolve::DesktopKind;

verus! {

/// The observable residue of executing capture steps: whether the selection
/// temporary file is on disk, and whether a viewer process spawned by the
/// plan is still running.  The model takes the best-effort cleanup steps to
/// succeed; what it says of a plan holds of any run in which they do.
pub struct FreezeState {
    pub temp_file: bool,
    pub viewer: bool,
}

/// How one step changes the residue: a blocking run whose argument list
/// names the temporary path writes that file; spawning a viewer leaves one
/// running; the cleanup steps delete the file and terminate the viewer;
/// reading the selection geometry touches neither.
pub open spec fn step_effect(s: FreezeState, step: PlanStepView) -> FreezeState {
    match step {
        PlanStepView::Run(inv) => if inv.args.contains(ArgView::Lit(temp_path())) {
            FreezeState { temp_file: true, viewer: s.viewer }
        } else {
            s
        },
        PlanStepView::SpawnViewer(_) => FreezeState { temp_file: s.temp_file, viewer: true },
        PlanStepView::ReadGeometry(_) => s,
        PlanStepView::RemoveTempFile => FreezeState { temp_file: false, viewer: s.viewer },
        PlanStepView::KillViewer => FreezeState { temp_file: s.temp_file, viewer: false },
    }
}

/// The residue after executing all of `steps`, in order, from `s`.
pub open spec fn plan_effect(s: FreezeState, steps: Seq<PlanStepView>) -> FreezeState
    decreases steps.len(),
{
    if steps.len() == 0 {
        s
    } else {
        plan_effect(step_effect(s, steps[0]), steps.drop_first())
    }
}

/// Executing a concatenation is executing the two parts in order.
pub proof fn lemma_plan_effect_concat(s: FreezeState, a: Seq<PlanStepView>, b: Seq<PlanStepView>)
    ensures
        plan_effect(s, a + b) == plan_effect(plan_effect(s, a), b),
    decreases a.len(),
{
    if a.len() == 0 {
        assert(a + b =~= b);
    } else {
        assert((a + b)[0] == a[0]);
        assert((a + b).drop_first() =~= a.drop_first() + b);
        lemma_plan_effect_concat(step_effect(s, a[0]), a.drop_first(), b);
    }
}

/// The freeze cleanup tail leaves neither the temporary file nor a running
/// viewer, whatever state it starts from.
proof fn lemma_cleanup_effect(s: FreezeState)
    ensures
        plan_effect(s, spec_cleanup(true)) == (FreezeState { temp_file: false, viewer: false }),
{
    reveal_with_fuel(plan_effect, 4);
    let c = spec_cleanup(true);
    assert(c[0] == PlanStepView::RemoveTempFile);
    assert(c.drop_first() =~= seq![PlanStepView::KillViewer]);
    let s1 = step_effect(s, PlanStepView::RemoveTempFile);
    assert(plan_effect(s, c) == plan_effect(s1, seq![PlanStepView::KillViewer]));
    assert(seq![PlanStepView::KillViewer].drop_first() =~= Seq::<PlanStepView>::empty());
    assert(plan_effect(s1, seq![PlanStepView::KillViewer]) == step_effect(
        s1,
        PlanStepView::KillViewer,
    ));
}

/// Any freeze-requested area plan of the staging shape ends clean: the
/// temporary file is gone and no viewer is left running, whatever state
/// execution started from and whether the viewer was available.
proof fn lemma_freeze_shape_cleanup(
    stage: PlanStepView,
    capture: PlanStepView,
    feh: bool,
    s0: FreezeState,
)
    ensures
        plan_effect(s0, spec_freeze_area_plan(stage, capture, true, feh)) == (FreezeState {
            temp_file: false,
            viewer: false,
        }),
{
    let pre_cap = (if feh {
        seq![stage, spec_viewer_step()]
    } else {
        seq![spec_missing_viewer_step()]
    }) + seq![capture];
    assert(spec_freeze_area_plan(stage, capture, true, feh) == pre_cap + spec_cleanup(true));
    lemma_plan_effect_concat(s0, pre_cap, spec_cleanup(true));
    lemma_cleanup_effect(plan_effect(s0, pre_cap));
}

/// After a freeze-requested area capture on the GNOME or Generic strategy,
/// the temporary file is off the disk and no viewer process of the plan is
/// left running — whatever state execution started from, and whether or
/// not the viewer program was available (the cleanup steps are taken to
/// succeed, as the model does throughout).
pub proof fn lemma_freeze_area_cleanup(
    desktop: DesktopKind,
    dest: Seq<char>,
    feh: bool,
    s0: FreezeState,
)
    requires
        desktop == DesktopKind::GNOME || desktop == DesktopKind::Generic,
    ensures
        plan_effect(s0, spec_capture_plan(desktop, ScreenshotKind::Area, dest, true, feh))
            == (FreezeState { temp_file: false, viewer: false }),
{
    if desktop == DesktopKind::GNOME {
        lemma_freeze_shape_cleanup(
            run_of("gnome-screenshot"@, seq![ArgView::Lit("-f"@), ArgView::Lit(temp_path())]),
            run_of(
                "gnome-screenshot"@,
                seq![ArgView::Lit("-a"@), ArgView::Lit("-f"@), ArgView::Lit(dest)],
            ),
            feh,
            s0,
        );
    } else {
        lemma_freeze_shape_cleanup(
            run_of("scrot"@, seq![ArgView::Lit(temp_path())]),
            run_of("scrot"@, seq![ArgView::Lit("--select"@), ArgView::Lit(dest)]),
            feh,
            s0,
        );
    }
}

/// Freeze-illusion idempotence: running the freeze-requested area plan
/// twice in sequence — not concurrently — leaves no temporary file and no
/// running viewer, after the first run and equally after the second.
pub proof fn lemma_freeze_area_idempotent(
    desktop: DesktopKind,
    dest: Seq<char>,
    feh: bool,
    s0: FreezeState,
)
    requires
        desktop == DesktopKind::GNOME || desktop == DesktopKind::Generic,
    ensures
        ({
            let p = spec_capture_plan(desktop, ScreenshotKind::Area, dest, true, feh);
            plan_effect(s0, p) == (FreezeState { temp_file: false, viewer: false })
                && plan_effect(plan_effect(s0, p), p) == (FreezeState {
                temp_file: false,
                viewer: false,
            })
        }),
{
    let p = spec_capture_plan(desktop, ScreenshotKind::Area, dest, true, feh);
    lemma_freeze_area_cleanup(desktop, dest, feh, s0);
    lemma_freeze_area_cleanup(desktop, dest, feh, plan_effect(s0, p));
}

/// The non-freeze leak: an area capture without freeze semantics on the
/// GNOME or Generic strategy, with the viewer available, leaves the staged
/// temporary file on disk and the viewer process running when it returns —
/// the deliberate leak of the non-freeze path, reproduced rather than
/// silently fixed.
pub proof fn lemma_nonfreeze_area_leak(desktop: DesktopKind, dest: Seq<char>, s0: FreezeState)
    requires
        desktop == DesktopKind::GNOME || desktop == DesktopKind::Generic,
    ensures
        ({
            let s = plan_effect(
                s0,
                spec_capture_plan(desktop, ScreenshotKind::Area, dest, false, true),
            );
            s.temp_file && s.viewer
        }),
{
    reveal_with_fuel(plan_effect, 5);
    let plan = spec_capture_plan(desktop, ScreenshotKind::Area, dest, false, true);
    let stage = if desktop == DesktopKind::GNOME {
        run_of("gnome-screenshot"@, seq![ArgView::Lit("-f"@), ArgView::Lit(temp_path())])
    } else {
        run_of("scrot"@, seq![ArgView::Lit(temp_path())])
    };
    let capture = if desktop == DesktopKind::GNOME {
        run_of(
            "gnome-screenshot"@,
            seq![ArgView::Lit("-a"@), ArgView::Lit("-f"@), ArgView::Lit(dest)],
        )
    } else {
        run_of("scrot"@, seq![ArgView::Lit("--select"@), ArgView::Lit(dest)])
    };
    assert(plan =~= seq![stage, spec_viewer_step(), capture]);
    if desktop == DesktopKind::GNOME {
        let args = seq![ArgView::Lit("-f"@), ArgView::Lit(temp_path())];
        assert(args[1] == ArgView::Lit(temp_path()));
        assert(args.contains(ArgView::Lit(temp_path())));
    } else {
        let args = seq![ArgView::Lit(temp_path())];
        assert(args[0] == ArgView::Lit(temp_path()));
        assert(args.contains(ArgView::Lit(temp_path())));
    }
    let s1 = step_effect(s0, stage);
    assert(s1.temp_file);
    let s2 = step_effect(s1, spec_viewer_step());
    let s3 = step_effect(s2, capture);
    assert(s3.temp_file && s3.viewer);
    assert(plan.drop_first() =~= seq![spec_viewer_step(), capture]);
    assert(plan.drop_first().drop_first() =~= seq![capture]);
    assert(seq![capture].drop_first() =~= Seq::<PlanStepView>::empty());
    assert(plan_effect(s0, plan) == s3);
}

} // verus!
