//! Capture planning: the exact sequence of external command invocations that
//! a capture strategy performs, built as data for the caller to execute.
//!
//! Each strategy (one per desktop profile) turns a capture mode and a
//! destination path into a plan: a list of [`PlanStep`]s naming the external
//! programs and their argument lists, in order.  The specification functions
//! here pin each plan down literally, argument by argument.

use vstd::prelude::*;
use crate::resolve::DesktopKind;

verus! {

/// The requested capture mode.
#[derive(Clone, Copy, Debug, PartialEq, Eq, Structural)]
pub enum ScreenshotKind {
    Area,
    Window,
    Full,
}

/// One argument of a planned invocation: either a string fixed at planning
/// time, or the selection geometry that the region-selector tool emits on
/// its standard output at run time.
#[derive(Debug, PartialEq, Eq)]
pub enum Arg {
    Lit(String),
    Geometry,
}

/// An external program together with its argument list.
#[derive(Debug, PartialEq, Eq)]
pub struct Invocation {
    pub program: String,
    pub args: Vec<Arg>,
}

/// One step of a capture plan.
#[derive(Debug, PartialEq, Eq)]
pub enum PlanStep {
    /// Launch the program and wait for it to finish; failure to spawn is
    /// fatal to the capture operation, the exit status is not inspected.
    Run(Invocation),
    /// Launch the image viewer without waiting, keeping its process handle
    /// for a later [`PlanStep::KillViewer`].
    SpawnViewer(Invocation),
    /// Launch the program, wait, and keep its standard output as the
    /// selection geometry for later [`Arg::Geometry`] arguments.
    ReadGeometry(Invocation),
    /// Delete the selection temporary file; best-effort, a failure is
    /// logged and not propagated.
    RemoveTempFile,
    /// Terminate the viewer process kept by [`PlanStep::SpawnViewer`];
    /// best-effort, a failure is logged and not propagated.
    KillViewer,
}

/// Mathematical image of an [`Arg`].
#[verifier::ext_equal]
pub enum ArgView {
    Lit(Seq<char>),
    Geometry,
}

/// Mathematical image of an [`Invocation`].
#[verifier::ext_equal]
pub struct InvocationView {
    pub program: Seq<char>,
    pub args: Seq<ArgView>,
}

/// Mathematical image of a [`PlanStep`].
#[verifier::ext_equal]
pub enum PlanStepView {
    Run(InvocationView),
    SpawnViewer(InvocationView),
    ReadGeometry(InvocationView),
    RemoveTempFile,
    KillViewer,
}

impl View for Arg {
    type V = ArgView;

    open spec fn view(&self) -> ArgView {
        match self {
            Arg::Lit(s) => ArgView::Lit(s.view()),
            Arg::Geometry => ArgView::Geometry,
        }
    }
}

impl View for Invocation {
    type V = InvocationView;

    open spec fn view(&self) -> InvocationView {
        InvocationView {
            program: self.program.view(),
            args: self.args.view().map_values(|a: Arg| a.view()),
        }
    }
}

impl View for PlanStep {
    type V = PlanStepView;

    open spec fn view(&self) -> PlanStepView {
        match self {
            PlanStep::Run(i) => PlanStepView::Run(i.view()),
            PlanStep::SpawnViewer(i) => PlanStepView::SpawnViewer(i.view()),
            PlanStep::ReadGeometry(i) => PlanStepView::ReadGeometry(i.view()),
            PlanStep::RemoveTempFile => PlanStepView::RemoveTempFile,
            PlanStep::KillViewer => PlanStepView::KillViewer,
        }
    }
}

/// The mathematical image of a plan: its steps' views, in order.
pub open spec fn plan_view(p: Seq<PlanStep>) -> Seq<PlanStepView> {
    p.map_values(|s: PlanStep| s.view())
}

/// The well-known path where the freeze illusion stages its backdrop image.
pub open spec fn temp_path() -> Seq<char> {
    "/tmp/selection-tmp.png"@
}

/// The selection temporary file's path, as a value the caller can hand to
/// the file system.  The path is fixed rather than per-call unique, so
/// concurrent freeze-illusion captures race on it; callers must serialize
/// such captures themselves.
pub fn selection_temporary_file() -> (s: String)
    ensures
        s@ == temp_path(),
{
    "/tmp/selection-tmp.png".to_owned()
}

/// A blocking invocation step of `program` with arguments `args`.
pub open spec fn run_of(program: Seq<char>, args: Seq<ArgView>) -> PlanStepView {
    PlanStepView::Run(InvocationView { program, args })
}

// Private helpers that assemble an invocation and relate it to its view.
fn arg_lit(s: &str) -> (a: Arg)
    ensures
        a@ == ArgView::Lit(s@),
{
    Arg::Lit(s.to_owned())
}

fn invocation1(program: &str, a0: Arg) -> (i: Invocation)
    ensures
        i@ == (InvocationView { program: program@, args: seq![a0@] }),
{
    let ghost v0 = a0@;
    let mut args: Vec<Arg> = Vec::new();
    args.push(a0);
    let i = Invocation { program: program.to_owned(), args };
    proof {
        assert(i@.args =~= seq![v0]);
    }
    i
}

fn invocation2(program: &str, a0: Arg, a1: Arg) -> (i: Invocation)
    ensures
        i@ == (InvocationView { program: program@, args: seq![a0@, a1@] }),
{
    let ghost v0 = a0@;
    let ghost v1 = a1@;
    let mut args: Vec<Arg> = Vec::new();
    args.push(a0);
    args.push(a1);
    let i = Invocation { program: program.to_owned(), args };
    proof {
        assert(i@.args =~= seq![v0, v1]);
    }
    i
}

fn invocation3(program: &str, a0: Arg, a1: Arg, a2: Arg) -> (i: Invocation)
    ensures
        i@ == (InvocationView { program: program@, args: seq![a0@, a1@, a2@] }),
{
    let ghost v0 = a0@;
    let ghost v1 = a1@;
    let ghost v2 = a2@;
    let mut args: Vec<Arg> = Vec::new();
    args.push(a0);
    args.push(a1);
    args.push(a2);
    let i = Invocation { program: program.to_owned(), args };
    proof {
        assert(i@.args =~= seq![v0, v1, v2]);
    }
    i
}

fn invocation5(program: &str, a0: Arg, a1: Arg, a2: Arg, a3: Arg, a4: Arg) -> (i: Invocation)
    ensures
        i@ == (InvocationView { program: program@, args: seq![a0@, a1@, a2@, a3@, a4@] }),
{
    let ghost v0 = a0@;
    let ghost v1 = a1@;
    let ghost v2 = a2@;
    let ghost v3 = a3@;
    let ghost v4 = a4@;
    let mut args: Vec<Arg> = Vec::new();
    args.push(a0);
    args.push(a1);
    args.push(a2);
    args.push(a3);
    args.push(a4);
    let i = Invocation { program: program.to_owned(), args };
    proof {
        assert(i@.args =~= seq![v0, v1, v2, v3, v4]);
    }
    i
}

/// The KDE strategy's plan: one spectacle run with the mode's flag bundle
/// (region, active-window or fullscreen; each with the no-notification and
/// background flags) and the destination.
pub open spec fn spec_kde_plan(mode: ScreenshotKind, dest: Seq<char>) -> Seq<PlanStepView> {
    match mode {
        ScreenshotKind::Area => seq![
            run_of("spectacle"@, seq![ArgView::Lit("-rbno"@), ArgView::Lit(dest)]),
        ],
        ScreenshotKind::Window => seq![
            run_of("spectacle"@, seq![ArgView::Lit("-abno"@), ArgView::Lit(dest)]),
        ],
        ScreenshotKind::Full => seq![
            run_of("spectacle"@, seq![ArgView::Lit("-fbno"@), ArgView::Lit(dest)]),
        ],
    }
}

/// Builds the KDE strategy's plan for `option` targeting `file`.
pub fn kde(option: ScreenshotKind, file: String) -> (p: Vec<PlanStep>)
    ensures
        plan_view(p@) == spec_kde_plan(option, file@),
{
    let ghost dest = file@;
    let mut steps: Vec<PlanStep> = Vec::new();
    match option {
        ScreenshotKind::Area => {
            steps.push(PlanStep::Run(invocation2("spectacle", arg_lit("-rbno"), Arg::Lit(file))));
        },
        ScreenshotKind::Window => {
            steps.push(PlanStep::Run(invocation2("spectacle", arg_lit("-abno"), Arg::Lit(file))));
        },
        ScreenshotKind::Full => {
            steps.push(PlanStep::Run(invocation2("spectacle", arg_lit("-fbno"), Arg::Lit(file))));
        },
    }
    proof {
        assert(plan_view(steps@) =~~= spec_kde_plan(option, dest));
    }
    steps
}

/// The macOS strategy's plan: one run of the native capture tool with the
/// mode's selection flag (interactive selection, window capture or
/// fullscreen) and the destination.
pub open spec fn spec_mac_plan(mode: ScreenshotKind, dest: Seq<char>) -> Seq<PlanStepView> {
    match mode {
        ScreenshotKind::Area => seq![
            run_of("screencapture"@, seq![ArgView::Lit("-s"@), ArgView::Lit(dest)]),
        ],
        ScreenshotKind::Window => seq![
            run_of("screencapture"@, seq![ArgView::Lit("-w"@), ArgView::Lit(dest)]),
        ],
        ScreenshotKind::Full => seq![
            run_of("screencapture"@, seq![ArgView::Lit("-S"@), ArgView::Lit(dest)]),
        ],
    }
}

/// Builds the macOS strategy's plan for `option` targeting `file`.
pub fn mac(option: ScreenshotKind, file: String) -> (p: Vec<PlanStep>)
    ensures
        plan_view(p@) == spec_mac_plan(option, file@),
{
    let ghost dest = file@;
    let mut steps: Vec<PlanStep> = Vec::new();
    match option {
        ScreenshotKind::Area => {
            steps.push(PlanStep::Run(invocation2("screencapture", arg_lit("-s"), Arg::Lit(file))));
        },
        ScreenshotKind::Window => {
            steps.push(PlanStep::Run(invocation2("screencapture", arg_lit("-w"), Arg::Lit(file))));
        },
        ScreenshotKind::Full => {
            steps.push(PlanStep::Run(invocation2("screencapture", arg_lit("-S"), Arg::Lit(file))));
        },
    }
    proof {
        assert(plan_view(steps@) =~~= spec_mac_plan(option, dest));
    }
    steps
}

/// The Sway strategy's selection sequence: run the region selector and keep
/// its emitted geometry, then run the capture tool on that geometry
/// targeting the destination.
pub open spec fn spec_sway_select(dest: Seq<char>) -> Seq<PlanStepView> {
    seq![
        PlanStepView::ReadGeometry(InvocationView { program: "slurp"@, args: Seq::<ArgView>::empty() }),
        run_of("grim"@, seq![ArgView::Lit("-g"@), ArgView::Geometry, ArgView::Lit(dest)]),
    ]
}

/// The Sway strategy's plan.  Area and Window are deliberately the same
/// selector-then-capture sequence (the tool stack has no direct notion of
/// an active window); Full is one capture run with only the destination.
pub open spec fn spec_sway_plan(mode: ScreenshotKind, dest: Seq<char>) -> Seq<PlanStepView> {
    match mode {
        ScreenshotKind::Area => spec_sway_select(dest),
        ScreenshotKind::Window => spec_sway_select(dest),
        ScreenshotKind::Full => seq![run_of("grim"@, seq![ArgView::Lit(dest)])],
    }
}

/// Builds the Sway strategy's plan for `option` targeting `file`.
pub fn sway(option: ScreenshotKind, file: String) -> (p: Vec<PlanStep>)
    ensures
        plan_view(p@) == spec_sway_plan(option, file@),
{
    let ghost dest = file@;
    let mut steps: Vec<PlanStep> = Vec::new();
    match option {
        ScreenshotKind::Area => {
            steps.push(
                PlanStep::ReadGeometry(Invocation { program: "slurp".to_owned(), args: Vec::new() }),
            );
            steps.push(
                PlanStep::Run(invocation3("grim", arg_lit("-g"), Arg::Geometry, Arg::Lit(file))),
            );
        },
        ScreenshotKind::Window => {
            steps.push(
                PlanStep::ReadGeometry(Invocation { program: "slurp".to_owned(), args: Vec::new() }),
            );
            steps.push(
                PlanStep::Run(invocation3("grim", arg_lit("-g"), Arg::Geometry, Arg::Lit(file))),
            );
        },
        ScreenshotKind::Full => {
            steps.push(PlanStep::Run(invocation1("grim", Arg::Lit(file))));
        },
    }
    proof {
        assert(plan_view(steps@) =~~= spec_sway_plan(option, dest));
    }
    steps
}

/// The viewer step of the freeze illusion: display the staged backdrop
/// image fullscreen, without waiting for the viewer to exit.
pub open spec fn spec_viewer_step() -> PlanStepView {
    PlanStepView::SpawnViewer(
        InvocationView {
            program: "feh"@,
            args: seq![ArgView::Lit(temp_path()), ArgView::Lit("-F"@)],
        },
    )
}

/// The step taken in place of the viewer when the viewer program's probe
/// failed: a shell that merely reports the viewer's absence, spawned so
/// that a process handle exists for the later cleanup either way.
pub open spec fn spec_missing_viewer_step() -> PlanStepView {
    PlanStepView::SpawnViewer(
        InvocationView {
            program: "sh"@,
            args: seq![ArgView::Lit("-c"@), ArgView::Lit("echo Feh does not exist"@)],
        },
    )
}

/// The cleanup tail of an area plan: with freeze semantics requested, the
/// temporary backdrop is deleted and the viewer terminated; without them,
/// nothing — the viewer and the staged file are deliberately left behind.
pub open spec fn spec_cleanup(freeze: bool) -> Seq<PlanStepView> {
    if freeze {
        seq![PlanStepView::RemoveTempFile, PlanStepView::KillViewer]
    } else {
        Seq::<PlanStepView>::empty()
    }
}

/// The shape shared by the GNOME and Generic area strategies: when the
/// viewer is available, stage a fullscreen shot to the temporary path and
/// display it (`stage`, then the viewer step); otherwise spawn the
/// substitute shell.  Then run the real selection capture, and finish with
/// the cleanup tail.
pub open spec fn spec_freeze_area_plan(
    stage: PlanStepView,
    capture: PlanStepView,
    freeze: bool,
    feh: bool,
) -> Seq<PlanStepView> {
    (if feh {
        seq![stage, spec_viewer_step()]
    } else {
        seq![spec_missing_viewer_step()]
    }) + seq![capture] + spec_cleanup(freeze)
}

/// The GNOME strategy's plan: the freeze-illusion shape for Area (staging
/// shot written with the plain file flag), window capture with the shadow
/// decoration flags, and a plain fullscreen capture for Full.
pub open spec fn spec_gnome_plan(
    mode: ScreenshotKind,
    dest: Seq<char>,
    freeze: bool,
    feh: bool,
) -> Seq<PlanStepView> {
    match mode {
        ScreenshotKind::Area => spec_freeze_area_plan(
            run_of("gnome-screenshot"@, seq![ArgView::Lit("-f"@), ArgView::Lit(temp_path())]),
            run_of(
                "gnome-screenshot"@,
                seq![ArgView::Lit("-a"@), ArgView::Lit("-f"@), ArgView::Lit(dest)],
            ),
            freeze,
            feh,
        ),
        ScreenshotKind::Window => seq![
            run_of(
                "gnome-screenshot"@,
                seq![
                    ArgView::Lit("-w"@),
                    ArgView::Lit("-e"@),
                    ArgView::Lit("shadow"@),
                    ArgView::Lit("-f"@),
                    ArgView::Lit(dest),
                ],
            ),
        ],
        ScreenshotKind::Full => seq![
            run_of("gnome-screenshot"@, seq![ArgView::Lit("-f"@), ArgView::Lit(dest)]),
        ],
    }
}

/// Builds the GNOME strategy's plan for `option` targeting `file`.
/// `feh_available` is the outcome of the caller's probe for the viewer
/// program; it matters only for Area mode, as does `freeze`.
pub fn gnome(option: ScreenshotKind, file: String, freeze: bool, feh_available: bool) -> (p: Vec<
    PlanStep,
>)
    ensures
        plan_view(p@) == spec_gnome_plan(option, file@, freeze, feh_available),
{
    let ghost dest = file@;
    let mut steps: Vec<PlanStep> = Vec::new();
    match option {
        ScreenshotKind::Area => {
            if feh_available {
                steps.push(
                    PlanStep::Run(
                        invocation2(
                            "gnome-screenshot",
                            arg_lit("-f"),
                            Arg::Lit(selection_temporary_file()),
                        ),
                    ),
                );
                steps.push(
                    PlanStep::SpawnViewer(
                        invocation2("feh", Arg::Lit(selection_temporary_file()), arg_lit("-F")),
                    ),
                );
            } else {
                steps.push(
                    PlanStep::SpawnViewer(
                        invocation2("sh", arg_lit("-c"), arg_lit("echo Feh does not exist")),
                    ),
                );
            }
            steps.push(
                PlanStep::Run(
                    invocation3("gnome-screenshot", arg_lit("-a"), arg_lit("-f"), Arg::Lit(file)),
                ),
            );
            if freeze {
                steps.push(PlanStep::RemoveTempFile);
                steps.push(PlanStep::KillViewer);
            }
        },
        ScreenshotKind::Window => {
            steps.push(
                PlanStep::Run(
                    invocation5(
                        "gnome-screenshot",
                        arg_lit("-w"),
                        arg_lit("-e"),
                        arg_lit("shadow"),
                        arg_lit("-f"),
                        Arg::Lit(file),
                    ),
                ),
            );
        },
        ScreenshotKind::Full => {
            steps.push(
                PlanStep::Run(invocation2("gnome-screenshot", arg_lit("-f"), Arg::Lit(file))),
            );
        },
    }
    proof {
        assert(plan_view(steps@) =~~= spec_gnome_plan(option, dest, freeze, feh_available));
    }
    steps
}

/// The Generic (X11 fallback) strategy's plan: the freeze-illusion shape
/// for Area (staging shot taken with only the temporary path as argument,
/// the real capture with the select flag), window capture with the border
/// and focused-window flags, and a destination-only run for Full.
pub open spec fn spec_scrot_plan(
    mode: ScreenshotKind,
    dest: Seq<char>,
    freeze: bool,
    feh: bool,
) -> Seq<PlanStepView> {
    match mode {
        ScreenshotKind::Area => spec_freeze_area_plan(
            run_of("scrot"@, seq![ArgView::Lit(temp_path())]),
            run_of("scrot"@, seq![ArgView::Lit("--select"@), ArgView::Lit(dest)]),
            freeze,
            feh,
        ),
        ScreenshotKind::Window => seq![
            run_of(
                "scrot"@,
                seq![ArgView::Lit("--border"@), ArgView::Lit("--focused"@), ArgView::Lit(dest)],
            ),
        ],
        ScreenshotKind::Full => seq![run_of("scrot"@, seq![ArgView::Lit(dest)])],
    }
}

/// Builds the Generic strategy's plan for `option` targeting `file`, with
/// `freeze` and `feh_available` read exactly as in [`gnome`].
pub fn scrot(option: ScreenshotKind, file: String, freeze: bool, feh_available: bool) -> (p: Vec<
    PlanStep,
>)
    ensures
        plan_view(p@) == spec_scrot_plan(option, file@, freeze, feh_available),
{
    let ghost dest = file@;
    let mut steps: Vec<PlanStep> = Vec::new();
    match option {
        ScreenshotKind::Area => {
            if feh_available {
                steps.push(
                    PlanStep::Run(invocation1("scrot", Arg::Lit(selection_temporary_file()))),
                );
                steps.push(
                    PlanStep::SpawnViewer(
                        invocation2("feh", Arg::Lit(selection_temporary_file()), arg_lit("-F")),
                    ),
                );
            } else {
                steps.push(
                    PlanStep::SpawnViewer(
                        invocation2("sh", arg_lit("-c"), arg_lit("echo Feh does not exist")),
                    ),
                );
            }
            steps.push(PlanStep::Run(invocation2("scrot", arg_lit("--select"), Arg::Lit(file))));
            if freeze {
                steps.push(PlanStep::RemoveTempFile);
                steps.push(PlanStep::KillViewer);
            }
        },
        ScreenshotKind::Window => {
            steps.push(
                PlanStep::Run(
                    invocation3("scrot", arg_lit("--border"), arg_lit("--focused"), Arg::Lit(file)),
                ),
            );
        },
        ScreenshotKind::Full => {
            steps.push(PlanStep::Run(invocation1("scrot", Arg::Lit(file))));
        },
    }
    proof {
        assert(plan_view(steps@) =~~= spec_scrot_plan(option, dest, freeze, feh_available));
    }
    steps
}

/// The plan of the strategy that `desktop` names, for `mode` targeting
/// `dest`.  `freeze` and `feh` are read only by the GNOME and Generic
/// strategies, and only in Area mode.
pub open spec fn spec_capture_plan(
    desktop: DesktopKind,
    mode: ScreenshotKind,
    dest: Seq<char>,
    freeze: bool,
    feh: bool,
) -> Seq<PlanStepView> {
    match desktop {
        DesktopKind::GNOME => spec_gnome_plan(mode, dest, freeze, feh),
        DesktopKind::KDE => spec_kde_plan(mode, dest),
        DesktopKind::Sway => spec_sway_plan(mode, dest),
        DesktopKind::Generic => spec_scrot_plan(mode, dest, freeze, feh),
        DesktopKind::Macos => spec_mac_plan(mode, dest),
    }
}

/// Dispatches to the strategy that `desktop` names and builds its plan for
/// `mode` targeting `file`.
pub fn capture_plan(
    desktop: DesktopKind,
    mode: ScreenshotKind,
    file: String,
    freeze: bool,
    feh_available: bool,
) -> (p: Vec<PlanStep>)
    ensures
        plan_view(p@) == spec_capture_plan(desktop, mode, file@, freeze, feh_available),
{
    match desktop {
        DesktopKind::GNOME => gnome(mode, file, freeze, feh_available),
        DesktopKind::KDE => kde(mode, file),
        DesktopKind::Sway => sway(mode, file),
        DesktopKind::Generic => scrot(mode, file, freeze, feh_available),
        DesktopKind::Macos => mac(mode, file),
    }
}

/// Whether the strategy for `desktop` will consult the viewer program's
/// availability in `mode` — exactly the GNOME and Generic strategies in
/// Area mode.  A caller may skip the viewer probe whenever this is false.
pub open spec fn spec_needs_viewer_probe(desktop: DesktopKind, mode: ScreenshotKind) -> bool {
    (desktop == DesktopKind::GNOME || desktop == DesktopKind::Generic) && mode
        == ScreenshotKind::Area
}

/// Says whether the plan for `desktop` and `mode` depends on the viewer
/// probe's outcome.
pub fn needs_viewer_probe(desktop: DesktopKind, mode: ScreenshotKind) -> (r: bool)
    ensures
        r == spec_needs_viewer_probe(desktop, mode),
{
    (desktop == DesktopKind::GNOME || desktop == DesktopKind::Generic) && mode
        == ScreenshotKind::Area
}

} // verus!
