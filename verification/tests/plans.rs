//! Argument-sequence checks: for every desktop profile and capture mode,
//! the plan names the documented external program and arguments.

use screenshot_rs::plan::{capture_plan, Arg, Invocation, PlanStep, ScreenshotKind};
use screenshot_rs::resolve::DesktopKind;

const TEMP: &str = "/tmp/selection-tmp.png";

fn lit(s: &str) -> Arg {
    Arg::Lit(s.to_string())
}

fn run(program: &str, args: Vec<Arg>) -> PlanStep {
    PlanStep::Run(Invocation { program: program.to_string(), args })
}

fn viewer(program: &str, args: Vec<Arg>) -> PlanStep {
    PlanStep::SpawnViewer(Invocation { program: program.to_string(), args })
}

fn geometry(program: &str) -> PlanStep {
    PlanStep::ReadGeometry(Invocation { program: program.to_string(), args: vec![] })
}

#[test]
fn kde_area_args() {
    let p = capture_plan(DesktopKind::KDE, ScreenshotKind::Area, "/tmp/a.png".to_string(), false, false);
    assert_eq!(p, vec![run("spectacle", vec![lit("-rbno"), lit("/tmp/a.png")])]);
}

#[test]
fn kde_window_args() {
    let p = capture_plan(DesktopKind::KDE, ScreenshotKind::Window, "/tmp/w.png".to_string(), false, false);
    assert_eq!(p, vec![run("spectacle", vec![lit("-abno"), lit("/tmp/w.png")])]);
}

#[test]
fn kde_full_args() {
    let p = capture_plan(DesktopKind::KDE, ScreenshotKind::Full, "/tmp/f.png".to_string(), false, false);
    assert_eq!(p, vec![run("spectacle", vec![lit("-fbno"), lit("/tmp/f.png")])]);
}

#[test]
fn mac_area_args() {
    let p = capture_plan(DesktopKind::Macos, ScreenshotKind::Area, "/tmp/a.png".to_string(), false, false);
    assert_eq!(p, vec![run("screencapture", vec![lit("-s"), lit("/tmp/a.png")])]);
}

#[test]
fn mac_window_args() {
    let p = capture_plan(DesktopKind::Macos, ScreenshotKind::Window, "/tmp/w.png".to_string(), false, false);
    assert_eq!(p, vec![run("screencapture", vec![lit("-w"), lit("/tmp/w.png")])]);
}

#[test]
fn mac_full_args() {
    let p = capture_plan(DesktopKind::Macos, ScreenshotKind::Full, "/tmp/f.png".to_string(), false, false);
    assert_eq!(p, vec![run("screencapture", vec![lit("-S"), lit("/tmp/f.png")])]);
}

#[test]
fn sway_area_args() {
    let p = capture_plan(DesktopKind::Sway, ScreenshotKind::Area, "/tmp/a.png".to_string(), false, false);
    assert_eq!(
        p,
        vec![
            geometry("slurp"),
            run("grim", vec![lit("-g"), Arg::Geometry, lit("/tmp/a.png")]),
        ]
    );
}

#[test]
fn sway_window_same_as_area() {
    let dest = "/tmp/w.png".to_string();
    let w = capture_plan(DesktopKind::Sway, ScreenshotKind::Window, dest.clone(), false, false);
    let a = capture_plan(DesktopKind::Sway, ScreenshotKind::Area, dest, false, false);
    assert_eq!(w, a);
}

#[test]
fn sway_full_args() {
    let p = capture_plan(DesktopKind::Sway, ScreenshotKind::Full, "/tmp/f.png".to_string(), false, false);
    assert_eq!(p, vec![run("grim", vec![lit("/tmp/f.png")])]);
}

#[test]
fn gnome_area_freeze_with_viewer() {
    let p = capture_plan(DesktopKind::GNOME, ScreenshotKind::Area, "/tmp/a.png".to_string(), true, true);
    assert_eq!(
        p,
        vec![
            run("gnome-screenshot", vec![lit("-f"), lit(TEMP)]),
            viewer("feh", vec![lit(TEMP), lit("-F")]),
            run("gnome-screenshot", vec![lit("-a"), lit("-f"), lit("/tmp/a.png")]),
            PlanStep::RemoveTempFile,
            PlanStep::KillViewer,
        ]
    );
}

#[test]
fn gnome_area_no_viewer_spawns_substitute() {
    let p = capture_plan(DesktopKind::GNOME, ScreenshotKind::Area, "/tmp/a.png".to_string(), false, false);
    assert_eq!(
        p,
        vec![
            viewer("sh", vec![lit("-c"), lit("echo Feh does not exist")]),
            run("gnome-screenshot", vec![lit("-a"), lit("-f"), lit("/tmp/a.png")]),
        ]
    );
}

#[test]
fn gnome_window_args() {
    let p = capture_plan(DesktopKind::GNOME, ScreenshotKind::Window, "/tmp/w.png".to_string(), false, false);
    assert_eq!(
        p,
        vec![run(
            "gnome-screenshot",
            vec![lit("-w"), lit("-e"), lit("shadow"), lit("-f"), lit("/tmp/w.png")],
        )]
    );
}

#[test]
fn gnome_full_args() {
    let p = capture_plan(DesktopKind::GNOME, ScreenshotKind::Full, "/tmp/f.png".to_string(), false, false);
    assert_eq!(p, vec![run("gnome-screenshot", vec![lit("-f"), lit("/tmp/f.png")])]);
}

#[test]
fn generic_area_freeze_with_viewer() {
    let p = capture_plan(DesktopKind::Generic, ScreenshotKind::Area, "/tmp/a.png".to_string(), true, true);
    assert_eq!(
        p,
        vec![
            run("scrot", vec![lit(TEMP)]),
            viewer("feh", vec![lit(TEMP), lit("-F")]),
            run("scrot", vec![lit("--select"), lit("/tmp/a.png")]),
            PlanStep::RemoveTempFile,
            PlanStep::KillViewer,
        ]
    );
}

#[test]
fn generic_area_nonfreeze_keeps_viewer_steps() {
    let p = capture_plan(DesktopKind::Generic, ScreenshotKind::Area, "/tmp/a.png".to_string(), false, true);
    assert_eq!(
        p,
        vec![
            run("scrot", vec![lit(TEMP)]),
            viewer("feh", vec![lit(TEMP), lit("-F")]),
            run("scrot", vec![lit("--select"), lit("/tmp/a.png")]),
        ]
    );
}

#[test]
fn generic_window_args() {
    let p = capture_plan(DesktopKind::Generic, ScreenshotKind::Window, "/tmp/w.png".to_string(), false, false);
    assert_eq!(p, vec![run("scrot", vec![lit("--border"), lit("--focused"), lit("/tmp/w.png")])]);
}

#[test]
fn generic_full_args() {
    let p = capture_plan(DesktopKind::Generic, ScreenshotKind::Full, "/tmp/f.png".to_string(), false, false);
    assert_eq!(p, vec![run("scrot", vec![lit("/tmp/f.png")])]);
}
