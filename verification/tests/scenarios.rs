//! End-to-end planning scenarios and the freeze illusion's residue,
//! checked by replaying plans against a recording of their side effects.

use screenshot_rs::plan::{Arg, PlanStep};
use screenshot_rs::resolve::{ResolveError, ToolAvailability};
use screenshot_rs::{screenshot_area, screenshot_full, screenshot_window};

const TEMP: &str = "/tmp/selection-tmp.png";

struct Residue {
    temp_file: bool,
    viewer: bool,
}

/// Replays a plan, tracking what it leaves behind; cleanup steps are taken
/// to succeed, as the properties under test assume.
fn replay(mut r: Residue, plan: &[PlanStep]) -> Residue {
    for step in plan {
        match step {
            PlanStep::Run(inv) => {
                if inv.args.contains(&Arg::Lit(TEMP.to_string())) {
                    r.temp_file = true;
                }
            }
            PlanStep::SpawnViewer(_) => {
                r.viewer = true;
            }
            PlanStep::ReadGeometry(_) => {}
            PlanStep::RemoveTempFile => {
                r.temp_file = false;
            }
            PlanStep::KillViewer => {
                r.viewer = false;
            }
        }
    }
    r
}

fn only_scrot() -> ToolAvailability {
    ToolAvailability { grim: false, spectacle: false, gnome_screenshot: false, scrot: true }
}

fn only_gnome_screenshot() -> ToolAvailability {
    ToolAvailability { grim: false, spectacle: false, gnome_screenshot: true, scrot: false }
}

fn no_tools() -> ToolAvailability {
    ToolAvailability { grim: false, spectacle: false, gnome_screenshot: false, scrot: false }
}

#[test]
fn x11_scrot_full_is_one_destination_argument() {
    let r = screenshot_full(Some("x11".to_string()), false, only_scrot(), "/tmp/out.png".to_string());
    let plan = r.unwrap();
    assert_eq!(plan.len(), 1);
    match &plan[0] {
        PlanStep::Run(inv) => {
            assert_eq!(inv.program, "scrot".to_string());
            assert_eq!(inv.args, vec![Arg::Lit("/tmp/out.png".to_string())]);
        }
        other => panic!("expected a blocking run, got {:?}", other),
    }
}

#[test]
fn wayland_gnome_window_uses_shadow_flags() {
    let r = screenshot_window(
        Some("wayland".to_string()),
        false,
        only_gnome_screenshot(),
        "/tmp/w.png".to_string(),
    );
    let plan = r.unwrap();
    assert_eq!(plan.len(), 1);
    match &plan[0] {
        PlanStep::Run(inv) => {
            assert_eq!(inv.program, "gnome-screenshot".to_string());
            assert_eq!(
                inv.args,
                vec![
                    Arg::Lit("-w".to_string()),
                    Arg::Lit("-e".to_string()),
                    Arg::Lit("shadow".to_string()),
                    Arg::Lit("-f".to_string()),
                    Arg::Lit("/tmp/w.png".to_string()),
                ]
            );
        }
        other => panic!("expected a blocking run, got {:?}", other),
    }
}

#[test]
fn freeze_area_twice_leaves_nothing_behind() {
    let plan = screenshot_area(
        Some("x11".to_string()),
        false,
        only_scrot(),
        true,
        "/tmp/a.png".to_string(),
        true,
    )
    .unwrap();
    let after_first = replay(Residue { temp_file: false, viewer: false }, &plan);
    assert!(!after_first.temp_file);
    assert!(!after_first.viewer);
    let after_second = replay(after_first, &plan);
    assert!(!after_second.temp_file);
    assert!(!after_second.viewer);
    assert_eq!(plan[plan.len() - 2], PlanStep::RemoveTempFile);
    assert_eq!(plan[plan.len() - 1], PlanStep::KillViewer);
}

#[test]
fn nonfreeze_area_leaves_temp_file_and_viewer() {
    let plan = screenshot_area(
        Some("x11".to_string()),
        false,
        only_gnome_screenshot(),
        true,
        "/tmp/a.png".to_string(),
        false,
    )
    .unwrap();
    let after = replay(Residue { temp_file: false, viewer: false }, &plan);
    assert!(after.temp_file);
    assert!(after.viewer);
    assert!(!plan.contains(&PlanStep::RemoveTempFile));
    assert!(!plan.contains(&PlanStep::KillViewer));
}

#[test]
fn wayland_without_tools_fails_with_wayland_error() {
    let r = screenshot_area(
        Some("wayland".to_string()),
        false,
        no_tools(),
        false,
        "/tmp/a.png".to_string(),
        true,
    );
    assert_eq!(r.unwrap_err(), ResolveError::IncompatibleWayland);
}

#[test]
fn x11_without_tools_fails_with_x11_error() {
    let r = screenshot_full(Some("tty".to_string()), false, no_tools(), "/tmp/f.png".to_string());
    assert_eq!(r.unwrap_err(), ResolveError::IncompatibleX11);
}

#[test]
fn unset_session_on_macos_build_plans_native_capture() {
    let plan = screenshot_full(None, true, no_tools(), "/tmp/f.png".to_string()).unwrap();
    match &plan[0] {
        PlanStep::Run(inv) => {
            assert_eq!(inv.program, "screencapture".to_string());
            assert_eq!(
                inv.args,
                vec![Arg::Lit("-S".to_string()), Arg::Lit("/tmp/f.png".to_string())]
            );
        }
        other => panic!("expected a blocking run, got {:?}", other),
    }
}
