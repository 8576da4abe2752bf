//! Screenshot planning for heterogeneous desktop environments.
//!
//! The library classifies the running graphical session (Wayland, X11 or
//! macOS), resolves which native screenshot tool family to use from the
//! outcome of availability probes, and builds the exact sequence of external
//! command invocations — as data — for the three capture modes (area, window,
//! full screen).  Running the probes and the planned commands is the caller's
//! business; everything decided here is pure and fully specified.

pub mod effects;
pub mod plan;
pub mod resolve;
pub mod session;

use vstd::prelude::*;

use crate::plan::{capture_plan, plan_view, spec_capture_plan, PlanStep, PlanStepView};
use crate::resolve::{
    screenshot_tool_selection, spec_tool_selection, ResolveError, ToolAvailability,
};
use crate::session::{session_type, spec_session};

pub use crate::plan::ScreenshotKind;

verus! {

/// The complete decision for one capture request: the session classified
/// from the environment value and the build target, the desktop profile
/// resolved from the probe outcomes, and — when resolution succeeds — the
/// strategy's invocation plan for the requested mode.
pub open spec fn spec_screenshot_plan(
    env_value: Option<Seq<char>>,
    macos_build: bool,
    tools: ToolAvailability,
    feh: bool,
    mode: ScreenshotKind,
    dest: Seq<char>,
    freeze: bool,
) -> Result<Seq<PlanStepView>, ResolveError> {
    match spec_tool_selection(spec_session(env_value, macos_build), tools) {
        Ok(desktop) => Ok(spec_capture_plan(desktop, mode, dest, freeze, feh)),
        Err(e) => Err(e),
    }
}

/// Plans an area (region-select) capture to `file`.  `env_value` is the
/// value of `XDG_SESSION_TYPE` as read by the caller, `macos_build` the
/// build target, `tools` and `feh_available` the probe outcomes, and
/// `freeze` asks for the freeze illusion's cleanup on the strategies that
/// stage one.  Fails exactly when no compatible tool is available.
pub fn screenshot_area(
    env_value: Option<String>,
    macos_build: bool,
    tools: ToolAvailability,
    feh_available: bool,
    file: String,
    freeze: bool,
) -> (r: Result<Vec<PlanStep>, ResolveError>)
    ensures
        ({
            let expected = spec_screenshot_plan(
                env_value.deep_view(),
                macos_build,
                tools,
                feh_available,
                ScreenshotKind::Area,
                file@,
                freeze,
            );
            match r {
                Ok(p) => expected == Ok::<Seq<PlanStepView>, ResolveError>(plan_view(p@)),
                Err(e) => expected == Err::<Seq<PlanStepView>, ResolveError>(e),
            }
        }),
{
    let session = session_type(env_value, macos_build);
    match screenshot_tool_selection(session, tools) {
        Ok(desktop) => Ok(capture_plan(desktop, ScreenshotKind::Area, file, freeze, feh_available)),
        Err(e) => Err(e),
    }
}

/// Plans an active-window capture to `file`.  Window plans never stage the
/// freeze illusion, so neither the freeze request nor the viewer probe is
/// consulted.  Fails exactly when no compatible tool is available.
pub fn screenshot_window(
    env_value: Option<String>,
    macos_build: bool,
    tools: ToolAvailability,
    file: String,
) -> (r: Result<Vec<PlanStep>, ResolveError>)
    ensures
        ({
            let expected = spec_screenshot_plan(
                env_value.deep_view(),
                macos_build,
                tools,
                false,
                ScreenshotKind::Window,
                file@,
                false,
            );
            match r {
                Ok(p) => expected == Ok::<Seq<PlanStepView>, ResolveError>(plan_view(p@)),
                Err(e) => expected == Err::<Seq<PlanStepView>, ResolveError>(e),
            }
        }),
{
    let session = session_type(env_value, macos_build);
    match screenshot_tool_selection(session, tools) {
        Ok(desktop) => Ok(capture_plan(desktop, ScreenshotKind::Window, file, false, false)),
        Err(e) => Err(e),
    }
}

/// Plans a full-screen capture to `file`.  Full plans never stage the
/// freeze illusion, so neither the freeze request nor the viewer probe is
/// consulted.  Fails exactly when no compatible tool is available.
pub fn screenshot_full(
    env_value: Option<String>,
    macos_build: bool,
    tools: ToolAvailability,
    file: String,
) -> (r: Result<Vec<PlanStep>, ResolveError>)
    ensures
        ({
            let expected = spec_screenshot_plan(
                env_value.deep_view(),
                macos_build,
                tools,
                false,
                ScreenshotKind::Full,
                file@,
                false,
            );
            match r {
                Ok(p) => expected == Ok::<Seq<PlanStepView>, ResolveError>(plan_view(p@)),
                Err(e) => expected == Err::<Seq<PlanStepView>, ResolveError>(e),
            }
        }),
{
    let session = session_type(env_value, macos_build);
    match screenshot_tool_selection(session, tools) {
        Ok(desktop) => Ok(capture_plan(desktop, ScreenshotKind::Full, file, false, false)),
        Err(e) => Err(e),
    }
}

} // verus!
