//! Tool resolution: choosing the screenshot tool family ("desktop profile")
//! from the session classification and the outcome of availability probes.
//!
//! Probing a tool means attempting to spawn it with a version flag and
//! observing only whether the spawn succeeded; the caller runs the probes
//! and hands the outcomes in as a [`ToolAvailability`] record.

use vstd::prelude::*;
use crate::plan::{Arg, ArgView, Invocation, InvocationView};
use crate::session::SessionKind;

verus! {

/// The resolved screenshot tool family ("desktop profile").
#[derive(Clone, Copy, Debug, PartialEq, Eq, Structural)]
pub enum DesktopKind {
    GNOME,
    KDE,
    Sway,
    Generic,
    Macos,
}

/// A capture tool that resolution may probe for.
#[derive(Clone, Copy, Debug, PartialEq, Eq, Structural)]
pub enum ToolKind {
    Grim,
    Spectacle,
    GnomeScreenshot,
    Scrot,
}

/// Outcome of the availability probes: for each candidate capture tool,
/// whether its probe process spawned successfully.  A tool that was never
/// probed counts as unavailable, which cannot change the resolution result
/// when the caller probes in priority order and stops at the first success.
#[derive(Clone, Copy, Debug, PartialEq, Eq, Structural)]
pub struct ToolAvailability {
    pub grim: bool,
    pub spectacle: bool,
    pub gnome_screenshot: bool,
    pub scrot: bool,
}

/// No compatible screenshot tool was found for the session.
#[derive(Clone, Copy, Debug, PartialEq, Eq, Structural)]
pub enum ResolveError {
    IncompatibleWayland,
    IncompatibleX11,
}

/// The resolution rule: on Wayland the priority order is grim (Sway), then
/// spectacle (KDE), then gnome-screenshot (GNOME); on X11 it is spectacle
/// (KDE), then gnome-screenshot (GNOME), then scrot (Generic); macOS always
/// resolves to its native tooling without probing.  The first available
/// tool in the order wins; when none is available, resolution fails.
pub open spec fn spec_tool_selection(session: SessionKind, tools: ToolAvailability) -> Result<
    DesktopKind,
    ResolveError,
> {
    match session {
        SessionKind::Wayland => if tools.grim {
            Ok(DesktopKind::Sway)
        } else if tools.spectacle {
            Ok(DesktopKind::KDE)
        } else if tools.gnome_screenshot {
            Ok(DesktopKind::GNOME)
        } else {
            Err(ResolveError::IncompatibleWayland)
        },
        SessionKind::X11 => if tools.spectacle {
            Ok(DesktopKind::KDE)
        } else if tools.gnome_screenshot {
            Ok(DesktopKind::GNOME)
        } else if tools.scrot {
            Ok(DesktopKind::Generic)
        } else {
            Err(ResolveError::IncompatibleX11)
        },
        SessionKind::Macos => Ok(DesktopKind::Macos),
    }
}

/// Resolves the desktop profile for `session` from the probe outcomes in
/// `tools`.  Returns an error exactly when the session is Wayland or X11
/// and none of that session's candidate tools is available.
pub fn screenshot_tool_selection(session: SessionKind, tools: ToolAvailability) -> (r: Result<
    DesktopKind,
    ResolveError,
>)
    ensures
        r == spec_tool_selection(session, tools),
{
    match session {
        SessionKind::Wayland => {
            if tools.grim {
                Ok(DesktopKind::Sway)
            } else if tools.spectacle {
                Ok(DesktopKind::KDE)
            } else if tools.gnome_screenshot {
                Ok(DesktopKind::GNOME)
            } else {
                Err(ResolveError::IncompatibleWayland)
            }
        },
        SessionKind::X11 => {
            if tools.spectacle {
                Ok(DesktopKind::KDE)
            } else if tools.gnome_screenshot {
                Ok(DesktopKind::GNOME)
            } else if tools.scrot {
                Ok(DesktopKind::Generic)
            } else {
                Err(ResolveError::IncompatibleX11)
            }
        },
        SessionKind::Macos => Ok(DesktopKind::Macos),
    }
}

/// The candidate tools for a session, in probe priority order.
pub open spec fn spec_probe_order(session: SessionKind) -> Seq<ToolKind> {
    match session {
        SessionKind::Wayland => seq![ToolKind::Grim, ToolKind::Spectacle, ToolKind::GnomeScreenshot],
        SessionKind::X11 => seq![ToolKind::Spectacle, ToolKind::GnomeScreenshot, ToolKind::Scrot],
        SessionKind::Macos => Seq::<ToolKind>::empty(),
    }
}

/// The ordered list of tools a caller should probe for `session`; probing
/// may stop at the first success.  Empty on macOS, where nothing is probed.
pub fn probe_candidates(session: SessionKind) -> (r: Vec<ToolKind>)
    ensures
        r@ == spec_probe_order(session),
{
    let mut order: Vec<ToolKind> = Vec::new();
    match session {
        SessionKind::Wayland => {
            order.push(ToolKind::Grim);
            order.push(ToolKind::Spectacle);
            order.push(ToolKind::GnomeScreenshot);
        },
        SessionKind::X11 => {
            order.push(ToolKind::Spectacle);
            order.push(ToolKind::GnomeScreenshot);
            order.push(ToolKind::Scrot);
        },
        SessionKind::Macos => {},
    }
    proof {
        assert(order@ =~= spec_probe_order(session));
    }
    order
}

impl ToolAvailability {
    /// The record with every probe outcome negative.
    pub fn none() -> (t: ToolAvailability)
        ensures
            t == (ToolAvailability { grim: false, spectacle: false, gnome_screenshot: false, scrot: false }),
    {
        ToolAvailability { grim: false, spectacle: false, gnome_screenshot: false, scrot: false }
    }

    /// The record extended with a successful probe of `tool`.
    pub fn with(self, tool: ToolKind) -> (t: ToolAvailability)
        ensures
            t == spec_with_tool(self, tool),
    {
        match tool {
            ToolKind::Grim => ToolAvailability { grim: true, ..self },
            ToolKind::Spectacle => ToolAvailability { spectacle: true, ..self },
            ToolKind::GnomeScreenshot => ToolAvailability { gnome_screenshot: true, ..self },
            ToolKind::Scrot => ToolAvailability { scrot: true, ..self },
        }
    }
}

/// `avail` with the probe outcome for `tool` set to available.
pub open spec fn spec_with_tool(avail: ToolAvailability, tool: ToolKind) -> ToolAvailability {
    match tool {
        ToolKind::Grim => ToolAvailability { grim: true, ..avail },
        ToolKind::Spectacle => ToolAvailability { spectacle: true, ..avail },
        ToolKind::GnomeScreenshot => ToolAvailability { gnome_screenshot: true, ..avail },
        ToolKind::Scrot => ToolAvailability { scrot: true, ..avail },
    }
}

/// Whether `avail` records `tool` as available.
pub open spec fn spec_tool_available(avail: ToolAvailability, tool: ToolKind) -> bool {
    match tool {
        ToolKind::Grim => avail.grim,
        ToolKind::Spectacle => avail.spectacle,
        ToolKind::GnomeScreenshot => avail.gnome_screenshot,
        ToolKind::Scrot => avail.scrot,
    }
}

/// Short-circuit probing is sound: when `truth` is the full availability of
/// every tool and the `i`-th candidate in the session's probe order is the
/// first available one, a record that marks that candidate alone resolves
/// to the same desktop profile as `truth` itself.  A caller may therefore
/// probe in order and stop at the first success.
pub proof fn lemma_short_circuit_probe(session: SessionKind, truth: ToolAvailability, i: int)
    requires
        0 <= i < spec_probe_order(session).len(),
        spec_tool_available(truth, spec_probe_order(session)[i]),
        forall|j: int|
            0 <= j < i ==> !spec_tool_available(truth, spec_probe_order(session)[j]),
    ensures
        spec_tool_selection(
            session,
            spec_with_tool(
                ToolAvailability { grim: false, spectacle: false, gnome_screenshot: false, scrot: false },
                spec_probe_order(session)[i],
            ),
        ) == spec_tool_selection(session, truth),
{
    if i > 0 {
        assert(!spec_tool_available(truth, spec_probe_order(session)[0]));
    }
    if i > 1 {
        assert(!spec_tool_available(truth, spec_probe_order(session)[1]));
    }
}

/// Probe exhaustion is sound as well: when no candidate in the session's
/// probe order is truly available, the all-negative record resolves — to
/// the session's incompatibility error, or to macOS's native tooling —
/// exactly as the full truth does.
pub proof fn lemma_probe_exhaustion(session: SessionKind, truth: ToolAvailability)
    requires
        forall|j: int|
            0 <= j < spec_probe_order(session).len() ==> !spec_tool_available(
                truth,
                spec_probe_order(session)[j],
            ),
    ensures
        spec_tool_selection(
            session,
            ToolAvailability { grim: false, spectacle: false, gnome_screenshot: false, scrot: false },
        ) == spec_tool_selection(session, truth),
{
    if spec_probe_order(session).len() > 0 {
        assert(!spec_tool_available(truth, spec_probe_order(session)[0]));
        assert(!spec_tool_available(truth, spec_probe_order(session)[1]));
        assert(!spec_tool_available(truth, spec_probe_order(session)[2]));
    }
}

/// The program name that a capture tool goes by.
pub open spec fn spec_tool_program(tool: ToolKind) -> Seq<char> {
    match tool {
        ToolKind::Grim => "grim"@,
        ToolKind::Spectacle => "spectacle"@,
        ToolKind::GnomeScreenshot => "gnome-screenshot"@,
        ToolKind::Scrot => "scrot"@,
    }
}

/// The availability probe for a capture tool: its program run with the
/// version flag, where only spawn success is observed.
pub open spec fn spec_probe_invocation(tool: ToolKind) -> InvocationView {
    InvocationView { program: spec_tool_program(tool), args: seq![ArgView::Lit("--version"@)] }
}

/// Builds the probe invocation for `tool`.
pub fn probe_invocation(tool: ToolKind) -> (i: Invocation)
    ensures
        i@ == spec_probe_invocation(tool),
{
    let program: &str = match tool {
        ToolKind::Grim => "grim",
        ToolKind::Spectacle => "spectacle",
        ToolKind::GnomeScreenshot => "gnome-screenshot",
        ToolKind::Scrot => "scrot",
    };
    let mut args: Vec<Arg> = Vec::new();
    args.push(Arg::Lit("--version".to_owned()));
    let i = Invocation { program: program.to_owned(), args };
    proof {
        assert(i@.args =~= spec_probe_invocation(tool).args);
        assert(i@ =~~= spec_probe_invocation(tool));
    }
    i
}

/// The availability probe for the freeze illusion's image viewer, observed
/// the same way as the capture tool probes.
pub open spec fn spec_viewer_probe_invocation() -> InvocationView {
    InvocationView { program: "feh"@, args: seq![ArgView::Lit("--version"@)] }
}

/// Builds the probe invocation for the image viewer.
pub fn viewer_probe_invocation() -> (i: Invocation)
    ensures
        i@ == spec_viewer_probe_invocation(),
{
    let mut args: Vec<Arg> = Vec::new();
    args.push(Arg::Lit("--version".to_owned()));
    let i = Invocation { program: "feh".to_owned(), args };
    proof {
        assert(i@.args =~= spec_viewer_probe_invocation().args);
        assert(i@ =~~= spec_viewer_probe_invocation());
    }
    i
}

/// The message that accompanies a failed resolution.
pub open spec fn spec_error_message(e: ResolveError) -> Seq<char> {
    match e {
        ResolveError::IncompatibleWayland => "Uncompatible Wayland desktop"@,
        ResolveError::IncompatibleX11 => "Uncompatible X11 desktop (install scrot)"@,
    }
}

impl ResolveError {
    /// The human-readable message for this error.
    pub fn message(&self) -> (m: String)
        ensures
            m@ == spec_error_message(*self),
    {
        match self {
            ResolveError::IncompatibleWayland => "Uncompatible Wayland desktop".to_owned(),
            ResolveError::IncompatibleX11 => "Uncompatible X11 desktop (install scrot)".to_owned(),
        }
    }
}

/// Resolution priority on a Wayland session, stated over every combination
/// of probe outcomes: an available grim wins regardless of the other tools;
/// otherwise an available spectacle wins; otherwise an available
/// gnome-screenshot; and with all three unavailable resolution fails with
/// the Wayland incompatibility error, whatever the scrot outcome.
pub proof fn lemma_wayland_priority(tools: ToolAvailability)
    ensures
        tools.grim ==> spec_tool_selection(SessionKind::Wayland, tools) == Ok::<
            DesktopKind,
            ResolveError,
        >(DesktopKind::Sway),
        !tools.grim && tools.spectacle ==> spec_tool_selection(SessionKind::Wayland, tools) == Ok::<
            DesktopKind,
            ResolveError,
        >(DesktopKind::KDE),
        !tools.grim && !tools.spectacle && tools.gnome_screenshot ==> spec_tool_selection(
            SessionKind::Wayland,
            tools,
        ) == Ok::<DesktopKind, ResolveError>(DesktopKind::GNOME),
        !tools.grim && !tools.spectacle && !tools.gnome_screenshot ==> spec_tool_selection(
            SessionKind::Wayland,
            tools,
        ) == Err::<DesktopKind, ResolveError>(ResolveError::IncompatibleWayland),
{
}

/// Resolution priority on an X11 session, stated over every combination of
/// probe outcomes: spectacle over gnome-screenshot over scrot, and with all
/// three unavailable resolution fails with the X11 incompatibility error
/// (whose message names scrot as the remedy), whatever the grim outcome.
pub proof fn lemma_x11_priority(tools: ToolAvailability)
    ensures
        tools.spectacle ==> spec_tool_selection(SessionKind::X11, tools) == Ok::<
            DesktopKind,
            ResolveError,
        >(DesktopKind::KDE),
        !tools.spectacle && tools.gnome_screenshot ==> spec_tool_selection(SessionKind::X11, tools)
            == Ok::<DesktopKind, ResolveError>(DesktopKind::GNOME),
        !tools.spectacle && !tools.gnome_screenshot && tools.scrot ==> spec_tool_selection(
            SessionKind::X11,
            tools,
        ) == Ok::<DesktopKind, ResolveError>(DesktopKind::Generic),
        !tools.spectacle && !tools.gnome_screenshot && !tools.scrot ==> spec_tool_selection(
            SessionKind::X11,
            tools,
        ) == Err::<DesktopKind, ResolveError>(ResolveError::IncompatibleX11),
{
}

} // verus!
