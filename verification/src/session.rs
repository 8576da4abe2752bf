//! Session detection: classifying the running graphical session from the
//! value of the `XDG_SESSION_TYPE` environment variable.

use vstd::prelude::*;
use vstd::string::StrSliceExecFns;

verus! {

/// Classification of the running graphical session.
#[derive(Clone, Copy, Debug, PartialEq, Eq, Structural)]
pub enum SessionKind {
    Wayland,
    X11,
    Macos,
}

/// Holds when `s` is the word "wayland", compared letter by letter without
/// regard to letter case.
pub open spec fn is_wayland_word(s: Seq<char>) -> bool {
    &&& s.len() == 7
    &&& (s[0] == 'w' || s[0] == 'W')
    &&& (s[1] == 'a' || s[1] == 'A')
    &&& (s[2] == 'y' || s[2] == 'Y')
    &&& (s[3] == 'l' || s[3] == 'L')
    &&& (s[4] == 'a' || s[4] == 'A')
    &&& (s[5] == 'n' || s[5] == 'N')
    &&& (s[6] == 'd' || s[6] == 'D')
}

/// The session classification induced by the value of `XDG_SESSION_TYPE`
/// (`None` when the variable is unset) and by whether this build targets
/// macOS: "wayland" in any letter case means Wayland, any other value means
/// X11, and an unset variable means macOS on a macOS build and X11 otherwise.
pub open spec fn spec_session(env_value: Option<Seq<char>>, macos_build: bool) -> SessionKind {
    match env_value {
        Some(v) => if is_wayland_word(v) {
            SessionKind::Wayland
        } else {
            SessionKind::X11
        },
        None => if macos_build {
            SessionKind::Macos
        } else {
            SessionKind::X11
        },
    }
}

/// Case-insensitive test for the value "wayland".
pub fn is_wayland_value(s: &str) -> (r: bool)
    ensures
        r == is_wayland_word(s@),
{
    if s.unicode_len() != 7 {
        return false;
    }
    let c0 = s.get_char(0);
    let c1 = s.get_char(1);
    let c2 = s.get_char(2);
    let c3 = s.get_char(3);
    let c4 = s.get_char(4);
    let c5 = s.get_char(5);
    let c6 = s.get_char(6);
    (c0 == 'w' || c0 == 'W') && (c1 == 'a' || c1 == 'A') && (c2 == 'y' || c2 == 'Y') && (c3 == 'l'
        || c3 == 'L') && (c4 == 'a' || c4 == 'A') && (c5 == 'n' || c5 == 'N') && (c6 == 'd' || c6
        == 'D')
}

/// Classifies the session.  `env_value` is the value of `XDG_SESSION_TYPE`
/// as the caller read it (`None` when unset or not valid Unicode), and
/// `macos_build` says whether this build targets macOS.  Never fails.
pub fn session_type(env_value: Option<String>, macos_build: bool) -> (s: SessionKind)
    ensures
        s == spec_session(env_value.deep_view(), macos_build),
{
    match env_value {
        Some(v) => {
            if is_wayland_value(v.as_str()) {
                SessionKind::Wayland
            } else {
                SessionKind::X11
            }
        },
        None => {
            if macos_build {
                SessionKind::Macos
            } else {
                SessionKind::X11
            }
        },
    }
}

/// The session detector's rule, stated over every input: a set variable
/// yields Wayland exactly when its value spells "wayland" in any letter
/// case (and X11 otherwise), and an unset variable yields macOS on a macOS
/// build and X11 on any other build.
pub proof fn lemma_session_classification(v: Seq<char>, macos_build: bool)
    ensures
        spec_session(Some(v), macos_build) == SessionKind::Wayland <==> is_wayland_word(v),
        !is_wayland_word(v) ==> spec_session(Some(v), macos_build) == SessionKind::X11,
        spec_session(None, true) == SessionKind::Macos,
        spec_session(None, false) == SessionKind::X11,
{
}

} // verus!
