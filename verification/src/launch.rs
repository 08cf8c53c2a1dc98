//! How the overlay is set off: the timer launches the program a second time
//! with a marker among its arguments, and a program that finds the marker runs
//! the overlay and nothing else.

use vstd::prelude::*;
use vstd::string::StringExecFns;

verus! {

/// What a running program is there to do.
#[derive(Debug, Clone, Copy, PartialEq, Eq, Structural)]
pub enum LaunchRole {
    /// Show the timer window.
    Timer,
    /// Show the overlay, then exit.
    Overlay,
}

/// The marker that makes a program an overlay.
pub open spec fn overlay_marker() -> Seq<char> {
    "--overlay"@
}

/// The texts of `arguments`.
pub open spec fn texts(arguments: Seq<String>) -> Seq<Seq<char>> {
    Seq::new(arguments.len(), |index: int| arguments[index]@)
}

/// The role of a program started with `arguments`, of which the first is the
/// program's own name: the overlay if the marker is its first argument proper,
/// the timer otherwise.
pub open spec fn role_of(arguments: Seq<Seq<char>>) -> LaunchRole {
    if arguments.len() > 1 && arguments[1] == overlay_marker() {
        LaunchRole::Overlay
    } else {
        LaunchRole::Timer
    }
}

/// Tells the role of this program from its arguments, the program's own name
/// first.
pub fn launch_role(arguments: &Vec<String>) -> (role: LaunchRole)
    ensures
        role == role_of(texts(arguments@)),
{
    if arguments.len() > 1 {
        let marker = String::from_str("--overlay");
        if arguments[1] == marker {
            return LaunchRole::Overlay;
        }
    }
    LaunchRole::Timer
}

/// The arguments with which to start the program as an overlay, without the
/// program's own name.
pub fn overlay_arguments() -> (arguments: Vec<String>)
    ensures
        texts(arguments@) == seq![overlay_marker()],
{
    let mut arguments: Vec<String> = Vec::new();
    arguments.push(String::from_str("--overlay"));
    assert(texts(arguments@) =~= seq![overlay_marker()]);
    arguments
}

/// A program started with the arguments that `overlay_arguments` gives is an
/// overlay, whatever its name; one started with its name alone is the timer.
pub proof fn lemma_marker_is_recognised(program: Seq<char>)
    ensures
        role_of(seq![program] + seq![overlay_marker()]) == LaunchRole::Overlay,
        role_of(seq![program]) == LaunchRole::Timer,
{
}

} // verus!
