//! Finding the `nix` executable, one step at a time: the order of the steps
//! is decided here, the caller reads the environment and the disk.

use vstd::prelude::*;

verus! {

/// What the caller found out since the last step.
pub enum LocateEvent {
    /// Nothing yet: the search begins.
    Start,
    /// The value of the environment variable, if it is set.
    Override(Option<String>),
    /// The executable that the search path holds under the name, if any.
    Searched(Option<String>),
    /// Whether anything is there at the candidate path.
    Checked {
        candidate: String,
        on_disk: bool,
    },
}

/// What the caller has to find out next.
pub enum LocateAction {
    /// Read this environment variable and report `LocateEvent::Override`.
    ReadOverride(String),
    /// Look this name up on the search path and report `LocateEvent::Searched`.
    Search(String),
    /// See whether this path exists and report `LocateEvent::Checked`.
    Check(String),
    /// The search has ended, with the path of `nix` if it was found.
    Done(Option<String>),
}

/// The step that the search takes on an event.
///
/// - It begins with the environment variable `NIX`.
/// - A path from the variable is the candidate, and the search path is not
///   looked at; without the variable, `nix` is looked up on the search path.
/// - What the search path gives is the candidate; if it gives nothing, there
///   is no `nix`.
/// - A candidate that exists is `nix`; one that does not is no `nix`.
pub open spec fn locate_step(event: LocateEvent, action: LocateAction) -> bool {
    match event {
        LocateEvent::Start => action is ReadOverride && action->ReadOverride_0@ == "NIX"@,
        LocateEvent::Override(Some(path)) => action == LocateAction::Check(path),
        LocateEvent::Override(None) => action is Search && action->Search_0@ == "nix"@,
        LocateEvent::Searched(Some(path)) => action == LocateAction::Check(path),
        LocateEvent::Searched(None) => action == LocateAction::Done(None),
        LocateEvent::Checked { candidate, on_disk } => action == LocateAction::Done(
            if on_disk {
                Some(candidate)
            } else {
                None
            },
        ),
    }
}

/// Returns the path to the found `nix` program, one step at a time: begin
/// with [`LocateEvent::Start`], find out what the returned [`LocateAction`]
/// asks for, and come back with the answer, until it is
/// [`LocateAction::Done`].
///
/// Will prioritize the `NIX` environment variable if set
pub fn is_nix_available(event: LocateEvent) -> (action: LocateAction)
    ensures
        locate_step(event, action),
{
    match event {
        LocateEvent::Start => LocateAction::ReadOverride("NIX".to_owned()),
        LocateEvent::Override(Some(path)) => LocateAction::Check(path),
        LocateEvent::Override(None) => LocateAction::Search("nix".to_owned()),
        LocateEvent::Searched(Some(path)) => LocateAction::Check(path),
        LocateEvent::Searched(None) => LocateAction::Done(None),
        LocateEvent::Checked { candidate, on_disk } => {
            if on_disk {
                LocateAction::Done(Some(candidate))
            } else {
                LocateAction::Done(None)
            }
        },
    }
}

} // verus!
