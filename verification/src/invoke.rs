//! One build as a sequence of steps: the configuration decides what to do
//! next from what happened last, and the caller does it.

use crate::config::{change_hint_of, command_tokens, token_views, ChangeHint, Config, ConfigView};
use crate::decode::{decode, decoded, derivation_views, Derivation};
use crate::Error;
use vstd::prelude::*;

verus! {

/// What happened outside since the last step.
pub enum Event {
    /// Nothing yet: the build begins.
    Start,
    /// The search for `nix` has ended, with the executable's path if there is one.
    Located(Option<String>),
    /// `nix` could not be started.
    LaunchFailed,
    /// `nix` ran to its end.
    Exited {
        /// Whether its exit status reports success.
        success: bool,
        /// What it wrote to its standard output.
        stdout: Vec<u8>,
    },
}

/// A command to run, and what to watch for changes.
pub struct Invocation {
    /// The `nix` executable.
    pub program: String,
    /// Its arguments, one token each.
    pub args: Vec<String>,
    /// The path whose change makes the result stale.
    pub hint: ChangeHint,
}

/// What the caller has to do next.
pub enum Action {
    /// Look for the `nix` executable and report `Event::Located`.
    Locate,
    /// Run the command in the current directory, wait for it, and report
    /// `Event::Exited`, or `Event::LaunchFailed` if it cannot be started.
    Run(Invocation),
    /// The build has ended with this result.
    Done(Result<Vec<Derivation>, Error>),
}

/// The step that a build takes on an event.
///
/// - At the start, `nix` is looked for.
/// - Without `nix` the build ends with [`Error::NixNotAvailable`]; with it,
///   `nix` is run with the configuration's argument vector.
/// - A launch that fails, and an exit status other than success, end the
///   build with [`Error::BuildFailed`], whatever was printed.
/// - After a successful exit the build ends with the derivations that the
///   standard output decodes to, all of them, or with
///   [`Error::UnknownOutput`] if it decodes to none.
pub open spec fn build_step(config: ConfigView, event: Event, action: Action) -> bool {
    match event {
        Event::Start => action is Locate,
        Event::Located(None) => action == Action::Done(Err(Error::NixNotAvailable)),
        Event::Located(Some(nix)) => {
            &&& action is Run
            &&& action->Run_0.program@ == nix@
            &&& token_views(action->Run_0.args@) == command_tokens(config)
            &&& action->Run_0.hint@ == change_hint_of(config.target)
        },
        Event::LaunchFailed => action == Action::Done(Err(Error::BuildFailed)),
        Event::Exited { success, stdout } => if !success {
            action == Action::Done(Err(Error::BuildFailed))
        } else {
            match action {
                Action::Done(Ok(derivations)) => decoded(stdout@) == Some(
                    derivation_views(derivations@),
                ),
                Action::Done(Err(e)) => e == Error::UnknownOutput && decoded(stdout@) is None,
                _ => false,
            }
        },
    }
}

impl Config {
    /// Invoke `nix build` with the given configuration, one step at a time:
    /// begin with [`Event::Start`], do what the returned [`Action`] asks,
    /// and come back with the event that followed, until it is
    /// [`Action::Done`].
    #[must_use]
    pub fn build(&self, event: Event) -> (action: Action)
        ensures
            build_step(self@, event, action),
    {
        match event {
            Event::Start => Action::Locate,
            Event::Located(None) => Action::Done(Err(Error::NixNotAvailable)),
            Event::Located(Some(nix)) => Action::Run(
                Invocation { program: nix, args: self.args(), hint: self.change_hint() },
            ),
            Event::LaunchFailed => Action::Done(Err(Error::BuildFailed)),
            Event::Exited { success, stdout } => {
                if !success {
                    Action::Done(Err(Error::BuildFailed))
                } else {
                    Action::Done(decode(stdout.as_slice()))
                }
            },
        }
    }
}

} // verus!
