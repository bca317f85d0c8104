//! Drives the `nix build` command line from a declarative configuration: the
//! target and its arguments become an exact argument vector, and the JSON that
//! the tool prints becomes a list of derivations with their output paths.

use vstd::prelude::*;

pub mod config;
pub mod decode;
pub mod invoke;
pub mod json;
pub mod locate;

pub use config::{ChangeHint, Config, ConfigView, NixTarget, TargetView};
pub use decode::{decode, Derivation, DerivationView};
pub use invoke::{build_step, Action, Event, Invocation};
pub use json::{Json, JsonView};
pub use locate::{is_nix_available, locate_step, LocateAction, LocateEvent};

verus! {

/// Why a build produced no derivations.
#[derive(Debug, Clone, Copy, PartialEq, Eq, Structural)]
pub enum Error {
    /// No usable `nix` executable was found.
    NixNotAvailable,
    /// `nix` could not be started, or exited with a failure status.
    BuildFailed,
    /// `nix` succeeded but its standard output is not the expected JSON.
    UnknownOutput,
}

/// Builds the derivation found in `default.nix` with default options, one
/// step at a time as [`Config::build`] does.
///
/// Returns the resulting derivations
pub fn build(event: Event) -> (action: Action)
    ensures
        build_step(Config::initial(), event, action),
{
    Config::new().build(event)
}

} // verus!
