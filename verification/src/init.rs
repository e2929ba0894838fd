//! First-run initialization planning: whether the node home already
//! carries its config marker decides whether the daemon's `init`
//! subcommand runs and the bundled genesis payload is installed. The
//! filesystem and the subprocess are driven outside this crate; this
//! module decides, and its decision is idempotent.

use vstd::prelude::*;

verus! {

/// What one initialization pass does to the node home.
#[derive(Clone, Copy, Debug, PartialEq, Eq, Structural)]
pub enum InitAction {
    /// The config marker exists: nothing runs, nothing is written.
    AlreadyInitialized,
    /// Run the daemon's `init` subcommand, then install the bundled
    /// genesis payload at the marker path, overwriting it.
    RunInitAndInstall,
}

/// Abstract state of the node home: whether the config marker
/// (`config/genesis.json` under the node home) exists.
#[derive(Clone, Copy, Debug, PartialEq, Eq, Structural)]
pub struct HomeState {
    pub marker_present: bool,
}

/// One initialization pass: the action to perform and the home state it
/// leaves behind. Installing the payload creates the marker, so the home
/// is always initialized afterwards.
pub open spec fn init_step(home: HomeState) -> (HomeState, InitAction) {
    if home.marker_present {
        (home, InitAction::AlreadyInitialized)
    } else {
        (HomeState { marker_present: true }, InitAction::RunInitAndInstall)
    }
}

/// Decide what `ensure_initialized` must do with the given home, and what
/// the home looks like once the action is carried out.
pub fn plan_initialization(home: HomeState) -> (r: (HomeState, InitAction))
    ensures
        r == init_step(home),
        r.0.marker_present,
{
    if home.marker_present {
        (home, InitAction::AlreadyInitialized)
    } else {
        (HomeState { marker_present: true }, InitAction::RunInitAndInstall)
    }
}

/// Initialization is idempotent: the pass after any pass plans no work
/// and leaves the home unchanged, and a pass over an initialized home
/// mutates nothing in the first place.
pub proof fn lemma_initialization_idempotent(home: HomeState)
    ensures
        init_step(init_step(home).0) == (init_step(home).0, InitAction::AlreadyInitialized),
        home.marker_present ==> init_step(home) == (home, InitAction::AlreadyInitialized),
{
}

/// Name the daemon binary is resolved by.
pub fn daemon_binary_name() -> (r: String)
    ensures
        r@ == "quicksilverd"@,
{
    "quicksilverd".to_owned()
}

/// Command line of the daemon's first-run `init` invocation.
pub fn init_args() -> (r: Vec<String>)
    ensures
        r@.len() == 2,
        r@[0]@ == "init"@,
        r@[1]@ == "test"@,
{
    let mut r: Vec<String> = Vec::new();
    r.push("init".to_owned());
    r.push("test".to_owned());
    r
}

/// Path of the config marker, relative to the user's home directory.
pub fn marker_rel_path() -> (r: String)
    ensures
        r@ == ".quicksilverd/config/genesis.json"@,
{
    ".quicksilverd/config/genesis.json".to_owned()
}

} // verus!
