//! What to do at startup, once the attempt to go to the background has ended.
//!
//! A PID file guards against a second instance. Going to the background and
//! reading that file are left to the surrounding process; the decisions are here.

use vstd::prelude::*;

verus! {

/// The exit status of a launch that gives way to a running instance.
pub const CONFLICT_EXIT_STATUS: i32 = 1;

/// How the attempt to go to the background ended.
#[derive(Clone, Copy, Debug, PartialEq, Eq, Structural)]
pub enum Spawn {
    /// This process is the daemon now.
    Daemonized,
    /// The PID file is held by another instance.
    AlreadyRunning,
    /// Going to the background failed for any other reason.
    Failed,
}

/// What a launch is to do next.
#[derive(Clone, Copy, Debug, PartialEq, Eq, Structural)]
pub enum Startup {
    /// Go on and serve.
    Serve,
    /// Look up the PID of the instance that holds the PID file.
    Locate,
    /// Report the instance with this PID and exit with
    /// [`CONFLICT_EXIT_STATUS`], without opening a listener.
    GiveWay(u32),
}

/// The step that follows the attempt to go to the background.
pub open spec fn startup_after_spawn(spawn: Spawn) -> Startup {
    match spawn {
        Spawn::AlreadyRunning => Startup::Locate,
        Spawn::Daemonized => Startup::Serve,
        Spawn::Failed => Startup::Serve,
    }
}

/// The step that follows the search for a running instance.
pub open spec fn startup_after_search(found: Option<u32>) -> Startup {
    match found {
        Some(pid) => Startup::GiveWay(pid),
        None => Startup::Serve,
    }
}

/// Decides how to go on after the attempt to go to the background.
///
/// A launch that finds the PID file held looks for the holder. Any other
/// launch serves: as the daemon, or, where going to the background failed,
/// as the process that it is.
pub fn after_spawn(spawn: Spawn) -> (startup: Startup)
    ensures
        startup == startup_after_spawn(spawn),
        startup is Locate <==> spawn is AlreadyRunning,
        !(startup is GiveWay),
{
    match spawn {
        Spawn::AlreadyRunning => Startup::Locate,
        Spawn::Daemonized => Startup::Serve,
        Spawn::Failed => Startup::Serve,
    }
}

/// Decides how to go on after the search for the running instance: `found`
/// is its PID, or `None` where the search failed.
///
/// A launch that learns the PID of a running instance gives way to it. Where
/// the search failed, the launch serves.
pub fn after_search(found: Option<u32>) -> (startup: Startup)
    ensures
        startup == startup_after_search(found),
        found matches Some(pid) ==> startup == Startup::GiveWay(pid),
        found is None ==> startup == Startup::Serve,
{
    match found {
        Some(pid) => Startup::GiveWay(pid),
        None => Startup::Serve,
    }
}

impl Startup {
    /// The status to exit with, where this step ends the launch.
    pub fn exit_status(self) -> (status: Option<i32>)
        ensures
            status == (if self is GiveWay {
                Some(CONFLICT_EXIT_STATUS)
            } else {
                None
            }),
            status matches Some(code) ==> code != 0,
    {
        match self {
            Startup::GiveWay(_) => Some(CONFLICT_EXIT_STATUS),
            _ => None,
        }
    }
}

} // verus!
