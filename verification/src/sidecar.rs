//! The bundled backend executable and what to do with the outcome of launching it.

use vstd::prelude::*;
use crate::text::same_text;

verus! {

/// The name under which the Windows family of operating systems is known.
pub const WINDOWS_OS_NAME: &'static str = "windows";

/// The backend's file name on Windows.
pub const SIDECAR_WINDOWS: &'static str = "lca-backend.exe";

/// The backend's file name everywhere else.
pub const SIDECAR_OTHER: &'static str = "lca-backend";

/// The message that goes with a backend that could not be prepared for launch.
pub const SETUP_FAILURE_MESSAGE: &'static str = "failed to setup sidecar";

/// The family of the operating system that the application runs on.
#[derive(Debug, Clone, Copy, PartialEq, Eq, Structural)]
pub enum Platform {
    Windows,
    Other,
}

/// How an attempt to launch the backend ended.
#[derive(Debug, Clone, Copy, PartialEq, Eq, Structural)]
pub enum LaunchOutcome {
    /// The executable could not be found or prepared.
    SetupFailed,
    /// The executable was prepared, but the process could not be created.
    SpawnFailed,
    /// The process was created.
    Spawned,
}

/// What the application does after an attempt to launch the backend.
#[derive(Debug, Clone, Copy, PartialEq, Eq, Structural)]
pub enum Reaction {
    /// Stop the application with the setup failure's message.
    Abort,
    /// Go on, without a word.
    Proceed,
}

/// The platform that an operating system's name stands for.
pub open spec fn platform_of(os_name: Seq<char>) -> Platform {
    if os_name == WINDOWS_OS_NAME@ {
        Platform::Windows
    } else {
        Platform::Other
    }
}

/// The backend's file name on a platform.
pub open spec fn sidecar_name(platform: Platform) -> Seq<char> {
    match platform {
        Platform::Windows => SIDECAR_WINDOWS@,
        Platform::Other => SIDECAR_OTHER@,
    }
}

/// A failed setup stops the application; a failed spawn is passed over, as is a success.
pub open spec fn reaction_to(outcome: LaunchOutcome) -> Reaction {
    match outcome {
        LaunchOutcome::SetupFailed => Reaction::Abort,
        LaunchOutcome::SpawnFailed => Reaction::Proceed,
        LaunchOutcome::Spawned => Reaction::Proceed,
    }
}

impl Platform {
    /// The platform for the name of an operating system, as the toolchain spells it.
    pub fn from_os_name(os_name: &str) -> (platform: Platform)
        ensures
            platform == platform_of(os_name@),
    {
        if same_text(os_name, WINDOWS_OS_NAME) {
            Platform::Windows
        } else {
            Platform::Other
        }
    }
}

/// The file name of the backend executable to launch on `platform`.
pub fn sidecar_binary(platform: Platform) -> (name: &'static str)
    ensures
        name@ == sidecar_name(platform),
{
    match platform {
        Platform::Windows => SIDECAR_WINDOWS,
        Platform::Other => SIDECAR_OTHER,
    }
}

/// Decides how the application goes on after the launch attempt ended in `outcome`.
pub fn react(outcome: LaunchOutcome) -> (reaction: Reaction)
    ensures
        reaction == reaction_to(outcome),
{
    match outcome {
        LaunchOutcome::SetupFailed => Reaction::Abort,
        LaunchOutcome::SpawnFailed => Reaction::Proceed,
        LaunchOutcome::Spawned => Reaction::Proceed,
    }
}

/// The backend is `lca-backend.exe` on Windows and `lca-backend` on every other platform, so
/// the name on Windows is the other name with `.exe` behind it.
pub proof fn sidecar_name_by_platform()
    ensures
        sidecar_name(Platform::Windows) == sidecar_name(Platform::Other) + ".exe"@,
        forall|platform: Platform|
            platform != Platform::Windows ==> #[trigger] sidecar_name(platform) == "lca-backend"@,
        sidecar_name(Platform::Windows) == "lca-backend.exe"@,
{
    reveal_strlit("lca-backend");
    reveal_strlit("lca-backend.exe");
    reveal_strlit(".exe");
    assert(sidecar_name(Platform::Windows) =~= sidecar_name(Platform::Other) + ".exe"@);
}

} // verus!
