//! Planning and reporting the launch of a shortcut target.
//!
//! The strategy is chosen once at startup from the host platform: spawn the
//! target directly as a command, hand it to the platform's default-open
//! mechanism, or refuse on an unsupported platform. The spawn itself is the
//! host's: it performs the OS call without waiting for the child to exit and
//! hands the outcome back here, where it becomes a `LaunchResult`. A failed
//! launch is reported, never swallowed, and never unwinds past its origin.

use vstd::prelude::*;
use vstd::string::StringExecFns;

verus! {

/// The host platform, read once at startup.
#[derive(Clone, Copy, Debug, PartialEq, Eq, Structural)]
pub enum Platform {
    Windows,
    MacOs,
    Linux,
    Other,
}

/// How a target is launched on the chosen platform.
#[derive(Clone, Copy, Debug, PartialEq, Eq, Structural)]
pub enum LaunchStrategy {
    /// Run the target directly as a command, with no shell interpretation.
    DirectSpawn,
    /// Hand the target to the platform's default-application open mechanism.
    DefaultOpen,
    /// No launch mechanism on this platform: every attempt is refused.
    Unsupported,
}

/// The outcome of one launch attempt: `success` means the spawn call itself
/// succeeded, not that the target ran to completion.
pub struct LaunchResult {
    pub success: bool,
    pub diagnostic: Option<String>,
}

/// The strategy each platform gets: a direct spawn where commands run as
/// given, the default-open mechanism on the platform whose convention is to
/// open targets by association, and a refusal elsewhere.
pub open spec fn strategy_for(p: Platform) -> LaunchStrategy {
    match p {
        Platform::Windows => LaunchStrategy::DirectSpawn,
        Platform::Linux => LaunchStrategy::DirectSpawn,
        Platform::MacOs => LaunchStrategy::DefaultOpen,
        Platform::Other => LaunchStrategy::Unsupported,
    }
}

/// The diagnostic a failed spawn produces from the OS error text.
pub open spec fn spawn_failure_diagnostic(err: Seq<char>) -> Seq<char> {
    "failed to launch target: "@ + err
}

/// Chooses the launch strategy for the host platform. Called once at
/// startup; the choice is not re-queried per launch.
pub fn plan_launch(p: &Platform) -> (r: LaunchStrategy)
    ensures
        r == strategy_for(*p),
{
    match p {
        Platform::Windows => LaunchStrategy::DirectSpawn,
        Platform::Linux => LaunchStrategy::DirectSpawn,
        Platform::MacOs => LaunchStrategy::DefaultOpen,
        Platform::Other => LaunchStrategy::Unsupported,
    }
}

/// Turns the outcome of a spawn call into a `LaunchResult`: success exactly
/// when the spawn succeeded, and a non-empty diagnostic naming the OS error
/// whenever it did not.
pub fn launch_result(outcome: Result<(), String>) -> (r: LaunchResult)
    ensures
        r.success <==> outcome is Ok,
        outcome is Ok ==> r.diagnostic is None,
        outcome matches Err(e) ==> r.diagnostic matches Some(d) && d@ == spawn_failure_diagnostic(
            e@,
        ),
        !r.success ==> (r.diagnostic matches Some(d) && d@.len() > 0),
    {
    match outcome {
        Ok(_) => LaunchResult { success: true, diagnostic: None },
        Err(e) => {
            proof {
                reveal_strlit("failed to launch target: ");
            }
            let mut d = String::from_str("failed to launch target: ");
            d.append(e.as_str());
            LaunchResult { success: false, diagnostic: Some(d) }
        },
    }
}

/// The result of an attempt on an unsupported platform: an immediate,
/// diagnosed failure, with no spawn attempted.
pub fn unsupported_launch() -> (r: LaunchResult)
    ensures
        !r.success,
        r.diagnostic matches Some(d) && d@ == "unsupported platform: cannot launch targets"@,
        r.diagnostic matches Some(d) && d@.len() > 0,
{
    proof {
        reveal_strlit("unsupported platform: cannot launch targets");
    }
    LaunchResult {
        success: false,
        diagnostic: Some(String::from_str("unsupported platform: cannot launch targets")),
    }
}

/// A fatal startup failure: the keyboard state could not be queried, so the
/// observer can never report a hotkey. The process must exit with this
/// diagnostic rather than silently report no keys pressed forever.
pub struct StartupError {
    pub diagnostic: String,
}

/// Builds the startup error for an unavailable keyboard-state source,
/// wrapping the host's detail in a non-empty diagnostic.
pub fn keyboard_unavailable(detail: String) -> (r: StartupError)
    ensures
        r.diagnostic@ == "keyboard state unavailable: "@ + detail@,
        r.diagnostic@.len() > 0,
{
    proof {
        reveal_strlit("keyboard state unavailable: ");
    }
    let mut d = String::from_str("keyboard state unavailable: ");
    d.append(detail.as_str());
    StartupError { diagnostic: d }
}

} // verus!
