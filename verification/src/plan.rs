use vstd::prelude::*;
use vstd::string::StringExecFns;

verus! {

/// The name of the program that this launcher starts.
pub open spec fn hub_program() -> Seq<char> {
    "agent-hub"@
}

/// The single argument handed to the launched program.
pub open spec fn start_arg() -> Seq<char> {
    "start"@
}

/// Creation flag that places the child in a fresh process group, so that
/// console-control events delivered to the caller's group do not reach it.
pub const CREATE_NEW_PROCESS_GROUP: u32 = 0x0000_0200;

/// Creation flag that suppresses allocation of a console window for the child.
pub const CREATE_NO_WINDOW: u32 = 0x0800_0000;

/// Both creation flags combined: the whole detachment policy on the platform
/// that detaches through creation flags rather than sessions.
pub const WINDOWS_DETACH_FLAGS: u32 = CREATE_NEW_PROCESS_GROUP | CREATE_NO_WINDOW;

/// The two operating-system families the launcher tells apart. The choice is
/// made once, at build time, by the embedding application; it never changes
/// at run time.
#[derive(Clone, Copy, Debug, PartialEq, Eq, Structural)]
pub enum Platform {
    /// Session semantics are available: a child can become a session leader.
    Posix,
    /// No session primitive: detachment goes through process-creation flags.
    Windows,
}

/// Where a standard stream of the child is connected.
#[derive(Clone, Copy, Debug, PartialEq, Eq, Structural)]
pub enum StreamPolicy {
    /// A discard sink: accepts and drops everything written, never errors.
    Discard,
    /// The corresponding stream of the caller.
    Inherit,
}

/// How the child is severed from the caller's session and process group.
#[derive(Clone, Copy, Debug, PartialEq, Eq, Structural)]
pub enum DetachPolicy {
    /// Make the child a session leader, with no controlling terminal, in the
    /// window after process duplication and before the new image is loaded.
    NewSession,
    /// Create the child with these process-creation flags set.
    CreationFlags(u32),
}

/// Whether a detach policy severs the child from the caller on the given
/// platform: a new session where sessions exist; otherwise creation flags
/// that both start a new process group and withhold a console window.
pub open spec fn detaches_on(d: DetachPolicy, platform: Platform) -> bool {
    match platform {
        Platform::Posix => d is NewSession,
        Platform::Windows => {
            &&& d matches DetachPolicy::CreationFlags(f)
            &&& f & CREATE_NEW_PROCESS_GROUP == CREATE_NEW_PROCESS_GROUP
            &&& f & CREATE_NO_WINDOW == CREATE_NO_WINDOW
        },
    }
}

/// The detach policy selected for each platform.
pub open spec fn platform_detach_policy(platform: Platform) -> DetachPolicy {
    match platform {
        Platform::Posix => DetachPolicy::NewSession,
        Platform::Windows => DetachPolicy::CreationFlags(WINDOWS_DETACH_FLAGS),
    }
}

/// On either platform the selected policy detaches: a new session on the
/// POSIX family, and on the other family creation flags that place the child
/// in a new process group and give it no console window.
pub proof fn lemma_platform_policy_detaches(platform: Platform)
    ensures
        detaches_on(platform_detach_policy(platform), platform),
{
    match platform {
        Platform::Posix => {},
        Platform::Windows => {
            assert((0x0000_0200u32 | 0x0800_0000u32) & 0x0000_0200u32 == 0x0000_0200u32)
                by (bit_vector);
            assert((0x0000_0200u32 | 0x0800_0000u32) & 0x0800_0000u32 == 0x0800_0000u32)
                by (bit_vector);
        },
    }
}

/// Picks the detach policy for the platform the caller was built for.
pub fn detach_policy_for(platform: Platform) -> (d: DetachPolicy)
    ensures
        d == platform_detach_policy(platform),
        detaches_on(d, platform),
{
    proof {
        lemma_platform_policy_detaches(platform);
    }
    match platform {
        Platform::Posix => DetachPolicy::NewSession,
        Platform::Windows => DetachPolicy::CreationFlags(WINDOWS_DETACH_FLAGS),
    }
}

/// One process-launch request: everything the spawn call needs. It exists
/// for a single invocation; no handle to the child outlives the call.
pub struct LaunchPlan {
    /// Name of the executable, resolved through the normal search path.
    pub program: String,
    /// The fixed argument list.
    pub args: Vec<String>,
    /// Where the child's standard output goes.
    pub stdout: StreamPolicy,
    /// Where the child's standard error goes.
    pub stderr: StreamPolicy,
    /// How the child is severed from the caller.
    pub detach: DetachPolicy,
}

impl LaunchPlan {
    /// The plan runs `<program> start`, discards both output streams, and
    /// detaches the child on the given platform.
    pub open spec fn is_detached_start(self, program: Seq<char>, platform: Platform) -> bool {
        &&& self.program@ == program
        &&& self.args@.len() == 1
        &&& self.args@[0]@ == start_arg()
        &&& self.stdout is Discard
        &&& self.stderr is Discard
        &&& detaches_on(self.detach, platform)
    }
}

/// Builds the launch request for one executable: `<executable_name> start`,
/// both output streams discarded, detached according to the platform.
pub fn launch_plan(executable_name: &str, platform: Platform) -> (p: LaunchPlan)
    ensures
        p.program@ == executable_name@,
        p.detach == platform_detach_policy(platform),
        p.is_detached_start(executable_name@, platform),
{
    let program = String::from_str(executable_name);
    let mut args: Vec<String> = Vec::new();
    args.push(String::from_str("start"));
    LaunchPlan {
        program,
        args,
        stdout: StreamPolicy::Discard,
        stderr: StreamPolicy::Discard,
        detach: detach_policy_for(platform),
    }
}

/// The fixed request of this launcher: run `agent-hub start`, output
/// discarded, detached from the caller.
pub fn hub_launch_plan(platform: Platform) -> (p: LaunchPlan)
    ensures
        p.program@ == hub_program(),
        p.detach == platform_detach_policy(platform),
        p.is_detached_start(hub_program(), platform),
{
    launch_plan("agent-hub", platform)
}

} // verus!
