//! Launching a locked application past IFEO, and protecting the service's own process.
//!
//! As for the service operations, each operation is a protocol over the outcomes of
//! the Windows calls made so far; a driver performs the calls.
use crate::text::{contains_seq, contains_str};
use vstd::prelude::*;

verus! {

/// How long to wait for the first debug event of a launched process, in milliseconds.
pub const DEBUG_EVENT_TIMEOUT_MILLIS: u32 = 2000;

/// Security descriptor for the service process: deny `PROCESS_TERMINATE` and
/// `PROCESS_SUSPEND_RESUME` to everyone, full access to SYSTEM, read access to
/// administrators.
pub const PROCESS_SDDL: &'static str = "D:P(D;;0x0801;;;WD)(A;;0x1201FF;;;SY)(A;;0x120155;;;BA)";

/// A call for the driver to make.
#[derive(Debug, Clone, PartialEq, Eq)]
pub enum ProcessCall {
    /// `CreateProcessW` with this command line, inheriting handles, as
    /// `DEBUG_ONLY_THIS_PROCESS` (IFEO does not apply to processes started under a
    /// debugger); the outcome carries the process id.
    CreateDebugged { command_line: String },
    /// `DebugSetProcessKillOnExit(FALSE)`.
    KeepAliveOnDetach,
    /// `WaitForDebugEvent` with this timeout.
    WaitForDebugEvent { timeout_millis: u32 },
    /// `ContinueDebugEvent(DBG_CONTINUE)` for the event just received.
    ContinueDebugEvent,
    /// `DebugActiveProcessStop` on the process, then close its handles.
    DetachDebugger { process_id: u32 },
    /// `ConvertStringSecurityDescriptorToSecurityDescriptorW(PROCESS_SDDL)`.
    BuildProcessDescriptor,
    /// `SetKernelObjectSecurity(GetCurrentProcess(), DACL_SECURITY_INFORMATION, ..)`.
    ApplyProcessDescriptor,
}

/// What a call gave back.
#[derive(Debug, Clone, PartialEq, Eq)]
pub enum OsOutcome {
    /// It succeeded (with a process id where the call yields one, 0 otherwise).
    Done { value: u32 },
    /// It failed with this message.
    Failed { message: String },
}

/// Why a process operation failed.
#[derive(Debug, Clone, PartialEq, Eq)]
pub enum ProcessError {
    /// `CreateProcessW` failed.
    LaunchFailed(String),
    /// The security descriptor could not be built.
    DescriptorFailed(String),
    /// The security descriptor could not be applied.
    ApplyFailed(String),
}

/// The next step of a protocol.
#[derive(Debug, Clone, PartialEq, Eq)]
pub enum ProcessNext<T> {
    /// Make this call and append its outcome.
    Call(ProcessCall),
    /// The operation's result.
    Finish(T),
}

/// An argument as placed on the command line: quoted when it holds a space.
pub open spec fn quoted_arg(a: Seq<char>) -> Seq<char> {
    if contains_seq(a, " "@) {
        "\""@ + a + "\""@
    } else {
        a
    }
}

/// The command line for an application and its arguments: the quoted path, then each
/// argument after a space.
pub open spec fn command_line(app_path: Seq<char>, args: Seq<Seq<char>>) -> Seq<char>
    decreases args.len(),
{
    if args.len() == 0 {
        "\""@ + app_path + "\""@
    } else {
        command_line(app_path, args.drop_last()) + " "@ + quoted_arg(args.last())
    }
}

/// The command line starts with the path in double quotes, and adding an argument, in
/// any position (the first or only one included), appends a space and the argument,
/// wrapped in double quotes exactly when it contains a space.
pub proof fn command_line_quotes_spaced_arguments(
    app_path: Seq<char>,
    args: Seq<Seq<char>>,
    arg: Seq<char>,
)
    ensures
        command_line(app_path, Seq::empty()) == "\""@ + app_path + "\""@,
        contains_seq(arg, " "@) ==> command_line(app_path, args.push(arg)) == command_line(
            app_path,
            args,
        ) + " "@ + "\""@ + arg + "\""@,
        !contains_seq(arg, " "@) ==> command_line(app_path, args.push(arg)) == command_line(
            app_path,
            args,
        ) + " "@ + arg,
{
    assert(args.push(arg).drop_last() =~= args);
}

/// Builds the command line for launching `app_path` with `args`.
pub fn build_command_line(app_path: &str, args: &[String]) -> (r: String)
    ensures
        r@ == command_line(app_path@, args.deep_view()),
{
    let mut line = String::from_str("\"");
    line.append(app_path);
    line.append("\"");
    let n = args.len();
    let mut i: usize = 0;
    while i < n
        invariant
            n == args@.len(),
            i <= n,
            line@ == command_line(app_path@, args.deep_view().take(i as int)),
        decreases n - i,
    {
        proof {
            assert(args.deep_view().take(i + 1).drop_last() =~= args.deep_view().take(i as int));
            assert(args.deep_view().take(i + 1).last() == args@[i as int]@);
        }
        line.append(" ");
        let arg = args[i].as_str();
        if contains_str(arg, " ") {
            line.append("\"");
            line.append(arg);
            line.append("\"");
        } else {
            line.append(arg);
        }
        i = i + 1;
    }
    proof {
        assert(args.deep_view().take(n as int) =~= args.deep_view());
    }
    line
}

/// Whether the call failed.
pub open spec fn os_failed(o: OsOutcome) -> bool {
    o is Failed
}

/// The message of a failed call.
pub open spec fn os_message(o: OsOutcome) -> String {
    match o {
        OsOutcome::Failed { message } => message,
        OsOutcome::Done { .. } => arbitrary(),
    }
}

/// The value a successful call gave (0 where it failed).
pub open spec fn os_value(o: OsOutcome) -> u32 {
    match o {
        OsOutcome::Done { value } => value,
        OsOutcome::Failed { .. } => 0,
    }
}

/// The `launch_bypassing_ifeo` protocol after `CreateProcessW` (whose outcome is
/// `outs[0]`): let the application survive the debugger, consume its first debug event
/// (if one comes within `DEBUG_EVENT_TIMEOUT_MILLIS`), detach, and give its process id.
pub open spec fn launch_after_create(outs: Seq<OsOutcome>) -> ProcessNext<Result<u32, ProcessError>> {
    if os_failed(outs[0]) {
        ProcessNext::Finish(Err(ProcessError::LaunchFailed(os_message(outs[0]))))
    } else if outs.len() == 1 {
        ProcessNext::Call(ProcessCall::KeepAliveOnDetach)
    } else if outs.len() == 2 {
        ProcessNext::Call(ProcessCall::WaitForDebugEvent { timeout_millis: DEBUG_EVENT_TIMEOUT_MILLIS })
    } else if outs.len() == 3 && !os_failed(outs[2]) {
        ProcessNext::Call(ProcessCall::ContinueDebugEvent)
    } else if (outs.len() == 3 && os_failed(outs[2])) || (outs.len() == 4 && !os_failed(outs[2])) {
        ProcessNext::Call(ProcessCall::DetachDebugger { process_id: os_value(outs[0]) })
    } else {
        ProcessNext::Finish(Ok(os_value(outs[0])))
    }
}

/// A launch that succeeds gives the process id that `CreateProcessW` reported, and only
/// after at least four calls (create, keep alive, wait for the event, detach); a failed
/// `CreateProcessW` ends the launch with its message.
pub proof fn launch_returns_created_pid(outs: Seq<OsOutcome>)
    requires
        outs.len() > 0,
    ensures
        launch_after_create(outs) matches ProcessNext::Finish(Ok(pid)) ==> pid == os_value(outs[0])
            && !os_failed(outs[0]) && outs.len() >= 4,
        os_failed(outs[0]) ==> launch_after_create(outs) == ProcessNext::<
            Result<u32, ProcessError>,
        >::Finish(Err(ProcessError::LaunchFailed(os_message(outs[0])))),
{
}

/// The `launch_bypassing_ifeo` protocol: start the application, with the command line
/// `command_line(app_path, args)`, under a debugger so that IFEO does not redirect it,
/// then continue as `launch_after_create`.
pub open spec fn launch_step(
    app_path: Seq<char>,
    args: Seq<Seq<char>>,
    outs: Seq<OsOutcome>,
    next: ProcessNext<Result<u32, ProcessError>>,
) -> bool {
    if outs.len() == 0 {
        next matches ProcessNext::Call(ProcessCall::CreateDebugged { command_line: c }) && c@
            == command_line(app_path, args)
    } else {
        next == launch_after_create(outs)
    }
}

/// The `protect_current_process` protocol: build the descriptor `PROCESS_SDDL` and apply
/// it to the current process.
pub open spec fn protect_next(outs: Seq<OsOutcome>) -> ProcessNext<Result<(), ProcessError>> {
    if outs.len() == 0 {
        ProcessNext::Call(ProcessCall::BuildProcessDescriptor)
    } else if os_failed(outs[0]) {
        ProcessNext::Finish(Err(ProcessError::DescriptorFailed(os_message(outs[0]))))
    } else if outs.len() == 1 {
        ProcessNext::Call(ProcessCall::ApplyProcessDescriptor)
    } else if os_failed(outs[1]) {
        ProcessNext::Finish(Err(ProcessError::ApplyFailed(os_message(outs[1]))))
    } else {
        ProcessNext::Finish(Ok(()))
    }
}

fn is_os_failed(o: &OsOutcome) -> (r: bool)
    ensures
        r == os_failed(*o),
{
    match o {
        OsOutcome::Failed { .. } => true,
        OsOutcome::Done { .. } => false,
    }
}

fn failure_message(o: &OsOutcome) -> (r: String)
    requires
        os_failed(*o),
    ensures
        r == os_message(*o),
{
    match o {
        OsOutcome::Failed { message } => message.clone(),
        OsOutcome::Done { .. } => String::new(),
    }
}

fn value_of(o: &OsOutcome) -> (r: u32)
    ensures
        r == os_value(*o),
{
    match o {
        OsOutcome::Done { value } => *value,
        OsOutcome::Failed { .. } => 0,
    }
}

/// Next step of launching `app_path` with `args` past IFEO.
pub fn launch_bypassing_ifeo(app_path: &str, args: &[String], outcomes: &Vec<OsOutcome>) -> (r:
    ProcessNext<Result<u32, ProcessError>>)
    ensures
        launch_step(app_path@, args.deep_view(), outcomes@, r),
{
    let n = outcomes.len();
    if n == 0 {
        return ProcessNext::Call(
            ProcessCall::CreateDebugged { command_line: build_command_line(app_path, args) },
        );
    }
    if is_os_failed(&outcomes[0]) {
        ProcessNext::Finish(Err(ProcessError::LaunchFailed(failure_message(&outcomes[0]))))
    } else if n == 1 {
        ProcessNext::Call(ProcessCall::KeepAliveOnDetach)
    } else if n == 2 {
        ProcessNext::Call(ProcessCall::WaitForDebugEvent { timeout_millis: DEBUG_EVENT_TIMEOUT_MILLIS })
    } else if n == 3 && !is_os_failed(&outcomes[2]) {
        ProcessNext::Call(ProcessCall::ContinueDebugEvent)
    } else if (n == 3 && is_os_failed(&outcomes[2])) || (n == 4 && !is_os_failed(&outcomes[2])) {
        ProcessNext::Call(ProcessCall::DetachDebugger { process_id: value_of(&outcomes[0]) })
    } else {
        ProcessNext::Finish(Ok(value_of(&outcomes[0])))
    }
}

/// Next step of protecting the current process against termination and suspension.
pub fn protect_current_process(outcomes: &Vec<OsOutcome>) -> (r: ProcessNext<Result<(), ProcessError>>)
    ensures
        r == protect_next(outcomes@),
{
    let n = outcomes.len();
    if n == 0 {
        ProcessNext::Call(ProcessCall::BuildProcessDescriptor)
    } else if is_os_failed(&outcomes[0]) {
        ProcessNext::Finish(Err(ProcessError::DescriptorFailed(failure_message(&outcomes[0]))))
    } else if n == 1 {
        ProcessNext::Call(ProcessCall::ApplyProcessDescriptor)
    } else if is_os_failed(&outcomes[1]) {
        ProcessNext::Finish(Err(ProcessError::ApplyFailed(failure_message(&outcomes[1]))))
    } else {
        ProcessNext::Finish(Ok(()))
    }
}

} // verus!
