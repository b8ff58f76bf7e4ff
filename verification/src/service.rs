//! Managing the Windows service through the Service Control Manager (SCM).
//!
//! Each operation is a protocol: given the outcomes of the SCM calls made so far, in
//! order, it names the next call to make or the operation's result. A driver performs
//! the calls (closing the handles it opened when the operation finishes).
use crate::text::{trim_str, trimmed};
use vstd::prelude::*;

verus! {

/// HRESULT of `ERROR_SERVICE_DOES_NOT_EXIST`.
pub const E_SERVICE_DOES_NOT_EXIST: u32 = 0x80070424;
/// HRESULT of `ERROR_SERVICE_MARKED_FOR_DELETE`.
pub const E_SERVICE_MARKED_FOR_DELETE: u32 = 0x80070430;
/// HRESULT of `ERROR_SERVICE_ALREADY_RUNNING`.
pub const E_SERVICE_ALREADY_RUNNING: u32 = 0x80070420;
/// `SERVICE_STOPPED`.
pub const STATE_STOPPED: u32 = 1;
/// `SERVICE_RUNNING`.
pub const STATE_RUNNING: u32 = 4;
/// How many times `CreateServiceW` is tried while the old service is being deleted.
pub const CREATE_ATTEMPTS: u64 = 15;
/// Pause between those attempts, in milliseconds.
pub const CREATE_RETRY_MILLIS: u64 = 250;
/// How many times the state is polled after a stop.
pub const STOP_POLLS: u64 = 5;
/// Pause between those polls, in milliseconds.
pub const STOP_POLL_MILLIS: u64 = 100;
/// Period after which the SCM resets the failure count of the service, in seconds.
pub const FAILURE_RESET_PERIOD_SECS: u32 = 86400;
/// The number of restart actions (each with no delay) installed for the service.
pub const RESTART_ACTIONS: u32 = 3;
/// Security descriptor installed on the service: SYSTEM may query, start, stop and
/// control it, administrators may also change and delete it; interactive users,
/// service accounts and everyone may only query it, interrogate it and send it
/// user-defined controls (they get no start or stop right).
pub const SERVICE_SDDL: &'static str = "D:(A;;CCLCSWRPWPDTLOCRRC;;;SY)(A;;CCDCLCSWRPWPDTLOCRSDRCWDWO;;;BA)(A;;CCLCSWLOCRRC;;;IU)(A;;CCLCSWLOCRRC;;;SU)(A;;CCLCSWLOCRRC;;;WD)";

/// Access requested when opening a service.
#[derive(Debug, Clone, Copy, PartialEq, Eq)]
pub enum ServiceAccess {
    /// `SERVICE_QUERY_STATUS`
    QueryStatus,
    /// `SERVICE_START`
    Start,
    /// `SERVICE_STOP | SERVICE_QUERY_STATUS`
    StopAndQuery,
    /// `SERVICE_ALL_ACCESS`
    All,
}

/// A call for the driver to make.
#[derive(Debug, Clone, Copy, PartialEq, Eq)]
pub enum ScmCall {
    /// `OpenSCManagerW` with `SC_MANAGER_CONNECT` (and `SC_MANAGER_CREATE_SERVICE` when
    /// `create`).
    OpenManager { create: bool },
    /// `OpenServiceW` on the service.
    OpenService { access: ServiceAccess },
    /// `QueryServiceStatus`; its outcome carries `dwCurrentState`.
    QueryStatus,
    /// `QueryServiceStatusEx`; its outcome carries `dwProcessId` and `dwCurrentState`.
    QueryProcess,
    /// `CreateServiceW` (own process, auto start), then `RESTART_ACTIONS` restart
    /// actions with reset period `FAILURE_RESET_PERIOD_SECS`, failure actions on
    /// non-crash failures, and the DACL `SERVICE_SDDL`.
    CreateService,
    /// `StartServiceW`.
    StartService,
    /// `ControlService(SERVICE_CONTROL_STOP)`.
    ControlStop,
    /// `OpenProcess(PROCESS_TERMINATE)` and `TerminateProcess` on a process.
    TerminateProcess { process_id: u32 },
    /// `DeleteService`.
    DeleteService,
    /// Run the whole `stop_service` protocol on the same service.
    StopService,
    /// Sleep.
    Wait { millis: u64 },
}

/// What a call gave back.
#[derive(Debug, Clone, PartialEq, Eq)]
pub enum ScmOutcome {
    /// It succeeded; status queries fill in the process id and state (0 otherwise).
    Done { process_id: u32, current_state: u32 },
    /// It failed with this HRESULT and message.
    Failed { code: u32, message: String },
}

/// Why a service operation failed.
#[derive(Debug, Clone, PartialEq, Eq)]
pub enum ServiceError {
    /// The service name is empty or blank.
    EmptyName,
    /// The Service Control Manager could not be opened.
    ManagerUnavailable(String),
    /// The service could not be opened.
    OpenFailed(String),
    /// The service could not be created.
    CreateFailed(String),
    /// The service is still marked for deletion after all attempts.
    MarkedForDeletion,
    /// The service could not be started.
    StartFailed(String),
    /// The service could not be deleted.
    DeleteFailed(String),
}

/// The next step of a protocol.
#[derive(Debug, Clone, PartialEq, Eq)]
pub enum ScmNext<T> {
    /// Make this call and append its outcome.
    Call(ScmCall),
    /// The operation's result.
    Finish(T),
}

/// A blank service name: nothing left once white space is trimmed.
pub open spec fn blank(name: Seq<char>) -> bool {
    trimmed(name).len() == 0
}

/// Whether the call failed.
pub open spec fn failed(o: ScmOutcome) -> bool {
    o is Failed
}

/// The call failed with one of these codes.
pub open spec fn failed_with(o: ScmOutcome, code: u32) -> bool {
    o matches ScmOutcome::Failed { code: c, .. } && c == code
}

/// The service is gone or about to be: opening or deleting it reports that it does not
/// exist or is marked for deletion.
pub open spec fn already_gone(o: ScmOutcome) -> bool {
    failed_with(o, E_SERVICE_DOES_NOT_EXIST) || failed_with(o, E_SERVICE_MARKED_FOR_DELETE)
}

/// The message of a failed call.
pub open spec fn message_of(o: ScmOutcome) -> String {
    match o {
        ScmOutcome::Failed { message, .. } => message,
        ScmOutcome::Done { .. } => arbitrary(),
    }
}

/// A status query that reported this state.
pub open spec fn reports_state(o: ScmOutcome, state: u32) -> bool {
    o matches ScmOutcome::Done { current_state, .. } && current_state == state
}

/// The process id reported by a status query (0 where it failed).
pub open spec fn process_of(o: ScmOutcome) -> u32 {
    match o {
        ScmOutcome::Done { process_id, .. } => process_id,
        ScmOutcome::Failed { .. } => 0,
    }
}

/// The `is_service_installed` protocol: the service can be opened for status queries.
pub open spec fn installed_next(name: Seq<char>, outs: Seq<ScmOutcome>) -> ScmNext<bool> {
    if blank(name) {
        ScmNext::Finish(false)
    } else if outs.len() == 0 {
        ScmNext::Call(ScmCall::OpenManager { create: false })
    } else if failed(outs[0]) {
        ScmNext::Finish(false)
    } else if outs.len() == 1 {
        ScmNext::Call(ScmCall::OpenService { access: ServiceAccess::QueryStatus })
    } else {
        ScmNext::Finish(!failed(outs[1]))
    }
}

/// The `is_service_running` protocol: the service's state is `SERVICE_RUNNING`.
pub open spec fn running_next(name: Seq<char>, outs: Seq<ScmOutcome>) -> ScmNext<bool> {
    if blank(name) {
        ScmNext::Finish(false)
    } else if outs.len() == 0 {
        ScmNext::Call(ScmCall::OpenManager { create: false })
    } else if failed(outs[0]) {
        ScmNext::Finish(false)
    } else if outs.len() == 1 {
        ScmNext::Call(ScmCall::OpenService { access: ServiceAccess::QueryStatus })
    } else if failed(outs[1]) {
        ScmNext::Finish(false)
    } else if outs.len() == 2 {
        ScmNext::Call(ScmCall::QueryStatus)
    } else {
        ScmNext::Finish(reports_state(outs[2], STATE_RUNNING))
    }
}

/// The `start_service` protocol: an already running service counts as started.
pub open spec fn start_next(name: Seq<char>, outs: Seq<ScmOutcome>) -> ScmNext<
    Result<(), ServiceError>,
> {
    if blank(name) {
        ScmNext::Finish(Err(ServiceError::EmptyName))
    } else if outs.len() == 0 {
        ScmNext::Call(ScmCall::OpenManager { create: false })
    } else if failed(outs[0]) {
        ScmNext::Finish(Err(ServiceError::ManagerUnavailable(message_of(outs[0]))))
    } else if outs.len() == 1 {
        ScmNext::Call(ScmCall::OpenService { access: ServiceAccess::Start })
    } else if failed(outs[1]) {
        ScmNext::Finish(Err(ServiceError::OpenFailed(message_of(outs[1]))))
    } else if outs.len() == 2 {
        ScmNext::Call(ScmCall::StartService)
    } else if !failed(outs[2]) || failed_with(outs[2], E_SERVICE_ALREADY_RUNNING) {
        ScmNext::Finish(Ok(()))
    } else {
        ScmNext::Finish(Err(ServiceError::StartFailed(message_of(outs[2]))))
    }
}

/// Where the polling after a stop starts: after the terminate call when the service
/// reported a process.
pub open spec fn stop_poll_base(outs: Seq<ScmOutcome>) -> int {
    if process_of(outs[3]) > 0 {
        5
    } else {
        4
    }
}

/// The `stop_service` protocol: ask the service to stop, terminate its process, and
/// poll its state (at most `STOP_POLLS` times, `STOP_POLL_MILLIS` apart) until it
/// reports `SERVICE_STOPPED`. A service that does not exist, or is marked for
/// deletion, counts as stopped.
pub open spec fn stop_next(name: Seq<char>, outs: Seq<ScmOutcome>) -> ScmNext<
    Result<(), ServiceError>,
> {
    if blank(name) {
        ScmNext::Finish(Err(ServiceError::EmptyName))
    } else if outs.len() == 0 {
        ScmNext::Call(ScmCall::OpenManager { create: false })
    } else if failed(outs[0]) {
        ScmNext::Finish(Err(ServiceError::ManagerUnavailable(message_of(outs[0]))))
    } else if outs.len() == 1 {
        ScmNext::Call(ScmCall::OpenService { access: ServiceAccess::StopAndQuery })
    } else if already_gone(outs[1]) {
        ScmNext::Finish(Ok(()))
    } else if failed(outs[1]) {
        ScmNext::Finish(Err(ServiceError::OpenFailed(message_of(outs[1]))))
    } else if outs.len() == 2 {
        ScmNext::Call(ScmCall::ControlStop)
    } else if outs.len() == 3 {
        ScmNext::Call(ScmCall::QueryProcess)
    } else if outs.len() == 4 && process_of(outs[3]) > 0 {
        ScmNext::Call(ScmCall::TerminateProcess { process_id: process_of(outs[3]) })
    } else {
        let polled = outs.len() - stop_poll_base(outs);
        if polled % 2 == 1 {
            if reports_state(outs.last(), STATE_STOPPED) {
                ScmNext::Finish(Ok(()))
            } else {
                ScmNext::Call(ScmCall::Wait { millis: STOP_POLL_MILLIS })
            }
        } else if polled / 2 >= STOP_POLLS {
            ScmNext::Finish(Ok(()))
        } else {
            ScmNext::Call(ScmCall::QueryProcess)
        }
    }
}

/// The `uninstall_service` protocol: stop the service, then delete it. A service that
/// does not exist, or is already marked for deletion, counts as uninstalled.
pub open spec fn uninstall_next(name: Seq<char>, outs: Seq<ScmOutcome>) -> ScmNext<
    Result<(), ServiceError>,
> {
    if blank(name) {
        ScmNext::Finish(Err(ServiceError::EmptyName))
    } else if outs.len() == 0 {
        ScmNext::Call(ScmCall::StopService)
    } else if outs.len() == 1 {
        ScmNext::Call(ScmCall::OpenManager { create: false })
    } else if failed(outs[1]) {
        ScmNext::Finish(Err(ServiceError::ManagerUnavailable(message_of(outs[1]))))
    } else if outs.len() == 2 {
        ScmNext::Call(ScmCall::OpenService { access: ServiceAccess::All })
    } else if already_gone(outs[2]) {
        ScmNext::Finish(Ok(()))
    } else if failed(outs[2]) {
        ScmNext::Finish(Err(ServiceError::OpenFailed(message_of(outs[2]))))
    } else if outs.len() == 3 {
        ScmNext::Call(ScmCall::DeleteService)
    } else if !failed(outs[3]) || already_gone(outs[3]) {
        ScmNext::Finish(Ok(()))
    } else {
        ScmNext::Finish(Err(ServiceError::DeleteFailed(message_of(outs[3]))))
    }
}

/// The `install_service` protocol: create the service, retrying (at most
/// `CREATE_ATTEMPTS` times, `CREATE_RETRY_MILLIS` apart) while an old instance is still
/// marked for deletion.
pub open spec fn install_next(name: Seq<char>, outs: Seq<ScmOutcome>) -> ScmNext<
    Result<(), ServiceError>,
> {
    if blank(name) {
        ScmNext::Finish(Err(ServiceError::EmptyName))
    } else if outs.len() == 0 {
        ScmNext::Call(ScmCall::OpenManager { create: true })
    } else if failed(outs[0]) {
        ScmNext::Finish(Err(ServiceError::ManagerUnavailable(message_of(outs[0]))))
    } else if outs.len() % 2 == 1 {
        if outs.len() / 2 >= CREATE_ATTEMPTS {
            ScmNext::Finish(Err(ServiceError::MarkedForDeletion))
        } else {
            ScmNext::Call(ScmCall::CreateService)
        }
    } else {
        let created = outs.last();
        if !failed(created) {
            ScmNext::Finish(Ok(()))
        } else if failed_with(created, E_SERVICE_MARKED_FOR_DELETE) {
            ScmNext::Call(ScmCall::Wait { millis: CREATE_RETRY_MILLIS })
        } else {
            ScmNext::Finish(Err(ServiceError::CreateFailed(message_of(created))))
        }
    }
}

/// Stopping a service that is reported missing or marked for deletion succeeds, and
/// starting one that is already running succeeds.
pub proof fn stop_and_start_are_idempotent(name: Seq<char>, outs: Seq<ScmOutcome>)
    requires
        !blank(name),
        !failed(outs[0]),
    ensures
        outs.len() == 2 && already_gone(outs[1]) ==> stop_next(name, outs) == ScmNext::<
            Result<(), ServiceError>,
        >::Finish(Ok(())),
        outs.len() == 3 && !failed(outs[1]) && failed_with(outs[2], E_SERVICE_ALREADY_RUNNING)
            ==> start_next(name, outs) == ScmNext::<Result<(), ServiceError>>::Finish(Ok(())),
{
}

/// A blank name is refused before any call is made.
pub proof fn blank_names_make_no_call(name: Seq<char>, outs: Seq<ScmOutcome>)
    requires
        blank(name),
    ensures
        installed_next(name, outs) == ScmNext::<bool>::Finish(false),
        running_next(name, outs) == ScmNext::<bool>::Finish(false),
        start_next(name, outs) == ScmNext::<Result<(), ServiceError>>::Finish(
            Err(ServiceError::EmptyName),
        ),
        stop_next(name, outs) == ScmNext::<Result<(), ServiceError>>::Finish(
            Err(ServiceError::EmptyName),
        ),
        uninstall_next(name, outs) == ScmNext::<Result<(), ServiceError>>::Finish(
            Err(ServiceError::EmptyName),
        ),
        install_next(name, outs) == ScmNext::<Result<(), ServiceError>>::Finish(
            Err(ServiceError::EmptyName),
        ),
{
}

/// A service found running is installed: on the outcomes of the two calls both
/// protocols make first, `is_service_installed` answers `true` wherever
/// `is_service_running` does.
pub proof fn running_implies_installed(name: Seq<char>, outs: Seq<ScmOutcome>)
    requires
        running_next(name, outs) == ScmNext::<bool>::Finish(true),
    ensures
        installed_next(name, outs.take(2)) == ScmNext::<bool>::Finish(true),
{
}

/// Uninstalling a service that is reported missing or already marked for deletion
/// succeeds, so uninstalling twice succeeds the second time too.
pub proof fn uninstall_of_gone_service_succeeds(name: Seq<char>, outs: Seq<ScmOutcome>)
    requires
        !blank(name),
        outs.len() == 3,
        !failed(outs[1]),
        already_gone(outs[2]),
    ensures
        uninstall_next(name, outs) == ScmNext::<Result<(), ServiceError>>::Finish(Ok(())),
{
}

/// `outs` is a history the protocol `next` can produce: before each outcome, the
/// protocol asked for a call.
pub open spec fn is_run<T>(next: spec_fn(Seq<ScmOutcome>) -> ScmNext<T>, outs: Seq<ScmOutcome>) -> bool {
    forall|k: int| 0 <= k < outs.len() ==> #[trigger] next(outs.take(k)) is Call
}

/// `install_service` tries `CreateServiceW` at most `CREATE_ATTEMPTS` times: no run is
/// longer than the manager call plus that many attempts and pauses.
pub proof fn install_runs_are_bounded(name: Seq<char>, outs: Seq<ScmOutcome>)
    requires
        is_run(|o: Seq<ScmOutcome>| install_next(name, o), outs),
    ensures
        outs.len() <= 1 + 2 * CREATE_ATTEMPTS,
{
    let next = |o: Seq<ScmOutcome>| install_next(name, o);
    if outs.len() > 1 + 2 * CREATE_ATTEMPTS {
        let k = 1 + 2 * CREATE_ATTEMPTS as int;
        assert(next(outs.take(k)) is Call);
        assert(next(outs.take(0)) is Call);
        assert(outs.take(k)[0] == outs[0]);
        assert(outs.take(1) =~= seq![outs[0]]);
        assert(next(outs.take(1)) is Call);
    }
}

/// `stop_service` polls the state at most `STOP_POLLS` times: no run is longer than
/// the fixed calls plus that many polls and pauses.
pub proof fn stop_runs_are_bounded(name: Seq<char>, outs: Seq<ScmOutcome>)
    requires
        is_run(|o: Seq<ScmOutcome>| stop_next(name, o), outs),
    ensures
        outs.len() <= 5 + 2 * STOP_POLLS,
{
    let next = |o: Seq<ScmOutcome>| stop_next(name, o);
    if outs.len() > 5 + 2 * STOP_POLLS {
        assert(next(outs.take(0)) is Call);
        assert(next(outs.take(1)) is Call);
        assert(outs.take(1)[0] == outs[0]);
        assert(next(outs.take(2)) is Call);
        assert(outs.take(2)[1] == outs[1]);
        let b = stop_poll_base(outs);
        let k = b + 2 * STOP_POLLS as int;
        assert(outs.take(k)[3] == outs[3]);
        assert(outs.take(k)[0] == outs[0]);
        assert(outs.take(k)[1] == outs[1]);
        assert(stop_poll_base(outs.take(k)) == b);
        assert(next(outs.take(k)) is Call);
    }
}

/// Whether a service name is blank.
pub fn is_blank_name(name: &str) -> (r: bool)
    ensures
        r == blank(name@),
{
    trim_str(name).is_empty()
}

fn is_failed(o: &ScmOutcome) -> (r: bool)
    ensures
        r == failed(*o),
{
    match o {
        ScmOutcome::Failed { .. } => true,
        ScmOutcome::Done { .. } => false,
    }
}

fn is_failed_with(o: &ScmOutcome, code: u32) -> (r: bool)
    ensures
        r == failed_with(*o, code),
{
    match o {
        ScmOutcome::Failed { code: c, .. } => *c == code,
        ScmOutcome::Done { .. } => false,
    }
}

fn is_gone(o: &ScmOutcome) -> (r: bool)
    ensures
        r == already_gone(*o),
{
    is_failed_with(o, E_SERVICE_DOES_NOT_EXIST) || is_failed_with(o, E_SERVICE_MARKED_FOR_DELETE)
}

fn message(o: &ScmOutcome) -> (r: String)
    requires
        failed(*o),
    ensures
        r == message_of(*o),
{
    match o {
        ScmOutcome::Failed { message, .. } => message.clone(),
        ScmOutcome::Done { .. } => String::new(),
    }
}

fn state_is(o: &ScmOutcome, state: u32) -> (r: bool)
    ensures
        r == reports_state(*o, state),
{
    match o {
        ScmOutcome::Done { current_state, .. } => *current_state == state,
        ScmOutcome::Failed { .. } => false,
    }
}

fn process_id(o: &ScmOutcome) -> (r: u32)
    ensures
        r == process_of(*o),
{
    match o {
        ScmOutcome::Done { process_id, .. } => *process_id,
        ScmOutcome::Failed { .. } => 0,
    }
}

/// Next step of `is_service_installed`: whether the service can be opened.
pub fn is_service_installed(service_name: &str, outcomes: &Vec<ScmOutcome>) -> (r: ScmNext<bool>)
    ensures
        r == installed_next(service_name@, outcomes@),
{
    if is_blank_name(service_name) {
        ScmNext::Finish(false)
    } else if outcomes.len() == 0 {
        ScmNext::Call(ScmCall::OpenManager { create: false })
    } else if is_failed(&outcomes[0]) {
        ScmNext::Finish(false)
    } else if outcomes.len() == 1 {
        ScmNext::Call(ScmCall::OpenService { access: ServiceAccess::QueryStatus })
    } else {
        ScmNext::Finish(!is_failed(&outcomes[1]))
    }
}

/// Next step of `is_service_running`: whether the service reports `SERVICE_RUNNING`.
pub fn is_service_running(service_name: &str, outcomes: &Vec<ScmOutcome>) -> (r: ScmNext<bool>)
    ensures
        r == running_next(service_name@, outcomes@),
{
    if is_blank_name(service_name) {
        ScmNext::Finish(false)
    } else if outcomes.len() == 0 {
        ScmNext::Call(ScmCall::OpenManager { create: false })
    } else if is_failed(&outcomes[0]) {
        ScmNext::Finish(false)
    } else if outcomes.len() == 1 {
        ScmNext::Call(ScmCall::OpenService { access: ServiceAccess::QueryStatus })
    } else if is_failed(&outcomes[1]) {
        ScmNext::Finish(false)
    } else if outcomes.len() == 2 {
        ScmNext::Call(ScmCall::QueryStatus)
    } else {
        ScmNext::Finish(state_is(&outcomes[2], STATE_RUNNING))
    }
}

/// Next step of `start_service`.
pub fn start_service(service_name: &str, outcomes: &Vec<ScmOutcome>) -> (r: ScmNext<
    Result<(), ServiceError>,
>)
    ensures
        r == start_next(service_name@, outcomes@),
{
    if is_blank_name(service_name) {
        ScmNext::Finish(Err(ServiceError::EmptyName))
    } else if outcomes.len() == 0 {
        ScmNext::Call(ScmCall::OpenManager { create: false })
    } else if is_failed(&outcomes[0]) {
        ScmNext::Finish(Err(ServiceError::ManagerUnavailable(message(&outcomes[0]))))
    } else if outcomes.len() == 1 {
        ScmNext::Call(ScmCall::OpenService { access: ServiceAccess::Start })
    } else if is_failed(&outcomes[1]) {
        ScmNext::Finish(Err(ServiceError::OpenFailed(message(&outcomes[1]))))
    } else if outcomes.len() == 2 {
        ScmNext::Call(ScmCall::StartService)
    } else if !is_failed(&outcomes[2]) || is_failed_with(&outcomes[2], E_SERVICE_ALREADY_RUNNING) {
        ScmNext::Finish(Ok(()))
    } else {
        ScmNext::Finish(Err(ServiceError::StartFailed(message(&outcomes[2]))))
    }
}

/// Next step of `stop_service`.
pub fn stop_service(service_name: &str, outcomes: &Vec<ScmOutcome>) -> (r: ScmNext<
    Result<(), ServiceError>,
>)
    ensures
        r == stop_next(service_name@, outcomes@),
{
    let n = outcomes.len();
    if is_blank_name(service_name) {
        ScmNext::Finish(Err(ServiceError::EmptyName))
    } else if n == 0 {
        ScmNext::Call(ScmCall::OpenManager { create: false })
    } else if is_failed(&outcomes[0]) {
        ScmNext::Finish(Err(ServiceError::ManagerUnavailable(message(&outcomes[0]))))
    } else if n == 1 {
        ScmNext::Call(ScmCall::OpenService { access: ServiceAccess::StopAndQuery })
    } else if is_gone(&outcomes[1]) {
        ScmNext::Finish(Ok(()))
    } else if is_failed(&outcomes[1]) {
        ScmNext::Finish(Err(ServiceError::OpenFailed(message(&outcomes[1]))))
    } else if n == 2 {
        ScmNext::Call(ScmCall::ControlStop)
    } else if n == 3 {
        ScmNext::Call(ScmCall::QueryProcess)
    } else {
        let pid = process_id(&outcomes[3]);
        if n == 4 && pid > 0 {
            ScmNext::Call(ScmCall::TerminateProcess { process_id: pid })
        } else {
            let base: usize = if pid > 0 {
                5
            } else {
                4
            };
            let polled = n - base;
            if polled % 2 == 1 {
                if state_is(&outcomes[n - 1], STATE_STOPPED) {
                    ScmNext::Finish(Ok(()))
                } else {
                    ScmNext::Call(ScmCall::Wait { millis: STOP_POLL_MILLIS })
                }
            } else if (polled / 2) as u64 >= STOP_POLLS {
                ScmNext::Finish(Ok(()))
            } else {
                ScmNext::Call(ScmCall::QueryProcess)
            }
        }
    }
}

/// Next step of `uninstall_service`.
pub fn uninstall_service(service_name: &str, outcomes: &Vec<ScmOutcome>) -> (r: ScmNext<
    Result<(), ServiceError>,
>)
    ensures
        r == uninstall_next(service_name@, outcomes@),
{
    let n = outcomes.len();
    if is_blank_name(service_name) {
        ScmNext::Finish(Err(ServiceError::EmptyName))
    } else if n == 0 {
        ScmNext::Call(ScmCall::StopService)
    } else if n == 1 {
        ScmNext::Call(ScmCall::OpenManager { create: false })
    } else if is_failed(&outcomes[1]) {
        ScmNext::Finish(Err(ServiceError::ManagerUnavailable(message(&outcomes[1]))))
    } else if n == 2 {
        ScmNext::Call(ScmCall::OpenService { access: ServiceAccess::All })
    } else if is_gone(&outcomes[2]) {
        ScmNext::Finish(Ok(()))
    } else if is_failed(&outcomes[2]) {
        ScmNext::Finish(Err(ServiceError::OpenFailed(message(&outcomes[2]))))
    } else if n == 3 {
        ScmNext::Call(ScmCall::DeleteService)
    } else if !is_failed(&outcomes[3]) || is_gone(&outcomes[3]) {
        ScmNext::Finish(Ok(()))
    } else {
        ScmNext::Finish(Err(ServiceError::DeleteFailed(message(&outcomes[3]))))
    }
}

/// Next step of `install_service` (the display name and binary path go with the
/// `CreateService` call).
pub fn install_service(
    service_name: &str,
    display_name: &str,
    bin_path: &str,
    outcomes: &Vec<ScmOutcome>,
) -> (r: ScmNext<Result<(), ServiceError>>)
    ensures
        r == install_next(service_name@, outcomes@),
{
    let n = outcomes.len();
    if is_blank_name(service_name) {
        ScmNext::Finish(Err(ServiceError::EmptyName))
    } else if n == 0 {
        ScmNext::Call(ScmCall::OpenManager { create: true })
    } else if is_failed(&outcomes[0]) {
        ScmNext::Finish(Err(ServiceError::ManagerUnavailable(message(&outcomes[0]))))
    } else if n % 2 == 1 {
        if (n / 2) as u64 >= CREATE_ATTEMPTS {
            ScmNext::Finish(Err(ServiceError::MarkedForDeletion))
        } else {
            ScmNext::Call(ScmCall::CreateService)
        }
    } else {
        let created = &outcomes[n - 1];
        if !is_failed(created) {
            ScmNext::Finish(Ok(()))
        } else if is_failed_with(created, E_SERVICE_MARKED_FOR_DELETE) {
            ScmNext::Call(ScmCall::Wait { millis: CREATE_RETRY_MILLIS })
        } else {
            ScmNext::Finish(Err(ServiceError::CreateFailed(message(created))))
        }
    }
}

} // verus!
