//! Decisions of the interceptor: which launches skip the prompt, and how an unlock
//! request reaches the service (starting it if needed, and trying once more).
use crate::ipc::{response_text, IpcResponse};
use crate::text::{starts_with_seq, starts_with_str};
use vstd::prelude::*;

verus! {

/// How many times the service state is polled after starting it.
pub const START_POLLS: u64 = 15;
/// Pause after a poll that found the service stopped, in milliseconds.
pub const POLL_PAUSE_MILLIS: u64 = 50;
/// Pause after a poll that found the service running, in milliseconds.
pub const SETTLE_MILLIS: u64 = 150;
/// Pause after restarting the service before the second attempt, in milliseconds.
pub const RESTART_PAUSE_MILLIS: u64 = 300;

/// The launch is a child process of an already unlocked application (Chromium-style
/// `--type=` argument): it is started without a prompt.
pub open spec fn is_child_launch(forward_args: Seq<Seq<char>>) -> bool {
    exists|i: int| 0 <= i < forward_args.len() && starts_with_seq(#[trigger] forward_args[i], "--type="@)
}

/// Whether some argument starts with `--type=`.
pub fn is_child_process(forward_args: &Vec<String>) -> (r: bool)
    ensures
        r == is_child_launch(forward_args.deep_view()),
{
    let n = forward_args.len();
    let mut i: usize = 0;
    while i < n
        invariant
            n == forward_args@.len(),
            i <= n,
            forall|k: int| 0 <= k < i ==> !starts_with_seq(#[trigger] forward_args.deep_view()[k], "--type="@),
        decreases n - i,
    {
        if starts_with_str(forward_args[i].as_str(), "--type=") {
            assert(starts_with_seq(forward_args.deep_view()[i as int], "--type="@));
            return true;
        }
        i = i + 1;
    }
    false
}

/// A launch is a child launch exactly when some forwarded argument, at any position,
/// begins with the seven characters `--type=`.
pub proof fn child_launch_iff_some_type_argument(forward_args: Seq<Seq<char>>)
    ensures
        is_child_launch(forward_args) <==> exists|i: int|
            0 <= i < forward_args.len() && (#[trigger] forward_args[i]).len() >= 7
                && forward_args[i].subrange(0, 7) == "--type="@,
{
    reveal_strlit("--type=");
    if exists|i: int|
        0 <= i < forward_args.len() && (#[trigger] forward_args[i]).len() >= 7
            && forward_args[i].subrange(0, 7) == "--type="@ {
        let i = choose|i: int|
            0 <= i < forward_args.len() && (#[trigger] forward_args[i]).len() >= 7
                && forward_args[i].subrange(0, 7) == "--type="@;
        assert(starts_with_seq(forward_args[i], "--type="@));
    }
}

/// What the password prompt does with the answer to an unlock request.
#[derive(Debug, Clone, PartialEq, Eq)]
pub enum PromptOutcome {
    /// Start the application and close the prompt.
    Launch,
    /// Keep the prompt open and show this message.
    ShowError(String),
}

/// The prompt starts the application only on `Success`; any other answer keeps the
/// prompt open with a message.
pub open spec fn prompt_outcome(reply: Result<IpcResponse, String>, r: PromptOutcome) -> bool {
    match reply {
        Ok(IpcResponse::Success) => r == PromptOutcome::Launch,
        Ok(IpcResponse::WrongPassword) => r matches PromptOutcome::ShowError(m) && m@
            == "Password salah! Coba lagi."@,
        Ok(other) => r matches PromptOutcome::ShowError(m) && m@ == "Terjadi kesalahan: "@
            + response_text(other),
        Err(e) => r matches PromptOutcome::ShowError(m) && m@ == "Service tidak merespons ("@ + e@
            + "). Buka Management Panel."@,
    }
}

/// Decides what the prompt does with the answer to an unlock request.
pub fn prompt_after_reply(reply: &Result<IpcResponse, String>) -> (r: PromptOutcome)
    ensures
        prompt_outcome(*reply, r),
{
    match reply {
        Ok(IpcResponse::Success) => PromptOutcome::Launch,
        Ok(IpcResponse::WrongPassword) => PromptOutcome::ShowError(
            String::from_str("Password salah! Coba lagi."),
        ),
        Ok(other) => {
            let mut m = String::from_str("Terjadi kesalahan: ");
            m.append(other.text().as_str());
            PromptOutcome::ShowError(m)
        },
        Err(e) => {
            let mut m = String::from_str("Service tidak merespons (");
            m.append(e.as_str());
            m.append("). Buka Management Panel.");
            PromptOutcome::ShowError(m)
        },
    }
}

/// Where an unlock request stands.
#[derive(Debug, Clone, PartialEq, Eq)]
pub enum UnlockPhase {
    /// Waiting for the first check of whether the service runs.
    CheckingService,
    /// Waiting for the service start to return.
    StartingService,
    /// Waiting for a poll of the service state; `polls` polls were made before it.
    Polling { polls: u64 },
    /// Waiting out the pause after `polls` polls that found the service stopped.
    PollPause { polls: u64 },
    /// Waiting out the pause after the service was found running.
    Settling,
    /// Waiting for the service's reply to the request.
    AwaitingReply,
    /// The request failed; waiting for a check of whether the service runs.
    Rechecking { first_error: String },
    /// Waiting for the service restart to return.
    Restarting,
    /// Waiting out the pause after the restart.
    RestartPause,
    /// Waiting for the reply to the second request.
    AwaitingRetryReply,
    /// The request has been answered.
    Finished,
}

/// What happened.
#[derive(Debug, PartialEq, Eq)]
pub enum UnlockEvent {
    /// Whether the service runs.
    ServiceRunning(bool),
    /// A start or pause has returned.
    Completed,
    /// The service answered, or the request failed.
    Replied(Result<IpcResponse, String>),
}

/// What to do next.
#[derive(Debug, PartialEq, Eq)]
pub enum UnlockAction {
    /// Check whether the service runs.
    QueryServiceRunning,
    /// Start the service (its result is not used).
    StartService,
    /// Sleep.
    Sleep { millis: u64 },
    /// Send the `LaunchApp` request.
    SendLaunchRequest,
    /// The request's final answer.
    Finish(Result<IpcResponse, String>),
}

/// An unlock request in progress.
#[derive(Debug)]
pub struct UnlockFlow {
    pub phase: UnlockPhase,
}

/// The transition of the unlock request: check that the service runs (start it and
/// poll it, at most `START_POLLS` times, if not), send the request, and if that fails
/// while the service is down, restart it and send once more. An event that does not
/// fit the phase repeats the pending action.
pub open spec fn unlock_transition(phase: UnlockPhase, event: UnlockEvent) -> (UnlockPhase, UnlockAction) {
    match (phase, event) {
        (UnlockPhase::CheckingService, UnlockEvent::ServiceRunning(true)) => (
            UnlockPhase::AwaitingReply,
            UnlockAction::SendLaunchRequest,
        ),
        (UnlockPhase::CheckingService, UnlockEvent::ServiceRunning(false)) => (
            UnlockPhase::StartingService,
            UnlockAction::StartService,
        ),
        (UnlockPhase::StartingService, UnlockEvent::Completed) => (
            UnlockPhase::Polling { polls: 0 },
            UnlockAction::QueryServiceRunning,
        ),
        (UnlockPhase::Polling { polls: _ }, UnlockEvent::ServiceRunning(true)) => (
            UnlockPhase::Settling,
            UnlockAction::Sleep { millis: SETTLE_MILLIS },
        ),
        (UnlockPhase::Polling { polls }, UnlockEvent::ServiceRunning(false)) => (
            UnlockPhase::PollPause { polls: if polls < START_POLLS { (polls + 1) as u64 } else { polls } },
            UnlockAction::Sleep { millis: POLL_PAUSE_MILLIS },
        ),
        (UnlockPhase::PollPause { polls }, UnlockEvent::Completed) => if polls < START_POLLS {
            (UnlockPhase::Polling { polls }, UnlockAction::QueryServiceRunning)
        } else {
            (UnlockPhase::AwaitingReply, UnlockAction::SendLaunchRequest)
        },
        (UnlockPhase::Settling, UnlockEvent::Completed) => (
            UnlockPhase::AwaitingReply,
            UnlockAction::SendLaunchRequest,
        ),
        (UnlockPhase::AwaitingReply, UnlockEvent::Replied(reply)) => match reply {
            Ok(resp) => (UnlockPhase::Finished, UnlockAction::Finish(Ok(resp))),
            Err(e) => (UnlockPhase::Rechecking { first_error: e }, UnlockAction::QueryServiceRunning),
        },
        (UnlockPhase::Rechecking { first_error }, UnlockEvent::ServiceRunning(true)) => (
            UnlockPhase::Finished,
            UnlockAction::Finish(Err(first_error)),
        ),
        (UnlockPhase::Rechecking { first_error: _ }, UnlockEvent::ServiceRunning(false)) => (
            UnlockPhase::Restarting,
            UnlockAction::StartService,
        ),
        (UnlockPhase::Restarting, UnlockEvent::Completed) => (
            UnlockPhase::RestartPause,
            UnlockAction::Sleep { millis: RESTART_PAUSE_MILLIS },
        ),
        (UnlockPhase::RestartPause, UnlockEvent::Completed) => (
            UnlockPhase::AwaitingRetryReply,
            UnlockAction::SendLaunchRequest,
        ),
        (UnlockPhase::AwaitingRetryReply, UnlockEvent::Replied(reply)) => (
            UnlockPhase::Finished,
            UnlockAction::Finish(reply),
        ),
        (p, _) => (p, pending_action(p)),
    }
}

/// The action a phase waits on (after the answer, nothing: a pause of 0 ms).
pub open spec fn pending_action(phase: UnlockPhase) -> UnlockAction {
    match phase {
        UnlockPhase::CheckingService => UnlockAction::QueryServiceRunning,
        UnlockPhase::StartingService => UnlockAction::StartService,
        UnlockPhase::Polling { .. } => UnlockAction::QueryServiceRunning,
        UnlockPhase::PollPause { .. } => UnlockAction::Sleep { millis: POLL_PAUSE_MILLIS },
        UnlockPhase::Settling => UnlockAction::Sleep { millis: SETTLE_MILLIS },
        UnlockPhase::AwaitingReply => UnlockAction::SendLaunchRequest,
        UnlockPhase::Rechecking { .. } => UnlockAction::QueryServiceRunning,
        UnlockPhase::Restarting => UnlockAction::StartService,
        UnlockPhase::RestartPause => UnlockAction::Sleep { millis: RESTART_PAUSE_MILLIS },
        UnlockPhase::AwaitingRetryReply => UnlockAction::SendLaunchRequest,
        UnlockPhase::Finished => UnlockAction::Sleep { millis: 0 },
    }
}

/// An upper bound on the events still to come before the request is answered.
pub open spec fn steps_left(phase: UnlockPhase) -> nat {
    match phase {
        UnlockPhase::CheckingService => 39,
        UnlockPhase::StartingService => 38,
        UnlockPhase::Polling { polls } => (7 + 2 * (START_POLLS - if polls < START_POLLS {
            polls
        } else {
            START_POLLS
        })) as nat,
        UnlockPhase::PollPause { polls } => if polls < START_POLLS {
            (8 + 2 * (START_POLLS - polls)) as nat
        } else {
            6
        },
        UnlockPhase::Settling => 6,
        UnlockPhase::AwaitingReply => 5,
        UnlockPhase::Rechecking { .. } => 4,
        UnlockPhase::Restarting => 3,
        UnlockPhase::RestartPause => 2,
        UnlockPhase::AwaitingRetryReply => 1,
        UnlockPhase::Finished => 0,
    }
}

/// Whether the event fits the phase.
pub open spec fn accepts(phase: UnlockPhase, event: UnlockEvent) -> bool {
    unlock_transition(phase, event).0 != phase
}

/// Every event the flow accepts brings it closer to its answer: the flow ends after at
/// most 39 accepted events.
pub proof fn unlock_flow_progresses(phase: UnlockPhase, event: UnlockEvent)
    requires
        accepts(phase, event),
    ensures
        steps_left(unlock_transition(phase, event).0) < steps_left(phase),
{
}

/// The request is sent only on entering one of the two reply phases, and the request
/// is answered (`Finish`) only on entering `Finished`.
pub proof fn unlock_sends_only_into_reply_phases(phase: UnlockPhase, event: UnlockEvent)
    ensures
        unlock_transition(phase, event).1 == UnlockAction::SendLaunchRequest ==> (unlock_transition(
            phase,
            event,
        ).0 == UnlockPhase::AwaitingReply || unlock_transition(phase, event).0
            == UnlockPhase::AwaitingRetryReply),
        unlock_transition(phase, event).0 == UnlockPhase::AwaitingRetryReply ==> (phase
            == UnlockPhase::RestartPause || phase == UnlockPhase::AwaitingRetryReply),
        unlock_transition(phase, event).1 is Finish ==> unlock_transition(phase, event).0
            == UnlockPhase::Finished,
{
}

/// The flow run from `phase` through `events`: the phase it ends in and how many times
/// it sent the request.
pub open spec fn run_flow(phase: UnlockPhase, events: Seq<UnlockEvent>) -> (UnlockPhase, nat)
    decreases events.len(),
{
    if events.len() == 0 {
        (phase, 0)
    } else {
        let step = unlock_transition(phase, events[0]);
        let rest = run_flow(step.0, events.drop_first());
        (rest.0, if step.1 == UnlockAction::SendLaunchRequest {
            rest.1 + 1
        } else {
            rest.1
        })
    }
}

/// Every event of `events` fits the phase the flow is in when it arrives.
pub open spec fn all_accepted(phase: UnlockPhase, events: Seq<UnlockEvent>) -> bool
    decreases events.len(),
{
    events.len() == 0 || (accepts(phase, events[0]) && all_accepted(
        unlock_transition(phase, events[0]).0,
        events.drop_first(),
    ))
}

/// How many more times the request can still be sent from a phase.
pub open spec fn sends_left(phase: UnlockPhase) -> nat {
    match phase {
        UnlockPhase::CheckingService => 2,
        UnlockPhase::StartingService => 2,
        UnlockPhase::Polling { .. } => 2,
        UnlockPhase::PollPause { .. } => 2,
        UnlockPhase::Settling => 2,
        UnlockPhase::AwaitingReply => 1,
        UnlockPhase::Rechecking { .. } => 1,
        UnlockPhase::Restarting => 1,
        UnlockPhase::RestartPause => 1,
        UnlockPhase::AwaitingRetryReply => 0,
        UnlockPhase::Finished => 0,
    }
}

proof fn lemma_run_bounds(phase: UnlockPhase, events: Seq<UnlockEvent>)
    requires
        all_accepted(phase, events),
    ensures
        events.len() <= steps_left(phase),
        run_flow(phase, events).1 <= sends_left(phase),
    decreases events.len(),
{
    if events.len() > 0 {
        let next = unlock_transition(phase, events[0]).0;
        unlock_flow_progresses(phase, events[0]);
        lemma_run_bounds(next, events.drop_first());
    }
}

/// Driven by events that fit its phases, an unlock request sends the request at most
/// twice and ends after at most 39 events.
pub proof fn unlock_sends_at_most_twice(events: Seq<UnlockEvent>)
    requires
        all_accepted(UnlockPhase::CheckingService, events),
    ensures
        run_flow(UnlockPhase::CheckingService, events).1 <= 2,
        events.len() <= 39,
{
    lemma_run_bounds(UnlockPhase::CheckingService, events);
}

impl UnlockFlow {
    /// A new request: first check whether the service runs.
    pub fn start() -> (r: (UnlockFlow, UnlockAction))
        ensures
            r.0.phase == UnlockPhase::CheckingService,
            r.1 == UnlockAction::QueryServiceRunning,
    {
        (UnlockFlow { phase: UnlockPhase::CheckingService }, UnlockAction::QueryServiceRunning)
    }

    /// Takes the next event and gives the next action.
    pub fn on_event(&mut self, event: UnlockEvent) -> (r: UnlockAction)
        ensures
            (final(self).phase, r) == unlock_transition(old(self).phase, event),
    {
        let mut phase = UnlockPhase::Finished;
        std::mem::swap(&mut phase, &mut self.phase);
        let (next, action) = match (phase, event) {
            (UnlockPhase::CheckingService, UnlockEvent::ServiceRunning(true)) => (
                UnlockPhase::AwaitingReply,
                UnlockAction::SendLaunchRequest,
            ),
            (UnlockPhase::CheckingService, UnlockEvent::ServiceRunning(false)) => (
                UnlockPhase::StartingService,
                UnlockAction::StartService,
            ),
            (UnlockPhase::StartingService, UnlockEvent::Completed) => (
                UnlockPhase::Polling { polls: 0 },
                UnlockAction::QueryServiceRunning,
            ),
            (UnlockPhase::Polling { polls: _ }, UnlockEvent::ServiceRunning(true)) => (
                UnlockPhase::Settling,
                UnlockAction::Sleep { millis: SETTLE_MILLIS },
            ),
            (UnlockPhase::Polling { polls }, UnlockEvent::ServiceRunning(false)) => (
                UnlockPhase::PollPause { polls: if polls < START_POLLS { polls + 1 } else { polls } },
                UnlockAction::Sleep { millis: POLL_PAUSE_MILLIS },
            ),
            (UnlockPhase::PollPause { polls }, UnlockEvent::Completed) => if polls < START_POLLS {
                (UnlockPhase::Polling { polls }, UnlockAction::QueryServiceRunning)
            } else {
                (UnlockPhase::AwaitingReply, UnlockAction::SendLaunchRequest)
            },
            (UnlockPhase::Settling, UnlockEvent::Completed) => (
                UnlockPhase::AwaitingReply,
                UnlockAction::SendLaunchRequest,
            ),
            (UnlockPhase::AwaitingReply, UnlockEvent::Replied(reply)) => match reply {
                Ok(resp) => (UnlockPhase::Finished, UnlockAction::Finish(Ok(resp))),
                Err(e) => (
                    UnlockPhase::Rechecking { first_error: e },
                    UnlockAction::QueryServiceRunning,
                ),
            },
            (UnlockPhase::Rechecking { first_error }, UnlockEvent::ServiceRunning(true)) => (
                UnlockPhase::Finished,
                UnlockAction::Finish(Err(first_error)),
            ),
            (UnlockPhase::Rechecking { first_error }, UnlockEvent::ServiceRunning(false)) => (
                UnlockPhase::Restarting,
                UnlockAction::StartService,
            ),
            (UnlockPhase::Restarting, UnlockEvent::Completed) => (
                UnlockPhase::RestartPause,
                UnlockAction::Sleep { millis: RESTART_PAUSE_MILLIS },
            ),
            (UnlockPhase::RestartPause, UnlockEvent::Completed) => (
                UnlockPhase::AwaitingRetryReply,
                UnlockAction::SendLaunchRequest,
            ),
            (UnlockPhase::AwaitingRetryReply, UnlockEvent::Replied(reply)) => (
                UnlockPhase::Finished,
                UnlockAction::Finish(reply),
            ),
            (p, _) => {
                let a = Self::pending(&p);
                (p, a)
            },
        };
        self.phase = next;
        action
    }

    fn pending(phase: &UnlockPhase) -> (r: UnlockAction)
        ensures
            r == pending_action(*phase),
    {
        match phase {
            UnlockPhase::CheckingService => UnlockAction::QueryServiceRunning,
            UnlockPhase::StartingService => UnlockAction::StartService,
            UnlockPhase::Polling { .. } => UnlockAction::QueryServiceRunning,
            UnlockPhase::PollPause { .. } => UnlockAction::Sleep { millis: POLL_PAUSE_MILLIS },
            UnlockPhase::Settling => UnlockAction::Sleep { millis: SETTLE_MILLIS },
            UnlockPhase::AwaitingReply => UnlockAction::SendLaunchRequest,
            UnlockPhase::Rechecking { .. } => UnlockAction::QueryServiceRunning,
            UnlockPhase::Restarting => UnlockAction::StartService,
            UnlockPhase::RestartPause => UnlockAction::Sleep { millis: RESTART_PAUSE_MILLIS },
            UnlockPhase::AwaitingRetryReply => UnlockAction::SendLaunchRequest,
            UnlockPhase::Finished => UnlockAction::Sleep { millis: 0 },
        }
    }
}

} // verus!
