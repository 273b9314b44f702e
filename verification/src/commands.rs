//! Sending a mail by launching the external mail client, and the diagnostic log.
//!
//! Nothing here touches a file or a process. A send is a small machine:
//! [`send_mail`] takes the state of a send and what has just happened, and says
//! what has to be done next. The caller does it and comes back with the outcome.

use vstd::prelude::*;
use vstd::string::StringExecFns;
use crate::decimal::{decimal, push_decimal};

verus! {

/// Process-creation flag: a console program runs without a console window.
/// It changes nothing for a process that is created detached, so a send does
/// not set it.
pub const CREATE_NO_WINDOW: u32 = 0x0800_0000;

/// Process-creation flag: the child does not inherit the console of its
/// parent and gets none of its own. This is the flag that a send sets.
pub const DETACHED_PROCESS: u32 = 0x0000_0008;

/// How the mail client is launched on the platform that the caller runs on.
#[derive(Debug, Clone, Copy, PartialEq, Eq, Structural)]
pub enum Launcher {
    /// The platform of the mail client: it is started as a detached process.
    Detached,
    /// Any other platform: a send does nothing and succeeds.
    Stub,
}

/// How an attempt to append a line to the log ended.
#[derive(Debug, Clone, Copy, PartialEq, Eq, Structural)]
pub enum LogOutcome {
    /// The line is in the log.
    Written,
    /// The log could not be opened.
    OpenFailed,
    /// The log was opened, and the line could not be written.
    WriteFailed,
}

/// Where a send stands. `P` is the type of the path to the mail client.
#[derive(Debug, PartialEq, Eq)]
pub enum SendState<P> {
    /// Nothing has been done yet.
    Idle,
    /// The path to the mail client has been asked for.
    ResolvingClient,
    /// The attachments are being made ready.
    EnsuringAttachments { exe: P },
    /// The argument for the mail client is being built.
    BuildingLink { exe: P },
    /// The mail client is being started.
    Spawning,
    /// The log line is being written.
    Logging,
    /// The send is over.
    Finished,
}

/// What has just happened. `E` is the type of an I/O failure.
#[derive(Debug, PartialEq, Eq)]
pub enum SendEvent<P, E> {
    /// A mail is to be sent.
    Requested,
    /// The path to the mail client was looked up.
    ClientResolved(Result<P, E>),
    /// The attachments were made ready.
    AttachmentsEnsured(Result<(), E>),
    /// The argument for the mail client was built.
    LinkBuilt(String),
    /// The start of the mail client was attempted.
    Spawned(Result<(), E>),
    /// The writing of the log line was attempted.
    Logged(LogOutcome),
}

/// What the caller has to do next.
#[derive(Debug, PartialEq, Eq)]
pub enum SendAction<P, E> {
    /// Look up the path to the mail client.
    ResolveClient,
    /// Make the attachments of the message ready.
    EnsureAttachments,
    /// Build the argument for the mail client from the message.
    BuildLink,
    /// Start `exe` with `argument` as its only argument and with the given
    /// process-creation flags, and do not wait for it.
    Spawn { exe: P, argument: String, creation_flags: u32 },
    /// Write a line to the log.
    Log { caller: &'static str, message: &'static str },
    /// Hand the result to whoever asked for the send.
    Finish(Result<(), E>),
    /// Nothing: the event was not the one that the send was waiting for.
    Nothing,
}

/// Whether `event` is what a send in `state` waits for: the request where
/// nothing has been done yet, and after that the outcome of the last action.
/// A send that is over waits for nothing.
pub open spec fn awaits<P, E>(state: SendState<P>, event: SendEvent<P, E>) -> bool {
    match state {
        SendState::Idle => event is Requested,
        SendState::ResolvingClient => event is ClientResolved,
        SendState::EnsuringAttachments { .. } => event is AttachmentsEnsured,
        SendState::BuildingLink { .. } => event is LinkBuilt,
        SendState::Spawning => event is Spawned,
        SendState::Logging => event is Logged,
        SendState::Finished => false,
    }
}

/// The failure that an event reports, if it reports one. A log line that could
/// not be written is no failure of the send.
pub open spec fn failure_of<P, E>(event: SendEvent<P, E>) -> Option<E> {
    match event {
        SendEvent::ClientResolved(Err(failure)) => Some(failure),
        SendEvent::AttachmentsEnsured(Err(failure)) => Some(failure),
        SendEvent::Spawned(Err(failure)) => Some(failure),
        _ => None,
    }
}

/// What follows an event that `state` waited for and that reports no failure:
/// the next of the steps, in their order. The path to the client is kept until
/// the client is started, with the link as its one argument, detached.
pub open spec fn advance<P, E>(state: SendState<P>, event: SendEvent<P, E>) -> (
    SendState<P>,
    SendAction<P, E>,
)
    recommends
        awaits(state, event),
        failure_of(event) is None,
{
    match (state, event) {
        (SendState::Idle, _) => (SendState::ResolvingClient, SendAction::ResolveClient),
        (SendState::ResolvingClient, SendEvent::ClientResolved(Ok(exe))) => (
            SendState::EnsuringAttachments { exe },
            SendAction::EnsureAttachments,
        ),
        (SendState::EnsuringAttachments { exe }, _) => (
            SendState::BuildingLink { exe },
            SendAction::BuildLink,
        ),
        (SendState::BuildingLink { exe }, SendEvent::LinkBuilt(argument)) => (
            SendState::Spawning,
            SendAction::Spawn { exe, argument, creation_flags: DETACHED_PROCESS },
        ),
        (SendState::Spawning, _) => (
            SendState::Logging,
            SendAction::Log { caller: "send_mail", message: "spawned tutanota client" },
        ),
        _ => (SendState::Finished, SendAction::Finish(Ok(()))),
    }
}

/// The next state of a send and the action to take, given where it stands and
/// what has happened.
///
/// With the stub launcher every send is over at once, with success, and
/// nothing is done for it. With the detached launcher an event that the state
/// does not wait for changes nothing; a failure ends the send and is its
/// result; anything else leads to the next step.
pub open spec fn step<P, E>(launcher: Launcher, state: SendState<P>, event: SendEvent<P, E>) -> (
    SendState<P>,
    SendAction<P, E>,
) {
    if launcher == Launcher::Stub {
        (SendState::Finished, SendAction::Finish(Ok(())))
    } else if !awaits(state, event) {
        (state, SendAction::Nothing)
    } else if let Some(failure) = failure_of(event) {
        (SendState::Finished, SendAction::Finish(Err(failure)))
    } else {
        advance(state, event)
    }
}

/// One step of sending a mail: from the state of the send and the outcome of
/// the last action to the next state and the next action.
pub fn send_mail<P, E>(launcher: Launcher, state: SendState<P>, event: SendEvent<P, E>) -> (next: (
    SendState<P>,
    SendAction<P, E>,
))
    ensures
        next == step(launcher, state, event),
        launcher == Launcher::Stub ==> next == (
            SendState::<P>::Finished,
            SendAction::<P, E>::Finish(Ok(())),
        ),
        launcher == Launcher::Detached && state is EnsuringAttachments ==> (event matches
            SendEvent::AttachmentsEnsured(Err(failure)) ==> next == (
            SendState::<P>::Finished,
            SendAction::<P, E>::Finish(Err(failure)),
        )),
        !(state is BuildingLink) ==> !(next.1 is Spawn),
        !(state is Spawning) ==> !(next.1 is Log),
{
    match launcher {
        Launcher::Stub => (SendState::Finished, SendAction::Finish(Ok(()))),
        Launcher::Detached => match (state, event) {
            (SendState::Idle, SendEvent::Requested) => (
                SendState::ResolvingClient,
                SendAction::ResolveClient,
            ),
            (SendState::ResolvingClient, SendEvent::ClientResolved(Ok(exe))) => (
                SendState::EnsuringAttachments { exe },
                SendAction::EnsureAttachments,
            ),
            (SendState::ResolvingClient, SendEvent::ClientResolved(Err(e))) => (
                SendState::Finished,
                SendAction::Finish(Err(e)),
            ),
            (SendState::EnsuringAttachments { exe }, SendEvent::AttachmentsEnsured(Ok(_))) => (
                SendState::BuildingLink { exe },
                SendAction::BuildLink,
            ),
            (SendState::EnsuringAttachments { .. }, SendEvent::AttachmentsEnsured(Err(e))) => (
                SendState::Finished,
                SendAction::Finish(Err(e)),
            ),
            (SendState::BuildingLink { exe }, SendEvent::LinkBuilt(argument)) => (
                SendState::Spawning,
                SendAction::Spawn { exe, argument, creation_flags: DETACHED_PROCESS },
            ),
            (SendState::Spawning, SendEvent::Spawned(Ok(_))) => (
                SendState::Logging,
                SendAction::Log { caller: "send_mail", message: "spawned tutanota client" },
            ),
            (SendState::Spawning, SendEvent::Spawned(Err(e))) => (
                SendState::Finished,
                SendAction::Finish(Err(e)),
            ),
            (SendState::Logging, SendEvent::Logged(_)) => (
                SendState::Finished,
                SendAction::Finish(Ok(())),
            ),
            (state, _) => (state, SendAction::Nothing),
        },
    }
}

/// The state of a send that began in `state`, after the events of `events` have
/// come in, one after the other.
pub open spec fn state_after<P, E>(
    launcher: Launcher,
    state: SendState<P>,
    events: Seq<SendEvent<P, E>>,
) -> SendState<P>
    decreases events.len(),
{
    if events.len() == 0 {
        state
    } else {
        step(launcher, state_after(launcher, state, events.drop_last()), events.last()).0
    }
}

/// The action that answers the event at index `i` of `events`, in a send that
/// began in `state`.
pub open spec fn action_at<P, E>(
    launcher: Launcher,
    state: SendState<P>,
    events: Seq<SendEvent<P, E>>,
    i: int,
) -> SendAction<P, E>
    recommends
        0 <= i < events.len(),
{
    step(launcher, state_after(launcher, state, events.take(i)), events[i]).1
}

/// How far a send has come: the number of steps that lie behind it.
pub open spec fn progress<P>(state: SendState<P>) -> nat {
    match state {
        SendState::Idle => 0,
        SendState::ResolvingClient => 1,
        SendState::EnsuringAttachments { .. } => 2,
        SendState::BuildingLink { .. } => 3,
        SendState::Spawning => 4,
        SendState::Logging => 5,
        SendState::Finished => 6,
    }
}

/// The state after the first `i + 1` events is one step from the state after
/// the first `i`.
proof fn lemma_state_after_next<P, E>(
    launcher: Launcher,
    state: SendState<P>,
    events: Seq<SendEvent<P, E>>,
    i: int,
)
    requires
        0 <= i < events.len(),
    ensures
        state_after(launcher, state, events.take(i + 1)) == step(
            launcher,
            state_after(launcher, state, events.take(i)),
            events[i],
        ).0,
{
    assert(events.take(i + 1).drop_last() =~= events.take(i));
}

/// A send never goes back: whatever comes in, it stays where it is or moves on,
/// so no step is ever taken up again.
pub proof fn lemma_send_never_goes_back<P, E>(
    launcher: Launcher,
    state: SendState<P>,
    events: Seq<SendEvent<P, E>>,
    i: int,
    j: int,
)
    requires
        0 <= i <= j <= events.len(),
    ensures
        progress(state_after(launcher, state, events.take(i))) <= progress(
            state_after(launcher, state, events.take(j)),
        ),
    decreases j - i,
{
    if i < j {
        lemma_send_never_goes_back(launcher, state, events, i, j - 1);
        lemma_state_after_next(launcher, state, events, j - 1);
    }
}

/// With the stub launcher a send succeeds at once, wherever it stands and
/// whatever has happened, and no event is ever answered with a request to
/// resolve the client, to touch the attachments, to start a process or to write
/// to the log.
pub proof fn lemma_stub_send_succeeds_without_effect<P, E>(
    state: SendState<P>,
    events: Seq<SendEvent<P, E>>,
    i: int,
)
    requires
        0 <= i < events.len(),
    ensures
        step(Launcher::Stub, state, events[i]) == (
            SendState::<P>::Finished,
            SendAction::<P, E>::Finish(Ok(())),
        ),
        action_at(Launcher::Stub, state, events, i) == SendAction::<P, E>::Finish(Ok(())),
{
}

/// Where the attachments cannot be made ready, the send ends with that very
/// failure, and the mail client is never started: in no run of events, however
/// long and whatever it holds, is any event answered with a request to spawn.
pub proof fn lemma_failed_attachments_never_spawn<P, E>(
    events: Seq<SendEvent<P, E>>,
    k: int,
    failure: E,
)
    requires
        0 <= k < events.len(),
        state_after(Launcher::Detached, SendState::<P>::Idle, events.take(k))
            is EnsuringAttachments,
        events[k] == SendEvent::<P, E>::AttachmentsEnsured(Err(failure)),
    ensures
        action_at(Launcher::Detached, SendState::<P>::Idle, events, k) == SendAction::<
            P,
            E,
        >::Finish(Err(failure)),
        forall|i: int|
            0 <= i < events.len() ==> !(#[trigger] action_at(
                Launcher::Detached,
                SendState::<P>::Idle,
                events,
                i,
            ) is Spawn),
{
    let idle = SendState::<P>::Idle;
    lemma_state_after_next(Launcher::Detached, idle, events, k);
    assert forall|i: int| 0 <= i < events.len() implies !(#[trigger] action_at(
        Launcher::Detached,
        idle,
        events,
        i,
    ) is Spawn) by {
        if i <= k {
            lemma_send_never_goes_back(Launcher::Detached, idle, events, i, k);
        } else {
            lemma_send_never_goes_back(Launcher::Detached, idle, events, k + 1, i);
        }
    }
}

/// The mail client is started at most once in a send: of all the answers to a
/// run of events, no two ask for a spawn.
pub proof fn lemma_client_started_at_most_once<P, E>(
    launcher: Launcher,
    state: SendState<P>,
    events: Seq<SendEvent<P, E>>,
    i: int,
    j: int,
)
    requires
        0 <= i < events.len(),
        0 <= j < events.len(),
        action_at(launcher, state, events, i) is Spawn,
        action_at(launcher, state, events, j) is Spawn,
    ensures
        i == j,
{
    if i < j {
        lemma_state_after_next(launcher, state, events, i);
        lemma_send_never_goes_back(launcher, state, events, i + 1, j);
    } else if j < i {
        lemma_state_after_next(launcher, state, events, j);
        lemma_send_never_goes_back(launcher, state, events, j + 1, i);
    }
}

/// However the writing of the log line ended, the send that asked for it ends
/// with success.
pub proof fn lemma_log_outcome_never_fails_send<P, E>(outcome: LogOutcome)
    ensures
        step(
            Launcher::Detached,
            SendState::<P>::Logging,
            SendEvent::<P, E>::Logged(outcome),
        ) == (SendState::<P>::Finished, SendAction::<P, E>::Finish(Ok(()))),
{
}

/// The text of a log line: the time in milliseconds since the epoch, in decimal
/// notation, then ` | `, the caller's tag, `: ` and the message.
pub open spec fn log_line_text(millis: nat, caller: Seq<char>, message: Seq<char>) -> Seq<char> {
    decimal(millis) + seq![' ', '|', ' '] + caller + seq![':', ' '] + message
}

/// Builds the line that a caller leaves in the log at the time `millis`.
pub fn log_line(millis: u128, caller: &str, message: &str) -> (line: String)
    ensures
        line@ == log_line_text(millis as nat, caller@, message@),
{
    proof {
        reveal_strlit(" | ");
        reveal_strlit(": ");
    }
    let mut line = String::new();
    push_decimal(&mut line, millis);
    line.append(" | ");
    line.append(caller);
    line.append(": ");
    line.append(message);
    line
}

/// What goes to the error stream after an attempt to write to the log: nothing
/// where the line was written, else a word on what failed. A failure of the
/// log is never more than that.
pub fn log_diagnostic(outcome: LogOutcome) -> (diagnostic: Option<&'static str>)
    ensures
        outcome == LogOutcome::Written <==> diagnostic is None,
        outcome == LogOutcome::OpenFailed ==> diagnostic == Some("Couldn't open file"),
        outcome == LogOutcome::WriteFailed ==> diagnostic == Some("Couldn't write to file"),
{
    match outcome {
        LogOutcome::Written => None,
        LogOutcome::OpenFailed => Some("Couldn't open file"),
        LogOutcome::WriteFailed => Some("Couldn't write to file"),
    }
}

} // verus!
