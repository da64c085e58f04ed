//! Establishing the connection to PulseAudio.
use vstd::prelude::*;

verus! {

/// How often the state of the context is looked at before the final look.
pub const POLL_LIMIT: u32 = 50;

/// The pause between two looks, in milliseconds.
pub const POLL_PAUSE_MILLIS: u64 = 20;

/// The life of a PulseAudio context.
#[derive(Debug, Clone, Copy, PartialEq, Eq, Structural)]
pub enum ContextState {
    Unconnected,
    Connecting,
    Authorizing,
    SettingName,
    Ready,
    Failed,
    Terminated,
}

/// What happened while the connection is being established, in the order of the attempt.
pub enum ConnectEvent {
    /// The threaded main loop exists, or could not be created.
    MainloopCreated(bool),
    /// The context exists, or could not be created.
    ContextCreated(bool),
    /// The context was told to connect.
    ConnectionRequested(Result<(), String>),
    /// The main loop was started.
    MainloopStarted(Result<(), String>),
    /// The context was found in this state.
    Polled(ContextState),
}

/// What to do next.
pub enum ConnectAction {
    CreateContext,
    RequestConnection,
    StartMainloop,
    /// Look at the state of the context, after a pause if `pause` says so.
    Poll { pause: bool },
    /// Report the outcome, after stopping the main loop if `stop_mainloop` says so.
    Finish { stop_mainloop: bool, result: Result<(), String> },
}

/// An attempt to connect.
#[derive(Debug, Clone, Copy, PartialEq, Eq, Structural)]
pub struct Connector {
    /// The looks at the context that may still end in a pause; with none left the next look
    /// decides.
    pub patience: u32,
}

/// The attempt is over: the outcome is the failure `reason`.
pub open spec fn gives_up(action: ConnectAction, stop: bool, reason: Seq<char>) -> bool {
    &&& action matches ConnectAction::Finish { stop_mainloop, result: Err(message) }
    &&& stop_mainloop == stop
    &&& message@ == reason
}

/// `before` turns into `after` and asks for `action` when `event` happens.
pub open spec fn connect_step(
    before: Connector,
    event: ConnectEvent,
    after: Connector,
    action: ConnectAction,
) -> bool {
    match event {
        ConnectEvent::MainloopCreated(created) => after == before && if created {
            action is CreateContext
        } else {
            gives_up(action, false, "无法创建 PulseAudio threaded mainloop"@)
        },
        ConnectEvent::ContextCreated(created) => after == before && if created {
            action is RequestConnection
        } else {
            gives_up(action, false, "无法创建 PulseAudio context"@)
        },
        ConnectEvent::ConnectionRequested(result) => after == before && match result {
            Ok(_) => action is StartMainloop,
            Err(reason) => gives_up(action, false, reason@),
        },
        ConnectEvent::MainloopStarted(result) => after == before && match result {
            Ok(_) => action == ConnectAction::Poll { pause: false },
            Err(reason) => gives_up(action, false, reason@),
        },
        ConnectEvent::Polled(state) => if before.patience == 0 {
            &&& after == before
            &&& if state is Ready {
                action matches ConnectAction::Finish { stop_mainloop: false, result: Ok(_) }
            } else {
                gives_up(action, true, "等待 PulseAudio context 超时"@)
            }
        } else {
            match state {
                ContextState::Ready => {
                    &&& after.patience == 0
                    &&& action == ConnectAction::Poll { pause: false }
                },
                ContextState::Failed | ContextState::Terminated => {
                    &&& after == before
                    &&& gives_up(action, true, "PulseAudio context 已断开"@)
                },
                _ => {
                    &&& after.patience == before.patience - 1
                    &&& action == ConnectAction::Poll { pause: true }
                },
            }
        },
    }
}

/// An outcome that is a failure.
fn give_up(stop_mainloop: bool, reason: String) -> (action: ConnectAction)
    ensures
        gives_up(action, stop_mainloop, reason@),
{
    ConnectAction::Finish { stop_mainloop, result: Err(reason) }
}

impl Connector {
    /// A fresh attempt, which begins with the creation of the main loop.
    pub fn new() -> (connector: Connector)
        ensures
            connector.patience == POLL_LIMIT,
    {
        Connector { patience: POLL_LIMIT }
    }

    /// Reacts to `event`.
    pub fn step(&mut self, event: ConnectEvent) -> (action: ConnectAction)
        ensures
            connect_step(*old(self), event, *final(self), action),
    {
        match event {
            ConnectEvent::MainloopCreated(created) => {
                if created {
                    ConnectAction::CreateContext
                } else {
                    give_up(false, "无法创建 PulseAudio threaded mainloop".to_string())
                }
            },
            ConnectEvent::ContextCreated(created) => {
                if created {
                    ConnectAction::RequestConnection
                } else {
                    give_up(false, "无法创建 PulseAudio context".to_string())
                }
            },
            ConnectEvent::ConnectionRequested(result) => match result {
                Ok(_) => ConnectAction::StartMainloop,
                Err(reason) => give_up(false, reason),
            },
            ConnectEvent::MainloopStarted(result) => match result {
                Ok(_) => ConnectAction::Poll { pause: false },
                Err(reason) => give_up(false, reason),
            },
            ConnectEvent::Polled(state) => {
                if self.patience == 0 {
                    return match state {
                        ContextState::Ready => {
                            ConnectAction::Finish { stop_mainloop: false, result: Ok(()) }
                        },
                        _ => give_up(true, "等待 PulseAudio context 超时".to_string()),
                    };
                }
                match state {
                    ContextState::Ready => {
                        self.patience = 0;
                        ConnectAction::Poll { pause: false }
                    },
                    ContextState::Failed | ContextState::Terminated => {
                        give_up(true, "PulseAudio context 已断开".to_string())
                    },
                    _ => {
                        self.patience = self.patience - 1;
                        ConnectAction::Poll { pause: true }
                    },
                }
            },
        }
    }
}

/// A record of consecutive looks at the context: the states found, the attempt before each look
/// and after the last, and the action after each look. All but the last action ask for another
/// look.
pub open spec fn polling(
    states: Seq<ContextState>,
    attempts: Seq<Connector>,
    actions: Seq<ConnectAction>,
) -> bool {
    &&& attempts.len() == states.len() + 1
    &&& actions.len() == states.len()
    &&& forall|i: int|
        0 <= i < states.len() ==> connect_step(
            #[trigger] attempts[i],
            ConnectEvent::Polled(states[i]),
            attempts[i + 1],
            actions[i],
        )
    &&& forall|i: int| 0 <= i < states.len() - 1 ==> #[trigger] actions[i] is Poll
}

/// The patience that is left bounds how many looks have asked for another one.
proof fn lemma_patience_shrinks(
    states: Seq<ContextState>,
    attempts: Seq<Connector>,
    actions: Seq<ConnectAction>,
    upto: int,
)
    requires
        polling(states, attempts, actions),
        0 <= upto <= states.len(),
        forall|i: int| 0 <= i < upto ==> #[trigger] actions[i] is Poll,
    ensures
        upto + attempts[upto].patience <= attempts[0].patience,
    decreases upto,
{
    if upto > 0 {
        lemma_patience_shrinks(states, attempts, actions, upto - 1);
        assert(connect_step(
            attempts[upto - 1],
            ConnectEvent::Polled(states[upto - 1]),
            attempts[upto],
            actions[upto - 1],
        ));
        assert(actions[upto - 1] is Poll);
    }
}

/// Waiting for the context ends: a fresh attempt looks at it at most 51 times.
pub proof fn law_waiting_is_bounded(
    states: Seq<ContextState>,
    attempts: Seq<Connector>,
    actions: Seq<ConnectAction>,
)
    requires
        polling(states, attempts, actions),
        attempts[0].patience == POLL_LIMIT,
    ensures
        states.len() <= POLL_LIMIT + 1,
{
    if states.len() > 0 {
        let last = states.len() - 1;
        lemma_patience_shrinks(states, attempts, actions, last as int);
    }
}

/// An attempt that waits succeeds exactly if the context is ready at the deciding look, the last
/// one; a context that is found broken before that ends the attempt at once.
pub proof fn law_success_means_ready(
    before: Connector,
    state: ContextState,
    after: Connector,
    action: ConnectAction,
)
    requires
        connect_step(before, ConnectEvent::Polled(state), after, action),
    ensures
        (action is Finish && action->result is Ok) <==> (before.patience == 0 && state is Ready),
        before.patience > 0 && (state is Failed || state is Terminated) ==> action is Finish
            && action->result is Err,
        action is Finish && action->result is Err ==> action->stop_mainloop,
{
}

} // verus!
