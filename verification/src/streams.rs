//! Moving the streams of running applications to a newly selected device.
use vstd::prelude::*;

use crate::device::EndpointKind;
use crate::reply;
use crate::reply::wait_success;

verus! {

/// The index that stands for a failed enumeration; no stream carries it.
pub const NO_STREAM: u32 = 4_294_967_295;

/// One report of PulseAudio while it enumerates streams.
#[derive(Debug, Clone, Copy, PartialEq, Eq, Structural)]
pub enum StreamListing {
    Item(u32),
    End,
    Error,
}

/// The message that passes a report on to the thread that moves the streams: the index of a
/// stream, [`NO_STREAM`] for a failure, nothing at the end.
pub open spec fn listing_message_of(report: StreamListing) -> Option<u32> {
    match report {
        StreamListing::Item(index) => Some(index),
        StreamListing::End => None,
        StreamListing::Error => Some(NO_STREAM),
    }
}

/// Computes [`listing_message_of`].
pub fn listing_message(report: StreamListing) -> (message: Option<u32>)
    ensures
        message == listing_message_of(report),
{
    match report {
        StreamListing::Item(index) => Some(index),
        StreamListing::End => None,
        StreamListing::Error => Some(NO_STREAM),
    }
}

/// What happened while streams are being moved.
#[derive(Debug, Clone, Copy, PartialEq, Eq, Structural)]
pub enum MoveEvent {
    /// A message of the enumeration arrived.
    Received(Option<u32>),
    /// No message arrived in time.
    TimedOut,
    /// The answer to the last move, if one came in time.
    Moved(Option<bool>),
}

/// What to do next.
pub enum MoveAction {
    /// Wait for the next message of the enumeration.
    Receive,
    /// Move this stream to the selected device.
    Move(u32),
    /// Report the outcome.
    Finish(Result<(), String>),
}

/// The message for an enumeration that failed.
pub open spec fn enumeration_failed(kind: EndpointKind) -> Seq<char> {
    match kind {
        EndpointKind::Output => "枚举播放流失败"@,
        EndpointKind::Input => "枚举录音流失败"@,
    }
}

/// The message for an enumeration that went silent.
pub open spec fn enumeration_timed_out(kind: EndpointKind) -> Seq<char> {
    match kind {
        EndpointKind::Output => "枚举播放流超时"@,
        EndpointKind::Input => "枚举录音流超时"@,
    }
}

/// What the move of one stream is called in messages.
pub open spec fn move_name(kind: EndpointKind) -> Seq<char> {
    match kind {
        EndpointKind::Output => "迁移播放流"@,
        EndpointKind::Input => "迁移录音流"@,
    }
}

/// `action` is the answer to `event` while streams of `kind` are being moved.
pub open spec fn move_step(kind: EndpointKind, event: MoveEvent, action: MoveAction) -> bool {
    match event {
        MoveEvent::Received(None) => action matches MoveAction::Finish(Ok(_)),
        MoveEvent::Received(Some(stream)) => if stream == NO_STREAM {
            action matches MoveAction::Finish(result) && reply::reports(
                result,
                Some(enumeration_failed(kind)),
            )
        } else {
            action == MoveAction::Move(stream)
        },
        MoveEvent::TimedOut => action matches MoveAction::Finish(result) && reply::reports(
            result,
            Some(enumeration_timed_out(kind)),
        ),
        MoveEvent::Moved(answer) => match reply::failure_of(answer, move_name(kind)) {
            None => action is Receive,
            Some(reason) => action matches MoveAction::Finish(result) && reply::reports(
                result,
                Some(reason),
            ),
        },
    }
}

/// Decides how the move of the streams of `kind` goes on after `event`. It begins with
/// [`MoveAction::Receive`].
pub fn move_streams(kind: EndpointKind, event: MoveEvent) -> (action: MoveAction)
    ensures
        move_step(kind, event, action),
{
    match event {
        MoveEvent::Received(None) => MoveAction::Finish(Ok(())),
        MoveEvent::Received(Some(stream)) => {
            if stream == NO_STREAM {
                MoveAction::Finish(
                    Err(
                        match kind {
                            EndpointKind::Output => "枚举播放流失败".to_string(),
                            EndpointKind::Input => "枚举录音流失败".to_string(),
                        },
                    ),
                )
            } else {
                MoveAction::Move(stream)
            }
        },
        MoveEvent::TimedOut => MoveAction::Finish(
            Err(
                match kind {
                    EndpointKind::Output => "枚举播放流超时".to_string(),
                    EndpointKind::Input => "枚举录音流超时".to_string(),
                },
            ),
        ),
        MoveEvent::Moved(answer) => {
            let name = match kind {
                EndpointKind::Output => "迁移播放流",
                EndpointKind::Input => "迁移录音流",
            };
            match wait_success(answer, name) {
                Ok(_) => MoveAction::Receive,
                Err(reason) => MoveAction::Finish(Err(reason)),
            }
        },
    }
}

/// The event answers the action: a wait is followed by a message or its absence, a move by the
/// answer to it.
pub open spec fn answers(action: MoveAction, event: MoveEvent) -> bool {
    match action {
        MoveAction::Receive => event is Received || event is TimedOut,
        MoveAction::Move(_) => event is Moved,
        MoveAction::Finish(_) => false,
    }
}

/// A record of a complete move: `actions[i]` is the decision after `events[i]`, each event answers
/// the decision before it (the first one an initial wait), and only the last decision finishes.
pub open spec fn complete_move(
    kind: EndpointKind,
    events: Seq<MoveEvent>,
    actions: Seq<MoveAction>,
) -> bool {
    &&& events.len() == actions.len()
    &&& events.len() > 0
    &&& answers(MoveAction::Receive, events[0])
    &&& forall|i: int|
        #![trigger events[i]]
        0 <= i < events.len() ==> move_step(kind, events[i], actions[i])
    &&& forall|i: int|
        #![trigger actions[i]]
        0 <= i < events.len() - 1 ==> answers(actions[i], events[i + 1])
    &&& actions.last() is Finish
}

/// A move that reports success has seen the end of the enumeration, and has moved every stream
/// that was enumerated, in that order, with PulseAudio's confirmation.
pub proof fn law_success_means_every_stream_moved(
    kind: EndpointKind,
    events: Seq<MoveEvent>,
    actions: Seq<MoveAction>,
)
    requires
        complete_move(kind, events, actions),
        actions.last()->Finish_0 is Ok,
    ensures
        events.last() == MoveEvent::Received(None),
        forall|i: int|
            #![trigger events[i]]
            0 <= i < events.len() && events[i] is Received && events[i]->Received_0 is Some ==> {
                &&& actions[i] == MoveAction::Move(events[i]->Received_0->Some_0)
                &&& i + 1 < events.len()
                &&& events[i + 1] == MoveEvent::Moved(Some(true))
            },
{
    let last = events.len() - 1;
    assert(move_step(kind, events[last], actions[last]));
    assert forall|i: int|
        #![trigger events[i]]
        0 <= i < events.len() && events[i] is Received && events[i]->Received_0 is Some implies {
        &&& actions[i] == MoveAction::Move(events[i]->Received_0->Some_0)
        &&& i + 1 < events.len()
        &&& events[i + 1] == MoveEvent::Moved(Some(true))
    } by {
        assert(move_step(kind, events[i], actions[i]));
        if i == last {
            assert(actions[i] is Finish);
        } else {
            assert(answers(actions[i], events[i + 1]));
            assert(move_step(kind, events[i + 1], actions[i + 1]));
            if i + 1 < last {
                assert(answers(actions[i + 1], events[i + 2]));
            }
        }
    }
}

/// A move that fails has a reason in its last event: a failed or silent enumeration, or a move
/// that was not confirmed. Every earlier move was confirmed.
pub proof fn law_failure_has_a_reason(
    kind: EndpointKind,
    events: Seq<MoveEvent>,
    actions: Seq<MoveAction>,
)
    requires
        complete_move(kind, events, actions),
        actions.last()->Finish_0 is Err,
    ensures
        events.last() == MoveEvent::Received(Some(NO_STREAM)) || events.last() is TimedOut || (
        events.last() is Moved && events.last() != MoveEvent::Moved(Some(true))),
        forall|i: int|
            #![trigger events[i]]
            0 <= i < events.len() - 1 && events[i] is Moved ==> events[i] == MoveEvent::Moved(
                Some(true),
            ),
{
    let last = events.len() - 1;
    assert(move_step(kind, events[last], actions[last]));
    assert forall|i: int|
        #![trigger events[i]]
        0 <= i < events.len() - 1 && events[i] is Moved implies events[i] == MoveEvent::Moved(
        Some(true),
    ) by {
        assert(move_step(kind, events[i], actions[i]));
        assert(answers(actions[i], events[i + 1]));
    }
}

} // verus!
