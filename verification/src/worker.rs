//! The worker between the panel and an audio backend: commands in, events out.
use vstd::prelude::*;
use vstd::string::StringExecFns;

use crate::device::{EndpointKind, EndpointState, StateView};
use crate::level;
use crate::level::Level;
use crate::volume::Volume;

verus! {

/// How long the worker waits for a command before it reads the microphone level, in milliseconds.
pub const COMMAND_WAIT_MILLIS: u64 = 75;

/// What the panel asks for.
#[derive(Debug, Clone, Copy, PartialEq, Eq, Structural)]
pub enum AudioCommand {
    Refresh,
    Select { kind: EndpointKind, index: u32 },
    SetVolume { kind: EndpointKind, index: u32, volume: Volume },
    SetMute { kind: EndpointKind, index: u32, muted: bool },
    Stop,
}

/// What the panel is told.
#[derive(Debug)]
pub enum AudioEvent {
    Snapshot(EndpointState),
    Level(Level),
    Error(String),
}

/// The mathematical content of an [`AudioEvent`].
pub enum EventView {
    Snapshot(StateView),
    Level(Level),
    Error(Seq<char>),
}

impl DeepView for AudioEvent {
    type V = EventView;

    open spec fn deep_view(&self) -> EventView {
        match self {
            AudioEvent::Snapshot(state) => EventView::Snapshot(state.deep_view()),
            AudioEvent::Level(level) => EventView::Level(*level),
            AudioEvent::Error(message) => EventView::Error(message@),
        }
    }
}

impl Clone for AudioEvent {
    fn clone(&self) -> (copy: Self)
        ensures
            copy.deep_view() == self.deep_view(),
    {
        match self {
            AudioEvent::Snapshot(state) => AudioEvent::Snapshot(state.clone()),
            AudioEvent::Level(level) => AudioEvent::Level(*level),
            AudioEvent::Error(message) => AudioEvent::Error(message.clone()),
        }
    }
}

/// A sound system. The worker relies on nothing but what its methods return.
pub trait AudioBackend: 'static {
    /// Reads all devices anew.
    fn refresh(&mut self) -> Result<Vec<EndpointState>, String>;

    /// Makes a device the default one.
    fn select(&mut self, kind: EndpointKind, index: u32) -> Result<(), String>;

    /// Sets the volume of a device.
    fn set_volume(&mut self, kind: EndpointKind, index: u32, volume: Volume) -> Result<(), String>;

    /// Mutes or unmutes a device.
    fn set_mute(&mut self, kind: EndpointKind, index: u32, muted: bool) -> Result<(), String>;

    /// Reads the level of the microphone.
    fn microphone_level(&mut self) -> Result<Level, String>;
}

/// The events that publish the outcome of a refresh: a snapshot for each endpoint, or the error.
pub open spec fn snapshot_events(result: Result<Vec<EndpointState>, String>) -> Seq<EventView> {
    match result {
        Ok(states) => states.deep_view().map_values(|state: StateView| EventView::Snapshot(state)),
        Err(message) => seq![EventView::Error(message@)],
    }
}

/// The events that publish the outcome of a command: nothing, or the error.
pub open spec fn failure_events(result: Result<(), String>) -> Seq<EventView> {
    match result {
        Ok(_) => Seq::empty(),
        Err(message) => seq![EventView::Error(message@)],
    }
}

/// The events that publish a microphone level, held to full scale, or the error.
pub open spec fn level_events(result: Result<Level, String>) -> Seq<EventView> {
    match result {
        Ok(level) => seq![EventView::Level(level.spec_clamped())],
        Err(message) => seq![EventView::Error("麦克风电平不可用："@ + message@)],
    }
}

/// Appends `event`.
fn send(events: &mut Vec<AudioEvent>, event: AudioEvent)
    ensures
        final(events).deep_view() == old(events).deep_view().push(event.deep_view()),
{
    let ghost earlier = events.deep_view();
    events.push(event);
    assert(events.deep_view() =~= earlier.push(event.deep_view()));
}

/// Publishes the outcome of a refresh.
pub fn send_snapshot(events: &mut Vec<AudioEvent>, result: Result<Vec<EndpointState>, String>)
    ensures
        final(events).deep_view() == old(events).deep_view() + snapshot_events(result),
{
    let ghost earlier = events.deep_view();
    match result {
        Ok(states) => {
            let ghost snapshots = snapshot_events(Ok(states));
            assert(events.deep_view() =~= earlier + snapshots.take(0));
            for state in rest: states
                invariant
                    snapshots == snapshot_events(Ok(states)),
                    rest.seq() == states@,
                    events.deep_view() == earlier + snapshots.take(rest.index() as int),
            {
                let ghost i = rest.index() as int;
                send(events, AudioEvent::Snapshot(state));
                assert(snapshots.take(i + 1) =~= snapshots.take(i).push(
                    EventView::Snapshot(state.deep_view()),
                ));
                assert(events.deep_view() =~= earlier + snapshots.take(i + 1));
            }
            assert(snapshots.take(snapshots.len() as int) =~= snapshots);
        },
        Err(message) => {
            send(events, AudioEvent::Error(message));
        },
    }
    assert(events.deep_view() =~= earlier + snapshot_events(result));
}

/// Publishes a microphone level.
pub fn send_level(events: &mut Vec<AudioEvent>, result: Result<Level, String>)
    ensures
        final(events).deep_view() == old(events).deep_view() + level_events(result),
{
    let ghost earlier = events.deep_view();
    match result {
        Ok(level) => {
            send(events, AudioEvent::Level(level.clamped()));
        },
        Err(message) => {
            let mut text = "麦克风电平不可用：".to_string();
            text.append(message.as_str());
            send(events, AudioEvent::Error(text));
        },
    }
    assert(events.deep_view() =~= earlier + level_events(result));
}

/// Lets the backend read all devices anew and publishes them.
pub fn publish_snapshot<B: AudioBackend>(backend: &mut B, events: &mut Vec<AudioEvent>)
    ensures
        exists|asked: &mut B, read: Result<Vec<EndpointState>, String>|
            {
                &&& *asked == *old(backend) && *final(asked) == *final(backend)
                &&& #[trigger] call_ensures(B::refresh, (asked,), read)
                &&& final(events).deep_view() == old(events).deep_view() + snapshot_events(read)
            },
{
    let read = backend.refresh();
    send_snapshot(events, read);
}

/// Publishes the outcome of a command after which the devices are as the panel knows them.
pub fn run_command_no_refresh(events: &mut Vec<AudioEvent>, result: Result<(), String>)
    ensures
        final(events).deep_view() == old(events).deep_view() + failure_events(result),
{
    let ghost earlier = events.deep_view();
    if let Err(message) = result {
        send(events, AudioEvent::Error(message));
    }
    assert(events.deep_view() =~= earlier + failure_events(result));
}

/// Publishes the outcome of a command after which the devices have to be read anew: first the
/// devices, then the error, if there is one.
pub fn run_command<B: AudioBackend>(
    events: &mut Vec<AudioEvent>,
    result: Result<(), String>,
    backend: &mut B,
)
    ensures
        exists|asked: &mut B, read: Result<Vec<EndpointState>, String>|
            {
                &&& *asked == *old(backend) && *final(asked) == *final(backend)
                &&& #[trigger] call_ensures(B::refresh, (asked,), read)
                &&& final(events).deep_view() == old(events).deep_view() + snapshot_events(read)
                    + failure_events(result)
            },
{
    publish_snapshot(backend, events);
    run_command_no_refresh(events, result);
}

/// What a wait for the next command brought.
#[derive(Debug, Clone, Copy, PartialEq, Eq, Structural)]
pub enum WorkerInput {
    Command(AudioCommand),
    /// No command came within [`COMMAND_WAIT_MILLIS`].
    Idle,
    /// The panel is gone.
    Disconnected,
}

/// The worker is done once it has been stopped or the panel is gone.
pub open spec fn ends(input: WorkerInput) -> bool {
    input == WorkerInput::Command(AudioCommand::Stop) || input == WorkerInput::Disconnected
}

/// Begins the work of a backend that was created, by publishing its devices; one that could not
/// be created is reported instead.
pub fn start<B: AudioBackend>(created: Result<B, String>, events: &mut Vec<AudioEvent>) -> (started:
    Option<B>)
    ensures
        match created {
            Ok(backend) => {
                &&& started is Some
                &&& exists|asked: &mut B, read: Result<Vec<EndpointState>, String>|
                    {
                        &&& *asked == backend && *final(asked) == started->Some_0
                        &&& #[trigger] call_ensures(B::refresh, (asked,), read)
                        &&& final(events).deep_view() == old(events).deep_view() + snapshot_events(
                            read,
                        )
                    }
            },
            Err(_) => {
                &&& started is None
                &&& final(events).deep_view() == old(events).deep_view().push(
                    EventView::Error("无法连接 PulseAudio / PipeWire-Pulse"@),
                )
            },
        },
{
    match created {
        Ok(backend) => {
            let mut backend = backend;
            publish_snapshot(&mut backend, events);
            Some(backend)
        },
        Err(_) => {
            send(events, AudioEvent::Error("无法连接 PulseAudio / PipeWire-Pulse".to_string()));
            None
        },
    }
}

/// Serves one input: calls the backend, appends what the panel is told to `events`, and returns
/// whether the work goes on.
pub fn serve<B: AudioBackend>(
    backend: &mut B,
    input: WorkerInput,
    events: &mut Vec<AudioEvent>,
) -> (running: bool)
    ensures
        running == !ends(input),
        ends(input) ==> *final(backend) == *old(backend),
        ends(input) ==> final(events).deep_view() == old(events).deep_view(),
        input == WorkerInput::Command(AudioCommand::Refresh) ==> exists|
            asked: &mut B,
            read: Result<Vec<EndpointState>, String>,
        |
            {
                &&& *asked == *old(backend) && *final(asked) == *final(backend)
                &&& #[trigger] call_ensures(B::refresh, (asked,), read)
                &&& final(events).deep_view() == old(events).deep_view() + snapshot_events(read)
            },
        input matches WorkerInput::Command(AudioCommand::Select { kind, index }) ==> exists|
            told: &mut B,
            result: Result<(), String>,
            asked: &mut B,
            read: Result<Vec<EndpointState>, String>,
        |
            {
                &&& *told == *old(backend) && *final(told) == *asked
                &&& *final(asked) == *final(backend)
                &&& #[trigger] call_ensures(B::select, (told, kind, index), result)
                &&& #[trigger] call_ensures(B::refresh, (asked,), read)
                &&& final(events).deep_view() == old(events).deep_view() + snapshot_events(read)
                    + failure_events(result)
            },
        input matches WorkerInput::Command(AudioCommand::SetVolume { kind, index, volume })
            ==> exists|told: &mut B, result: Result<(), String>|
            {
                &&& *told == *old(backend) && *final(told) == *final(backend)
                &&& #[trigger] call_ensures(
                    B::set_volume,
                    (told, kind, index, volume.spec_clamped()),
                    result,
                )
                &&& final(events).deep_view() == old(events).deep_view() + failure_events(result)
            },
        input matches WorkerInput::Command(AudioCommand::SetMute { kind, index, muted })
            ==> exists|told: &mut B, result: Result<(), String>|
            {
                &&& *told == *old(backend) && *final(told) == *final(backend)
                &&& #[trigger] call_ensures(B::set_mute, (told, kind, index, muted), result)
                &&& final(events).deep_view() == old(events).deep_view() + failure_events(result)
            },
        input == WorkerInput::Idle ==> exists|asked: &mut B, read: Result<Level, String>|
            {
                &&& *asked == *old(backend) && *final(asked) == *final(backend)
                &&& #[trigger] call_ensures(B::microphone_level, (asked,), read)
                &&& final(events).deep_view() == old(events).deep_view() + level_events(read)
            },
{
    match input {
        WorkerInput::Command(AudioCommand::Stop) | WorkerInput::Disconnected => {
            return false;
        },
        WorkerInput::Command(AudioCommand::Refresh) => publish_snapshot(backend, events),
        WorkerInput::Command(AudioCommand::Select { kind, index }) => {
            let result = backend.select(kind, index);
            run_command(events, result, backend);
        },
        WorkerInput::Command(AudioCommand::SetVolume { kind, index, volume }) => {
            let result = backend.set_volume(kind, index, volume.clamped());
            run_command_no_refresh(events, result);
        },
        WorkerInput::Command(AudioCommand::SetMute { kind, index, muted }) => {
            let result = backend.set_mute(kind, index, muted);
            run_command_no_refresh(events, result);
        },
        WorkerInput::Idle => {
            let read = backend.microphone_level();
            send_level(events, read);
        },
    }
    true
}

/// A command that fails is answered by all that was read anew, and by its error as the last word.
pub proof fn law_failed_command_ends_with_its_error(
    read: Result<Vec<EndpointState>, String>,
    result: Result<(), String>,
)
    requires
        result is Err,
    ensures
        ({
            let events = snapshot_events(read) + failure_events(result);
            &&& events.last() == EventView::Error(result->Err_0@)
            &&& read is Ok ==> events.len() == read->Ok_0@.len() + 1
            &&& read is Ok ==> forall|i: int|
                0 <= i < read->Ok_0@.len() ==> #[trigger] events[i] == EventView::Snapshot(
                    read->Ok_0@[i].deep_view(),
                )
        }),
{
}

/// No event tells the panel of a level above full scale.
pub proof fn law_published_levels_are_normalized(read: Result<Level, String>)
    ensures
        forall|i: int|
            0 <= i < level_events(read).len() && (#[trigger] level_events(read)[i]) is Level
                ==> level_events(read)[i]->Level_0.attos <= level::FULL_SCALE,
{
}

} // verus!
