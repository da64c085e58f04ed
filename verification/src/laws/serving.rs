//! What the worker does with a backend, told of the calls themselves.
#![allow(unused_imports)]
use vstd::prelude::*;

use crate::device::{AudioDevice, EndpointKind, EndpointState};
use crate::laws::backend;
use crate::level::Level;
use crate::volume::Volume;
use crate::worker;
use crate::worker::{
    publish_snapshot, run_command, run_command_no_refresh, send_level, send_snapshot, serve, start,
    AudioBackend, AudioCommand, AudioEvent, WorkerInput,
};

verus! {

/// Two endpoints that agree in everything.
pub open spec fn same_state(first: EndpointState, second: EndpointState) -> bool {
    &&& first.kind == second.kind
    &&& backend::all_alike(first.devices@, second.devices@)
    &&& first.default_name is Some == second.default_name is Some
    &&& first.default_name is Some ==> first.default_name->Some_0@ == second.default_name->Some_0@
}

/// Two events that tell the panel the same.
pub open spec fn same_event(first: AudioEvent, second: AudioEvent) -> bool {
    match (first, second) {
        (AudioEvent::Snapshot(shown), AudioEvent::Snapshot(other)) => same_state(shown, other),
        (AudioEvent::Level(level), AudioEvent::Level(other)) => level == other,
        (AudioEvent::Error(message), AudioEvent::Error(other)) => message@ == other@,
        _ => false,
    }
}

/// `event` shows the panel `state`.
pub open spec fn shows_state(event: AudioEvent, state: EndpointState) -> bool {
    event is Snapshot && same_state(event->Snapshot_0, state)
}

/// `after` begins with all of `before`.
pub open spec fn continues(before: Seq<AudioEvent>, after: Seq<AudioEvent>) -> bool {
    &&& before.len() <= after.len()
    &&& forall|i: int| 0 <= i < before.len() ==> same_event(#[trigger] after[i], before[i])
}

/// `after` is `before` and then one snapshot for each endpoint that was read, in order; or the
/// error, if nothing could be read.
pub open spec fn publishes_read(
    before: Seq<AudioEvent>,
    read: Result<Vec<EndpointState>, String>,
    after: Seq<AudioEvent>,
) -> bool {
    &&& continues(before, after)
    &&& match read {
        Ok(states) => {
            &&& after.len() == before.len() + states@.len()
            &&& forall|i: int|
                0 <= i < states@.len() ==> shows_state(
                    after[before.len() + i],
                    #[trigger] states@[i],
                )
        },
        Err(message) => {
            &&& after.len() == before.len() + 1
            &&& after.last() is Error
            &&& after.last()->Error_0@ == message@
        },
    }
}

/// `after` is `before` and then the error of a command, if there is one.
pub open spec fn publishes_outcome(
    before: Seq<AudioEvent>,
    result: Result<(), String>,
    after: Seq<AudioEvent>,
) -> bool {
    &&& continues(before, after)
    &&& match result {
        Ok(_) => after.len() == before.len(),
        Err(message) => {
            &&& after.len() == before.len() + 1
            &&& after.last() is Error
            &&& after.last()->Error_0@ == message@
        },
    }
}

/// `after` is `before` and then the level, held to full scale, or the error.
pub open spec fn publishes_level(
    before: Seq<AudioEvent>,
    read: Result<Level, String>,
    after: Seq<AudioEvent>,
) -> bool {
    let unit: u64 = 1_000_000_000_000_000_000;
    &&& continues(before, after)
    &&& after.len() == before.len() + 1
    &&& match read {
        Ok(level) => {
            &&& after.last() is Level
            &&& level.attos <= unit ==> after.last()->Level_0 == level
            &&& level.attos > unit ==> after.last()->Level_0.attos == unit
        },
        Err(message) => {
            &&& after.last() is Error
            &&& after.last()->Error_0@ == "麦克风电平不可用："@ + message@
        },
    }
}

/// How many events tell what was read.
pub open spec fn news(read: Result<Vec<EndpointState>, String>) -> int {
    match read {
        Ok(states) => states@.len() as int,
        Err(_) => 1,
    }
}

/// `after` is `before`, then what was read, and then the error of the command, if there is one.
pub open spec fn publishes_both(
    before: Seq<AudioEvent>,
    read: Result<Vec<EndpointState>, String>,
    result: Result<(), String>,
    after: Seq<AudioEvent>,
) -> bool {
    let between = after.take(before.len() + news(read));
    &&& before.len() + news(read) <= after.len()
    &&& publishes_read(before, read, between)
    &&& publishes_outcome(between, result, after)
}

proof fn lemma_same_state(first: EndpointState, second: EndpointState)
    requires
        first.deep_view() == second.deep_view(),
    ensures
        same_state(first, second),
{
    let shown = first.deep_view();
    let other = second.deep_view();
    assert(shown.devices == other.devices);
    assert(first.devices.deep_view() == second.devices.deep_view());
    backend::lemma_equal_views(first.devices, second.devices);
    assert(shown.default_name == other.default_name);
}

proof fn lemma_same_event(first: AudioEvent, second: AudioEvent)
    requires
        first.deep_view() == second.deep_view(),
    ensures
        same_event(first, second),
{
    match (first, second) {
        (AudioEvent::Snapshot(shown), AudioEvent::Snapshot(other)) => {
            lemma_same_state(shown, other);
        },
        _ => {},
    }
}

proof fn lemma_continues(before: Vec<AudioEvent>, after: Vec<AudioEvent>)
    requires
        before@.len() <= after@.len(),
        forall|i: int|
            0 <= i < before@.len() ==> #[trigger] after.deep_view()[i] == before.deep_view()[i],
    ensures
        continues(before@, after@),
{
    assert forall|i: int| 0 <= i < before@.len() implies same_event(
        #[trigger] after@[i],
        before@[i],
    ) by {
        assert(after.deep_view()[i] == after@[i].deep_view());
        assert(before.deep_view()[i] == before@[i].deep_view());
        lemma_same_event(after@[i], before@[i]);
    }
}

proof fn lemma_publishes_both(
    before: Vec<AudioEvent>,
    read: Result<Vec<EndpointState>, String>,
    result: Result<(), String>,
    after: Vec<AudioEvent>,
)
    requires
        after.deep_view() == before.deep_view() + worker::snapshot_events(read)
            + worker::failure_events(result),
    ensures
        publishes_both(before@, read, result, after@),
{
    let told = after.deep_view();
    let from = before@.len() as int;
    let mid = from + news(read);
    assert(told.len() == after@.len());
    assert(before.deep_view().len() == before@.len());
    assert(worker::snapshot_events(read).len() == news(read));
    lemma_continues(before, after);
    let between = after@.take(mid);
    assert forall|i: int| 0 <= i < before@.len() implies same_event(
        #[trigger] between[i],
        before@[i],
    ) by {
        assert(same_event(after@[i], before@[i]));
    }
    match read {
        Ok(states) => {
            assert forall|i: int| 0 <= i < states@.len() implies shows_state(
                between[from + i],
                #[trigger] states@[i],
            ) by {
                assert(between[from + i] == after@[from + i]);
                assert(told[from + i] == after@[from + i].deep_view());
                assert(told[from + i] == worker::snapshot_events(read)[i]);
                assert(states.deep_view()[i] == states@[i].deep_view());
                lemma_same_state(after@[from + i]->Snapshot_0, states@[i]);
            }
        },
        Err(_) => {
            assert(told[from] == worker::snapshot_events(read)[0]);
            assert(told[from] == after@[from].deep_view());
            assert(between.last() == after@[from]);
        },
    }
    assert(publishes_read(before@, read, between));
    assert forall|i: int| 0 <= i < between.len() implies same_event(
        #[trigger] after@[i],
        between[i],
    ) by {
        lemma_same_event(after@[i], after@[i]);
    }
    if result is Err {
        assert(told[mid] == after@[mid].deep_view());
    }
}

proof fn lemma_publishes_read(
    before: Vec<AudioEvent>,
    read: Result<Vec<EndpointState>, String>,
    after: Vec<AudioEvent>,
)
    requires
        after.deep_view() == before.deep_view() + worker::snapshot_events(read),
    ensures
        publishes_read(before@, read, after@),
{
    let done = Ok::<(), String>(());
    assert(after.deep_view() =~= before.deep_view() + worker::snapshot_events(read)
        + worker::failure_events(done));
    lemma_publishes_both(before, read, done, after);
    assert(after@.take(before@.len() + news(read)) =~= after@);
}

proof fn lemma_publishes_outcome(
    before: Vec<AudioEvent>,
    result: Result<(), String>,
    after: Vec<AudioEvent>,
)
    requires
        after.deep_view() == before.deep_view() + worker::failure_events(result),
    ensures
        publishes_outcome(before@, result, after@),
{
    assert(after.deep_view().len() == after@.len());
    assert(before.deep_view().len() == before@.len());
    lemma_continues(before, after);
    if result is Err {
        let last = before@.len() as int;
        assert(after.deep_view()[last] == after@[last].deep_view());
    }
}

proof fn lemma_publishes_level(
    before: Vec<AudioEvent>,
    read: Result<Level, String>,
    after: Vec<AudioEvent>,
)
    requires
        after.deep_view() == before.deep_view() + worker::level_events(read),
    ensures
        publishes_level(before@, read, after@),
{
    assert(after.deep_view().len() == after@.len());
    assert(before.deep_view().len() == before@.len());
    lemma_continues(before, after);
    let last = before@.len() as int;
    assert(after.deep_view()[last] == after@[last].deep_view());
}

/// A copy of an event tells the same.
pub proof fn law_copy_tells_the_same(event: AudioEvent, copy: AudioEvent)
    requires
        call_ensures(AudioEvent::clone, (&event,), copy),
    ensures
        same_event(copy, event),
{
    lemma_same_event(copy, event);
}

/// Everything that was read is published, after all that was published before.
pub proof fn law_read_is_published(
    events: &mut Vec<AudioEvent>,
    read: Result<Vec<EndpointState>, String>,
)
    requires
        call_ensures(send_snapshot, (events, read), ()),
    ensures
        publishes_read(old(events)@, read, final(events)@),
{
    lemma_publishes_read(*old(events), read, *final(events));
}

/// A level is published as it was read, up to full scale; a failure says that there is no level.
pub proof fn law_level_is_published(events: &mut Vec<AudioEvent>, read: Result<Level, String>)
    requires
        call_ensures(send_level, (events, read), ()),
    ensures
        publishes_level(old(events)@, read, final(events)@),
{
    lemma_publishes_level(*old(events), read, *final(events));
}

/// Of a command that needs no refresh only the failure is published.
pub proof fn law_failure_is_published(events: &mut Vec<AudioEvent>, result: Result<(), String>)
    requires
        call_ensures(run_command_no_refresh, (events, result), ()),
    ensures
        publishes_outcome(old(events)@, result, final(events)@),
{
    lemma_publishes_outcome(*old(events), result, *final(events));
}

/// To publish the devices is to ask the backend once and to publish what it answers.
pub proof fn law_devices_are_asked_for_once<B: AudioBackend>(
    backend: &mut B,
    events: &mut Vec<AudioEvent>,
)
    requires
        call_ensures(publish_snapshot::<B>, (backend, events), ()),
    ensures
        exists|asked: &mut B, read: Result<Vec<EndpointState>, String>|
            {
                &&& *asked == *old(backend) && *final(asked) == *final(backend)
                &&& #[trigger] call_ensures(B::refresh, (asked,), read)
                &&& publishes_read(old(events)@, read, final(events)@)
            },
{
    lemma_any_read(*old(events), *final(events));
}

/// After a command the backend is asked for its devices; they are published, then the failure of
/// the command.
pub proof fn law_command_is_followed_by_a_refresh<B: AudioBackend>(
    events: &mut Vec<AudioEvent>,
    result: Result<(), String>,
    backend: &mut B,
)
    requires
        call_ensures(run_command::<B>, (events, result, backend), ()),
    ensures
        exists|asked: &mut B, read: Result<Vec<EndpointState>, String>|
            {
                &&& *asked == *old(backend) && *final(asked) == *final(backend)
                &&& #[trigger] call_ensures(B::refresh, (asked,), read)
                &&& publishes_both(old(events)@, read, result, final(events)@)
            },
{
    lemma_any_read_and_outcome(*old(events), *final(events));
}

proof fn lemma_any_read(before: Vec<AudioEvent>, after: Vec<AudioEvent>)
    ensures
        forall|read: Result<Vec<EndpointState>, String>|
            after.deep_view() == before.deep_view() + #[trigger] worker::snapshot_events(read)
                ==> publishes_read(before@, read, after@),
{
    assert forall|read: Result<Vec<EndpointState>, String>|
        after.deep_view() == before.deep_view() + #[trigger] worker::snapshot_events(
            read,
        ) implies publishes_read(before@, read, after@) by {
        lemma_publishes_read(before, read, after);
    }
}

proof fn lemma_any_read_and_outcome(before: Vec<AudioEvent>, after: Vec<AudioEvent>)
    ensures
        forall|read: Result<Vec<EndpointState>, String>, result: Result<(), String>|
            after.deep_view() == before.deep_view() + #[trigger] worker::snapshot_events(read)
                + #[trigger] worker::failure_events(result) ==> publishes_both(
                before@,
                read,
                result,
                after@,
            ),
{
    assert forall|read: Result<Vec<EndpointState>, String>, result: Result<(), String>|
        after.deep_view() == before.deep_view() + #[trigger] worker::snapshot_events(read)
            + #[trigger] worker::failure_events(result) implies publishes_both(
        before@,
        read,
        result,
        after@,
    ) by {
        lemma_publishes_both(before, read, result, after);
    }
}

proof fn lemma_any_outcome(before: Vec<AudioEvent>, after: Vec<AudioEvent>)
    ensures
        forall|result: Result<(), String>|
            after.deep_view() == before.deep_view() + #[trigger] worker::failure_events(result)
                ==> publishes_outcome(before@, result, after@),
{
    assert forall|result: Result<(), String>|
        after.deep_view() == before.deep_view() + #[trigger] worker::failure_events(
            result,
        ) implies publishes_outcome(before@, result, after@) by {
        lemma_publishes_outcome(before, result, after);
    }
}

proof fn lemma_any_level(before: Vec<AudioEvent>, after: Vec<AudioEvent>)
    ensures
        forall|read: Result<Level, String>|
            after.deep_view() == before.deep_view() + #[trigger] worker::level_events(read)
                ==> publishes_level(before@, read, after@),
{
    assert forall|read: Result<Level, String>|
        after.deep_view() == before.deep_view() + #[trigger] worker::level_events(
            read,
        ) implies publishes_level(before@, read, after@) by {
        lemma_publishes_level(before, read, after);
    }
}

/// A backend that was created is asked for its devices and kept; without one the user is told
/// that there is no connection.
pub proof fn law_work_begins_with_the_devices<B: AudioBackend>(
    created: Result<B, String>,
    events: &mut Vec<AudioEvent>,
    started: Option<B>,
)
    requires
        call_ensures(start::<B>, (created, events), started),
    ensures
        created is Ok ==> started is Some && exists|
            asked: &mut B,
            read: Result<Vec<EndpointState>, String>,
        |
            {
                &&& *asked == created->Ok_0 && *final(asked) == started->Some_0
                &&& #[trigger] call_ensures(B::refresh, (asked,), read)
                &&& publishes_read(old(events)@, read, final(events)@)
            },
        created is Err ==> {
            &&& started is None
            &&& continues(old(events)@, final(events)@)
            &&& final(events)@.len() == old(events)@.len() + 1
            &&& final(events)@.last() is Error
            &&& final(events)@.last()->Error_0@ == "无法连接 PulseAudio / PipeWire-Pulse"@
        },
{
    let before = *old(events);
    let after = *final(events);
    lemma_any_read(before, after);
    if created is Err {
        assert(after.deep_view().len() == after@.len());
        assert(before.deep_view().len() == before@.len());
        lemma_continues(before, after);
        let last = before@.len() as int;
        assert(after.deep_view()[last] == after@[last].deep_view());
    }
}

/// The worker stops when it is told to, or when the panel is gone, and then does nothing more; on
/// every other input it goes on.
pub proof fn law_worker_stops_when_told<B: AudioBackend>(
    backend: &mut B,
    input: WorkerInput,
    events: &mut Vec<AudioEvent>,
    running: bool,
)
    requires
        call_ensures(serve::<B>, (backend, input, events), running),
    ensures
        running <==> !(input is Disconnected) && !(input is Command && input->Command_0 is Stop),
        !running ==> *final(backend) == *old(backend),
        !running ==> final(events)@.len() == old(events)@.len() && continues(
            old(events)@,
            final(events)@,
        ),
        worker::COMMAND_WAIT_MILLIS == 75,
{
    if !running {
        let before = *old(events);
        let after = *final(events);
        assert(after.deep_view().len() == after@.len());
        assert(before.deep_view().len() == before@.len());
        lemma_continues(before, after);
    }
}

/// A refresh asks the backend for its devices and publishes them.
pub proof fn law_refresh_is_served<B: AudioBackend>(
    backend: &mut B,
    events: &mut Vec<AudioEvent>,
    running: bool,
)
    requires
        call_ensures(
            serve::<B>,
            (backend, WorkerInput::Command(AudioCommand::Refresh), events),
            running,
        ),
    ensures
        exists|asked: &mut B, read: Result<Vec<EndpointState>, String>|
            {
                &&& *asked == *old(backend) && *final(asked) == *final(backend)
                &&& #[trigger] call_ensures(B::refresh, (asked,), read)
                &&& publishes_read(old(events)@, read, final(events)@)
            },
{
    lemma_any_read(*old(events), *final(events));
}

/// A selection is handed to the backend with its kind and index, whatever they are; then the
/// devices are read anew and published, and last the failure of the selection.
pub proof fn law_selection_is_served<B: AudioBackend>(
    backend: &mut B,
    kind: EndpointKind,
    index: u32,
    events: &mut Vec<AudioEvent>,
    running: bool,
)
    requires
        call_ensures(
            serve::<B>,
            (backend, WorkerInput::Command(AudioCommand::Select { kind, index }), events),
            running,
        ),
    ensures
        exists|
            told: &mut B,
            result: Result<(), String>,
            asked: &mut B,
            read: Result<Vec<EndpointState>, String>,
        |
            {
                &&& *told == *old(backend) && *final(told) == *asked
                &&& *final(asked) == *final(backend)
                &&& #[trigger] call_ensures(B::select, (told, kind, index), result)
                &&& #[trigger] call_ensures(B::refresh, (asked,), read)
                &&& publishes_both(old(events)@, read, result, final(events)@)
            },
{
    lemma_any_read_and_outcome(*old(events), *final(events));
}

/// A volume is handed to the backend for the device that was named, unchanged up to 150 % and held
/// there beyond; only a failure is published.
pub proof fn law_volume_is_served<B: AudioBackend>(
    backend: &mut B,
    kind: EndpointKind,
    index: u32,
    volume: Volume,
    events: &mut Vec<AudioEvent>,
    running: bool,
)
    requires
        call_ensures(
            serve::<B>,
            (
                backend,
                WorkerInput::Command(AudioCommand::SetVolume { kind, index, volume }),
                events,
            ),
            running,
        ),
    ensures
        exists|told: &mut B, asked: Volume, result: Result<(), String>|
            {
                &&& *told == *old(backend) && *final(told) == *final(backend)
                &&& volume.units <= 98304 ==> asked == volume
                &&& volume.units > 98304 ==> asked.units == 98304
                &&& #[trigger] call_ensures(B::set_volume, (told, kind, index, asked), result)
                &&& publishes_outcome(old(events)@, result, final(events)@)
            },
{
    lemma_any_outcome(*old(events), *final(events));
}

/// Muting is handed to the backend as it was asked for; only a failure is published.
pub proof fn law_muting_is_served<B: AudioBackend>(
    backend: &mut B,
    kind: EndpointKind,
    index: u32,
    muted: bool,
    events: &mut Vec<AudioEvent>,
    running: bool,
)
    requires
        call_ensures(
            serve::<B>,
            (backend, WorkerInput::Command(AudioCommand::SetMute { kind, index, muted }), events),
            running,
        ),
    ensures
        exists|told: &mut B, result: Result<(), String>|
            {
                &&& *told == *old(backend) && *final(told) == *final(backend)
                &&& #[trigger] call_ensures(B::set_mute, (told, kind, index, muted), result)
                &&& publishes_outcome(old(events)@, result, final(events)@)
            },
{
    lemma_any_outcome(*old(events), *final(events));
}

/// While no command comes, the backend is asked for the level, which is published.
pub proof fn law_level_is_read_while_idle<B: AudioBackend>(
    backend: &mut B,
    events: &mut Vec<AudioEvent>,
    running: bool,
)
    requires
        call_ensures(serve::<B>, (backend, WorkerInput::Idle, events), running),
    ensures
        exists|asked: &mut B, read: Result<Level, String>|
            {
                &&& *asked == *old(backend) && *final(asked) == *final(backend)
                &&& #[trigger] call_ensures(B::microphone_level, (asked,), read)
                &&& publishes_level(old(events)@, read, final(events)@)
            },
{
    lemma_any_level(*old(events), *final(events));
}

} // verus!
