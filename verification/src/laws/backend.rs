//! What the conversation with PulseAudio is for, told of the calls themselves.
#![allow(unused_imports)]
use vstd::prelude::*;

use crate::connect;
use crate::connect::{ConnectAction, ConnectEvent, Connector, ContextState};
use crate::device;
use crate::device::{
    position_of_index, position_of_name, AudioDevice, DeviceView, EndpointKind, EndpointState,
    StateView,
};
use crate::listing;
use crate::listing::{defaults_read, DeviceInfo, DeviceListing, InfoView, ListEvent};
use crate::meter::{Meter, MeterAction, MeterEvent};
use crate::reply;
use crate::reply::wait_success;
use crate::session;
use crate::session::{
    RefreshAction, RefreshEvent, SelectAction, SelectEvent, Selection, Session, SessionView,
};
use crate::streams;
use crate::streams::{listing_message, move_streams, MoveAction, MoveEvent, StreamListing};
use crate::volume::{ChannelVolume, Volume};

verus! {

/// The view of a device keeps everything that the device holds.
pub proof fn law_device_view_is_faithful(device: AudioDevice)
    ensures
        device.deep_view().index == device.index,
        device.deep_view().channels == device.channels,
        device.deep_view().name == device.name@,
        device.deep_view().label == device.label@,
        device.deep_view().volume == device.volume,
        device.deep_view().muted == device.muted,
{
}

/// The view of an endpoint keeps everything that the endpoint holds.
pub proof fn law_state_view_is_faithful(state: EndpointState)
    ensures
        state.deep_view().kind == state.kind,
        state.deep_view().devices.len() == state.devices@.len(),
        forall|i: int|
            0 <= i < state.devices@.len() ==> #[trigger] state.deep_view().devices[i]
                == state.devices@[i].deep_view(),
        state.default_name is None ==> state.deep_view().default_name is None,
        state.default_name is Some ==> state.deep_view().default_name == Some(
            state.default_name->Some_0@,
        ),
{
}

/// Two devices that agree in everything.
pub open spec fn alike(first: AudioDevice, second: AudioDevice) -> bool {
    &&& first.index == second.index
    &&& first.channels == second.channels
    &&& first.name@ == second.name@
    &&& first.label@ == second.label@
    &&& first.volume == second.volume
    &&& first.muted == second.muted
}

/// Two lists of devices that agree in everything.
pub open spec fn all_alike(first: Seq<AudioDevice>, second: Seq<AudioDevice>) -> bool {
    &&& first.len() == second.len()
    &&& forall|i: int|
        #![trigger first[i]]
        #![trigger second[i]]
        0 <= i < first.len() ==> alike(first[i], second[i])
}

pub(crate) proof fn lemma_equal_views(first: Vec<AudioDevice>, second: Vec<AudioDevice>)
    requires
        first.deep_view() == second.deep_view(),
    ensures
        all_alike(first@, second@),
{
    assert(first.deep_view().len() == first@.len());
    assert(second.deep_view().len() == second@.len());
    assert forall|i: int|
        #![trigger first@[i]]
        #![trigger second@[i]]
        0 <= i < first@.len() implies alike(first@[i], second@[i]) by {
        assert(first.deep_view()[i] == first@[i].deep_view());
        assert(second.deep_view()[i] == second@[i].deep_view());
    }
}

/// A copy of a device agrees with it in everything.
pub proof fn law_copied_device_is_alike(device: AudioDevice, copy: AudioDevice)
    requires
        call_ensures(AudioDevice::clone, (&device,), copy),
    ensures
        alike(copy, device),
{
}

/// A copy of an endpoint agrees with it in everything.
pub proof fn law_copy_is_alike(state: EndpointState, copy: EndpointState)
    requires
        call_ensures(EndpointState::clone, (&state,), copy),
    ensures
        copy.kind == state.kind,
        all_alike(copy.devices@, state.devices@),
        copy.default_name is Some == state.default_name is Some,
        state.default_name is Some ==> copy.default_name->Some_0@ == state.default_name->Some_0@,
{
    assert(copy.deep_view().devices == state.deep_view().devices);
    lemma_equal_views(copy.devices, state.devices);
    assert(copy.deep_view().default_name == state.deep_view().default_name);
}

/// A lookup by index finds the first device that carries it, and nothing exactly if none does.
pub proof fn law_lookup_by_index(devices: Vec<AudioDevice>, index: u32, position: Option<usize>)
    requires
        call_ensures(position_of_index, (&devices, index), position),
    ensures
        match position {
            Some(found) => {
                &&& found < devices@.len()
                &&& devices@[found as int].index == index
                &&& forall|i: int| 0 <= i < found ==> (#[trigger] devices@[i]).index != index
            },
            None => forall|i: int|
                0 <= i < devices@.len() ==> (#[trigger] devices@[i]).index != index,
        },
{
    let view = devices.deep_view();
    let wanted = device::has_index(index);
    device::law_first_match_is_the_first(view, wanted);
    assert forall|i: int| 0 <= i < devices@.len() implies wanted(view[i]) == (
    #[trigger] devices@[i].index == index) by {
        assert(view[i] == devices@[i].deep_view());
    }
    match position {
        Some(found) => {
            assert(wanted(view[found as int]));
            assert forall|i: int| 0 <= i < found implies (#[trigger] devices@[i]).index
                != index by {
                assert(!wanted(view[i]));
            }
        },
        None => {
            assert forall|i: int| 0 <= i < devices@.len() implies (#[trigger] devices@[i]).index
                != index by {
                assert(!wanted(view[i]));
            }
        },
    }
}

/// A lookup by name finds the first device that carries it, and nothing exactly if none does.
pub proof fn law_lookup_by_name(devices: Vec<AudioDevice>, name: String, position: Option<usize>)
    requires
        call_ensures(position_of_name, (&devices, &name), position),
    ensures
        match position {
            Some(found) => {
                &&& found < devices@.len()
                &&& devices@[found as int].name@ == name@
                &&& forall|i: int| 0 <= i < found ==> (#[trigger] devices@[i]).name@ != name@
            },
            None => forall|i: int|
                0 <= i < devices@.len() ==> (#[trigger] devices@[i]).name@ != name@,
        },
{
    let view = devices.deep_view();
    let wanted = device::has_name(name@);
    device::law_first_match_is_the_first(view, wanted);
    match position {
        Some(found) => {
            assert(view[found as int] == devices@[found as int].deep_view());
            assert(wanted(view[found as int]));
            assert forall|i: int| 0 <= i < found implies (#[trigger] devices@[i]).name@
                != name@ by {
                assert(view[i] == devices@[i].deep_view());
                assert(!wanted(view[i]));
            }
        },
        None => {
            assert forall|i: int| 0 <= i < devices@.len() implies (#[trigger] devices@[i]).name@
                != name@ by {
                assert(view[i] == devices@[i].deep_view());
                assert(!wanted(view[i]));
            }
        },
    }
}

/// The same of the lookups that contracts speak of.
pub proof fn law_lookups_find_the_first(devices: Seq<DeviceView>, index: u32, name: Seq<char>)
    ensures
        match device::first_match(devices, device::has_index(index)) {
            Some(found) => {
                &&& 0 <= found < devices.len()
                &&& devices[found].index == index
                &&& forall|i: int| 0 <= i < found ==> (#[trigger] devices[i]).index != index
            },
            None => forall|i: int| 0 <= i < devices.len() ==> (#[trigger] devices[i]).index != index,
        },
        match device::first_match(devices, device::has_name(name)) {
            Some(found) => {
                &&& 0 <= found < devices.len()
                &&& devices[found].name == name
                &&& forall|i: int| 0 <= i < found ==> (#[trigger] devices[i]).name != name
            },
            None => forall|i: int| 0 <= i < devices.len() ==> (#[trigger] devices[i]).name != name,
        },
{
    device::law_first_match_is_the_first(devices, device::has_index(index));
    device::law_first_match_is_the_first(devices, device::has_name(name));
    assert forall|i: int| 0 <= i < devices.len() implies device::has_index(index)(devices[i]) == (
    #[trigger] devices[i].index == index) by {}
    assert forall|i: int| 0 <= i < devices.len() implies device::has_name(name)(devices[i]) == (
    #[trigger] devices[i].name == name) by {}
}

/// A request that was confirmed succeeds; one that was refused or went unanswered fails with a
/// message that names the request.
pub proof fn law_only_a_confirmed_request_succeeds(
    answer: Option<bool>,
    action: &str,
    result: Result<(), String>,
)
    requires
        call_ensures(wait_success, (answer, action), result),
    ensures
        result is Ok <==> answer == Some(true),
        answer == Some(false) ==> result->Err_0@ == "PulseAudio 拒绝"@ + action@,
        answer is None ==> result->Err_0@ == "等待"@ + action@ + "完成超时"@,
{
}

/// The same of the outcome that contracts speak of.
pub proof fn law_failure_names_the_request(
    answer: Option<bool>,
    action: Seq<char>,
    result: Result<(), String>,
)
    requires
        reply::reports(result, reply::failure_of(answer, action)),
    ensures
        result is Ok <==> answer == Some(true),
        answer == Some(false) ==> result->Err_0@ == "PulseAudio 拒绝"@ + action,
        answer is None ==> result->Err_0@ == "等待"@ + action + "完成超时"@,
        reply::ANSWER_WAIT_MILLIS == 2000,
{
}

/// The device that is shown for a report keeps its index, channels, volume and muting; it has the
/// reported name, or none, and is labelled by its description or as unnamed.
pub open spec fn shown_for(kind: EndpointKind, info: DeviceInfo, shown: AudioDevice) -> bool {
    &&& shown.index == info.index
    &&& shown.channels == info.channels
    &&& shown.volume == info.volume
    &&& shown.muted == info.muted
    &&& info.name is Some ==> shown.name@ == info.name->Some_0@
    &&& info.name is None ==> shown.name@.len() == 0
    &&& info.description is Some ==> shown.label@ == info.description->Some_0@
    &&& info.description is None && kind == EndpointKind::Output ==> shown.label@ == "未命名输出"@
    &&& info.description is None && kind == EndpointKind::Input ==> shown.label@ == "未命名麦克风"@
}

/// Every sink is listed. A source is listed exactly if it is not the monitor of a sink, whichever
/// sink that is. What was listed before stays.
pub proof fn law_monitors_are_left_out(
    collected: &mut DeviceListing,
    info: DeviceInfo,
    over: bool,
)
    requires
        call_ensures(DeviceListing::receive, (collected, ListEvent::Item(info)), over),
    ensures
        !over,
        final(collected).kind == old(collected).kind,
        old(collected).kind == EndpointKind::Input && info.monitor_of_sink is Some ==> all_alike(
            final(collected).devices@,
            old(collected).devices@,
        ),
        old(collected).kind == EndpointKind::Output || info.monitor_of_sink is None ==> {
            &&& final(collected).devices@.len() == old(collected).devices@.len() + 1
            &&& shown_for(old(collected).kind, info, final(collected).devices@.last())
            &&& all_alike(final(collected).devices@.drop_last(), old(collected).devices@)
        },
{
    let before = old(collected).devices;
    let after = final(collected).devices;
    assert(before.deep_view().len() == before@.len());
    assert(after.deep_view().len() == after@.len());
    if old(collected).kind == EndpointKind::Input && info.monitor_of_sink is Some {
        lemma_equal_views(after, before);
    } else {
        let last = before@.len() as int;
        assert(after.deep_view()[last] == after@[last].deep_view());
        assert forall|i: int|
            #![trigger after@.drop_last()[i]]
            #![trigger before@[i]]
            0 <= i < before@.len() implies alike(after@.drop_last()[i], before@[i]) by {
            assert(after.deep_view()[i] == after@[i].deep_view());
            assert(before.deep_view()[i] == before@[i].deep_view());
        }
    }
}

/// The end of an enumeration, and an error, end the listing with what has been listed.
pub proof fn law_listing_ends_with_what_was_listed(
    collected: &mut DeviceListing,
    event: ListEvent,
    over: bool,
)
    requires
        event is End || event is Error,
        call_ensures(DeviceListing::receive, (collected, event), over),
    ensures
        over,
        final(collected).kind == old(collected).kind,
        all_alike(final(collected).devices@, old(collected).devices@),
{
    lemma_equal_views(final(collected).devices, old(collected).devices);
}

/// A listing begins empty.
pub proof fn law_listing_begins_empty(kind: EndpointKind, listing: DeviceListing)
    requires
        call_ensures(DeviceListing::new, (kind,), listing),
    ensures
        listing.kind == kind,
        listing.devices@.len() == 0,
{
    assert(listing.devices.deep_view().len() == listing.devices@.len());
}

/// A listing that ended in time hands over its devices; one that did not is an error.
pub proof fn law_listing_is_handed_over(
    listing: DeviceListing,
    ended: bool,
    result: Result<Vec<AudioDevice>, String>,
)
    requires
        call_ensures(DeviceListing::finish, (listing, ended), result),
    ensures
        ended ==> result is Ok && all_alike(result->Ok_0@, listing.devices@),
        !ended ==> result is Err && result->Err_0@ == if listing.kind == EndpointKind::Output {
            "读取 PulseAudio 输出设备超时"@
        } else {
            "读取 PulseAudio 输入设备超时"@
        },
{
    if ended {
        lemma_equal_views(result->Ok_0, listing.devices);
    }
}

/// The names of the default devices are taken as they come; their absence is an error.
pub proof fn law_default_names_are_taken_over(
    answer: Option<(Option<String>, Option<String>)>,
    result: Result<(Option<String>, Option<String>), String>,
)
    requires
        call_ensures(defaults_read, (answer,), result),
    ensures
        answer is Some ==> result is Ok && result->Ok_0 == answer->Some_0,
        answer is None ==> result is Err && result->Err_0@ == "读取 PulseAudio 默认设备超时"@,
{
}

/// The device that an enumeration shows for a report.
pub open spec fn shown_as(kind: EndpointKind, info: InfoView) -> DeviceView {
    DeviceView {
        index: info.index,
        channels: info.channels,
        name: if info.name is Some {
            info.name->Some_0
        } else {
            Seq::empty()
        },
        label: if info.description is Some {
            info.description->Some_0
        } else if kind == EndpointKind::Output {
            "未命名输出"@
        } else {
            "未命名麦克风"@
        },
        volume: info.volume,
        muted: info.muted,
    }
}

/// An enumeration of sinks shows all of them, in order.
pub proof fn law_all_sinks_are_listed(infos: Seq<InfoView>)
    ensures
        listing::after_items(EndpointKind::Output, infos) == infos.map_values(
            |info: InfoView| shown_as(EndpointKind::Output, info),
        ),
    decreases infos.len(),
{
    let shown = |info: InfoView| shown_as(EndpointKind::Output, info);
    if infos.len() > 0 {
        law_all_sinks_are_listed(infos.drop_last());
        assert(infos.map_values(shown) =~= infos.drop_last().map_values(shown).push(
            shown(infos.last()),
        ));
    } else {
        assert(infos.map_values(shown) =~= Seq::<DeviceView>::empty());
    }
}

/// An enumeration of sources shows those that are not the monitor of any sink, in order.
pub proof fn law_real_sources_are_listed(infos: Seq<InfoView>)
    ensures
        listing::after_items(EndpointKind::Input, infos) == infos.filter(
            |info: InfoView| info.monitor_of_sink is None,
        ).map_values(|info: InfoView| shown_as(EndpointKind::Input, info)),
    decreases infos.len(),
{
    reveal(Seq::filter);
    let kept = |info: InfoView| info.monitor_of_sink is None;
    let shown = |info: InfoView| shown_as(EndpointKind::Input, info);
    if infos.len() > 0 {
        let shorter = infos.drop_last();
        law_real_sources_are_listed(shorter);
        assert(shorter.filter(kept).push(infos.last()).map_values(shown) =~= shorter.filter(
            kept,
        ).map_values(shown).push(shown(infos.last())));
    }
    assert(listing::after_items(EndpointKind::Input, infos) =~= infos.filter(kept).map_values(
        shown,
    ));
}

/// An attempt to connect begins with fifty looks before the deciding one.
pub proof fn law_attempt_begins_patient(connector: Connector)
    requires
        call_ensures(Connector::new, (), connector),
    ensures
        connector.patience == 50,
        connect::POLL_PAUSE_MILLIS == 20,
{
}

/// The attempt is over with this failure.
pub open spec fn failed_attempt(action: ConnectAction, stop: bool, reason: Seq<char>) -> bool {
    &&& action is Finish
    &&& action->stop_mainloop == stop
    &&& action->result is Err
    &&& action->result->Err_0@ == reason
}

/// The attempt goes from the main loop to the context, the connection and the start of the loop, and
/// ends at the first of them that fails, with that failure and nothing to stop.
pub proof fn law_attempt_takes_its_steps_in_order(
    connector: &mut Connector,
    event: ConnectEvent,
    action: ConnectAction,
)
    requires
        !(event is Polled),
        call_ensures(Connector::step, (connector, event), action),
    ensures
        *final(connector) == *old(connector),
        event == ConnectEvent::MainloopCreated(true) ==> action is CreateContext,
        event == ConnectEvent::MainloopCreated(false) ==> failed_attempt(
            action,
            false,
            "无法创建 PulseAudio threaded mainloop"@,
        ),
        event == ConnectEvent::ContextCreated(true) ==> action is RequestConnection,
        event == ConnectEvent::ContextCreated(false) ==> failed_attempt(
            action,
            false,
            "无法创建 PulseAudio context"@,
        ),
        event is ConnectionRequested && event->ConnectionRequested_0 is Ok
            ==> action is StartMainloop,
        event is ConnectionRequested && event->ConnectionRequested_0 is Err ==> failed_attempt(
            action,
            false,
            event->ConnectionRequested_0->Err_0@,
        ),
        event is MainloopStarted && event->MainloopStarted_0 is Ok ==> action is Poll
            && !action->pause,
        event is MainloopStarted && event->MainloopStarted_0 is Err ==> failed_attempt(
            action,
            false,
            event->MainloopStarted_0->Err_0@,
        ),
{
}

/// While there is patience, a ready context is looked at once more, a broken one ends the attempt,
/// and any other is looked at after a pause, with one look less to come. At the deciding look only
/// a ready context is a success.
pub proof fn law_attempt_waits_for_a_ready_context(
    connector: &mut Connector,
    state: ContextState,
    action: ConnectAction,
)
    requires
        call_ensures(Connector::step, (connector, ConnectEvent::Polled(state)), action),
    ensures
        old(connector).patience == 0 && state == ContextState::Ready ==> action is Finish
            && !action->stop_mainloop && action->result is Ok,
        old(connector).patience == 0 && state != ContextState::Ready ==> failed_attempt(
            action,
            true,
            "等待 PulseAudio context 超时"@,
        ),
        old(connector).patience > 0 && state == ContextState::Ready ==> action is Poll
            && !action->pause && final(connector).patience == 0,
        old(connector).patience > 0 && (state == ContextState::Failed || state
            == ContextState::Terminated) ==> failed_attempt(
            action,
            true,
            "PulseAudio context 已断开"@,
        ),
        old(connector).patience > 0 && state != ContextState::Ready && state
            != ContextState::Failed && state != ContextState::Terminated ==> action is Poll
            && action->pause && final(connector).patience == old(connector).patience - 1,
{
}

/// A report of a stream passes its index on, the end passes nothing on, and a failure the index
/// that no stream carries.
pub proof fn law_reports_are_passed_on(report: StreamListing, message: Option<u32>)
    requires
        call_ensures(listing_message, (report,), message),
    ensures
        report is Item ==> message == Some(report->Item_0),
        report is End ==> message is None,
        report is Error ==> message == Some(u32::MAX),
{
}

/// Every stream that is reported is moved, whatever its index; the end of the reports is the
/// success.
pub proof fn law_every_reported_stream_is_moved(
    kind: EndpointKind,
    message: Option<u32>,
    action: MoveAction,
)
    requires
        call_ensures(move_streams, (kind, MoveEvent::Received(message)), action),
    ensures
        message is Some && message->Some_0 != u32::MAX ==> action is Move && action->Move_0
            == message->Some_0,
        message == Some(u32::MAX) ==> action is Finish && action->Finish_0 is Err
            && action->Finish_0->Err_0@ == if kind == EndpointKind::Output {
            "枚举播放流失败"@
        } else {
            "枚举录音流失败"@
        },
        message is None ==> action is Finish && action->Finish_0 is Ok,
{
}

/// After a confirmed move the next report is awaited; a refused or unanswered move, and a missing
/// report, end the work with an error.
pub proof fn law_unconfirmed_move_ends_the_work(
    kind: EndpointKind,
    event: MoveEvent,
    action: MoveAction,
)
    requires
        !(event is Received),
        call_ensures(move_streams, (kind, event), action),
    ensures
        event == MoveEvent::Moved(Some(true)) ==> action is Receive,
        event != MoveEvent::Moved(Some(true)) ==> action is Finish && action->Finish_0 is Err
            && action->Finish_0->Err_0@ == match event {
            MoveEvent::Moved(Some(_)) => "PulseAudio 拒绝"@ + if kind == EndpointKind::Output {
                "迁移播放流"@
            } else {
                "迁移录音流"@
            },
            MoveEvent::Moved(None) => "等待"@ + (if kind == EndpointKind::Output {
                "迁移播放流"@
            } else {
                "迁移录音流"@
            }) + "完成超时"@,
            _ => if kind == EndpointKind::Output {
                "枚举播放流超时"@
            } else {
                "枚举录音流超时"@
            },
        },
{
}

/// A session begins with two empty endpoints of their own kinds, and without a meter.
pub proof fn law_session_begins_empty(begun: Session)
    requires
        call_ensures(Session::new, (), begun),
    ensures
        begun@.output.kind == EndpointKind::Output,
        begun@.input.kind == EndpointKind::Input,
        begun@.output.devices.len() == 0 && begun@.input.devices.len() == 0,
        begun@.output.default_name is None && begun@.input.default_name is None,
        !begun@.meter.running,
{
}

/// Asking for the outputs yields the outputs, and asking for the inputs the inputs.
pub proof fn law_endpoint_of_a_kind(
    asked: Session,
    kind: EndpointKind,
    state: &EndpointState,
)
    requires
        call_ensures(Session::endpoint, (&asked, kind), state),
    ensures
        kind == EndpointKind::Output ==> state.deep_view() == asked@.output,
        kind == EndpointKind::Input ==> state.deep_view() == asked@.input,
{
}

/// The devices that a session knows of a kind.
pub open spec fn known(session: SessionView, kind: EndpointKind) -> Seq<DeviceView> {
    if kind == EndpointKind::Output {
        session.output.devices
    } else {
        session.input.devices
    }
}

/// `position` is where the first of `devices` with this index stands.
pub open spec fn first_at(devices: Seq<DeviceView>, index: u32, position: int) -> bool {
    &&& 0 <= position < devices.len()
    &&& devices[position].index == index
    &&& forall|i: int| 0 <= i < position ==> (#[trigger] devices[i]).index != index
}

/// None of `devices` has this index.
pub open spec fn absent(devices: Seq<DeviceView>, index: u32) -> bool {
    forall|i: int| 0 <= i < devices.len() ==> (#[trigger] devices[i]).index != index
}

proof fn lemma_found(devices: Seq<DeviceView>, index: u32)
    ensures
        match device::first_match(devices, device::has_index(index)) {
            Some(position) => first_at(devices, index, position) && !absent(devices, index),
            None => absent(devices, index),
        },
        forall|position: int| #[trigger]
            first_at(devices, index, position) ==> device::first_match(
                devices,
                device::has_index(index),
            ) == Some(position),
{
    law_lookups_find_the_first(devices, index, Seq::empty());
    assert forall|position: int| #[trigger] first_at(devices, index, position) implies
        device::first_match(devices, device::has_index(index)) == Some(position) by {
        match device::first_match(devices, device::has_index(index)) {
            Some(found) => {
                if found < position {
                    assert(devices[found].index != index);
                } else if position < found {
                    assert(devices[position].index != index);
                }
            },
            None => {
                assert(devices[position].index != index);
            },
        }
    }
}

/// A device of a session is found by its index among those of the kind that is asked for; one that
/// is gone is an error.
pub proof fn law_device_is_found_by_index(
    asked: Session,
    kind: EndpointKind,
    index: u32,
    result: Result<&AudioDevice, String>,
)
    requires
        call_ensures(Session::selected, (&asked, kind, index), result),
    ensures
        result is Ok <==> !absent(known(asked@, kind), index),
        result is Ok ==> exists|position: int| #[trigger]
            first_at(known(asked@, kind), index, position) && result->Ok_0.deep_view() == known(
                asked@,
                kind,
            )[position],
        result is Err ==> result->Err_0@ == "选择的音频设备已不可用，请刷新"@,
{
    lemma_found(known(asked@, kind), index);
}

/// A selection is made of the device with the index that was asked for, under its own name.
pub proof fn law_selection_names_the_device(
    asked: Session,
    kind: EndpointKind,
    index: u32,
    result: Result<Selection, String>,
)
    requires
        call_ensures(Session::select, (&asked, kind, index), result),
    ensures
        result is Ok <==> !absent(known(asked@, kind), index),
        result is Ok ==> result->Ok_0.kind == kind && result->Ok_0.index == index,
        result is Ok ==> exists|position: int| #[trigger]
            first_at(known(asked@, kind), index, position) && result->Ok_0.name@ == known(
                asked@,
                kind,
            )[position].name,
        result is Err ==> result->Err_0@ == "选择的音频设备已不可用，请刷新"@,
{
    lemma_found(known(asked@, kind), index);
}

/// A volume is asked for on as many channels as the device has, at least one, and within the
/// limit; nothing is asked of a device that is gone.
pub proof fn law_volume_request_fits_the_device(
    asked: Session,
    kind: EndpointKind,
    index: u32,
    volume: Volume,
    result: Result<ChannelVolume, String>,
)
    requires
        call_ensures(Session::set_volume, (&asked, kind, index, volume), result),
    ensures
        result is Ok <==> !absent(known(asked@, kind), index),
        result is Ok ==> exists|position: int| #[trigger]
            first_at(known(asked@, kind), index, position) && result->Ok_0.channels == if known(
                asked@,
                kind,
            )[position].channels == 0 {
                1
            } else {
                known(asked@, kind)[position].channels as int
            },
        result is Ok && volume.units <= 98304 ==> result->Ok_0.volume == volume,
        result is Ok && volume.units > 98304 ==> result->Ok_0.volume.units == 98304,
        result is Err ==> result->Err_0@ == "选择的音频设备已不可用，请刷新"@,
{
    lemma_found(known(asked@, kind), index);
}

/// The two endpoints differ in nothing but the devices of `kind`.
pub open spec fn only_devices_differ(
    before: SessionView,
    after: SessionView,
    kind: EndpointKind,
) -> bool {
    &&& after.output.kind == before.output.kind && after.input.kind == before.input.kind
    &&& after.output.default_name == before.output.default_name
    &&& after.input.default_name == before.input.default_name
    &&& kind == EndpointKind::Output ==> after.input.devices == before.input.devices
    &&& kind == EndpointKind::Input ==> after.output.devices == before.output.devices
    &&& after.meter == before.meter
}

/// A volume is remembered, as it was asked for, exactly when PulseAudio has confirmed it: for the
/// first device with the index, and for no other. Without a confirmation nothing changes.
pub proof fn law_confirmed_volume_is_remembered(
    session: &mut Session,
    kind: EndpointKind,
    index: u32,
    volume: Volume,
    answer: Option<bool>,
    result: Result<(), String>,
)
    requires
        call_ensures(Session::volume_set, (session, kind, index, volume, answer), result),
    ensures
        result is Ok <==> answer == Some(true),
        answer == Some(false) ==> result->Err_0@ == "PulseAudio 拒绝"@ + "设置音量"@,
        answer is None ==> result->Err_0@ == "等待"@ + "设置音量"@ + "完成超时"@,
        answer != Some(true) ==> final(session)@ == old(session)@,
        only_devices_differ(old(session)@, final(session)@, kind),
        ({
            let before = known(old(session)@, kind);
            let after = known(final(session)@, kind);
            &&& after.len() == before.len()
            &&& answer == Some(true) ==> forall|i: int|
                #![trigger after[i]]
                0 <= i < before.len() ==> after[i] == if first_at(before, index, i) {
                    DeviceView { volume, ..before[i] }
                } else {
                    before[i]
                }
        }),
{
    lemma_found(known(old(session)@, kind), index);
    session::law_set_volume_reads_back(old(session)@, kind, index, volume);
}

/// Muting is remembered in the same way.
pub proof fn law_confirmed_muting_is_remembered(
    session: &mut Session,
    kind: EndpointKind,
    index: u32,
    muted: bool,
    answer: Option<bool>,
    result: Result<(), String>,
)
    requires
        call_ensures(Session::mute_set, (session, kind, index, muted, answer), result),
    ensures
        result is Ok <==> answer == Some(true),
        answer == Some(false) ==> result->Err_0@ == "PulseAudio 拒绝"@ + "设置静音"@,
        answer is None ==> result->Err_0@ == "等待"@ + "设置静音"@ + "完成超时"@,
        answer != Some(true) ==> final(session)@ == old(session)@,
        only_devices_differ(old(session)@, final(session)@, kind),
        ({
            let before = known(old(session)@, kind);
            let after = known(final(session)@, kind);
            &&& after.len() == before.len()
            &&& answer == Some(true) ==> forall|i: int|
                #![trigger after[i]]
                0 <= i < before.len() ==> after[i] == if first_at(before, index, i) {
                    DeviceView { muted, ..before[i] }
                } else {
                    before[i]
                }
        }),
{
    lemma_found(known(old(session)@, kind), index);
    session::law_set_mute_reads_back(old(session)@, kind, index, muted);
}

/// A step of the meter changes nothing else in the session.
pub proof fn law_meter_leaves_the_devices_alone(
    session: &mut Session,
    event: MeterEvent,
    action: MeterAction,
)
    requires
        call_ensures(Session::start_meter, (session, event), action),
    ensures
        final(session)@.output == old(session)@.output,
        final(session)@.input == old(session)@.input,
        event is Requested ==> action is CreateStream && !final(session)@.meter.running,
        event is Requested ==> action->disconnect == old(session)@.meter.running,
        event is StreamCreated ==> final(session)@.meter == old(session)@.meter,
        event == MeterEvent::StreamCreated(true) ==> action is ConnectRecording,
        event == MeterEvent::StreamCreated(false) ==> action is Finish && action->Finish_0 is Err,
        event is RecordingConnected ==> action is Finish && action->Finish_0.is_ok()
            == event->RecordingConnected_0.is_ok(),
        event is RecordingConnected ==> final(session)@.meter.running == (
        event->RecordingConnected_0.is_ok() || old(session)@.meter.running),
        event is RecordingConnected && event->RecordingConnected_0 is Err
            ==> action->Finish_0->Err_0@ == event->RecordingConnected_0->Err_0@,
{
}

/// A refresh replaces the outputs by those that were listed, then asks for the inputs.
pub proof fn law_refresh_takes_the_outputs(
    session: &mut Session,
    listed: Result<Vec<AudioDevice>, String>,
    action: RefreshAction,
)
    requires
        call_ensures(Session::refresh, (session, RefreshEvent::OutputsListed(listed)), action),
    ensures
        listed is Ok ==> {
            &&& action is ListInputs
            &&& final(session)@.output.devices.len() == listed->Ok_0@.len()
            &&& forall|i: int|
                0 <= i < listed->Ok_0@.len() ==> #[trigger] final(session)@.output.devices[i]
                    == listed->Ok_0@[i].deep_view()
            &&& only_devices_differ(old(session)@, final(session)@, EndpointKind::Output)
        },
        listed is Err ==> {
            &&& action is Finish && action->Finish_0 is Err
            &&& action->Finish_0->Err_0@ == listed->Err_0@
            &&& final(session)@ == old(session)@
        },
{
}

/// A refresh replaces the inputs by those that were listed, then asks for the default names.
pub proof fn law_refresh_takes_the_inputs(
    session: &mut Session,
    listed: Result<Vec<AudioDevice>, String>,
    action: RefreshAction,
)
    requires
        call_ensures(Session::refresh, (session, RefreshEvent::InputsListed(listed)), action),
    ensures
        listed is Ok ==> {
            &&& action is ReadDefaults
            &&& final(session)@.input.devices.len() == listed->Ok_0@.len()
            &&& forall|i: int|
                0 <= i < listed->Ok_0@.len() ==> #[trigger] final(session)@.input.devices[i]
                    == listed->Ok_0@[i].deep_view()
            &&& only_devices_differ(old(session)@, final(session)@, EndpointKind::Input)
        },
        listed is Err ==> {
            &&& action is Finish && action->Finish_0 is Err
            &&& action->Finish_0->Err_0@ == listed->Err_0@
            &&& final(session)@ == old(session)@
        },
{
}

/// The refresh reports both endpoints as the session knows them, the outputs first.
pub open spec fn reports_both(action: RefreshAction, session: SessionView) -> bool {
    &&& action is Finish && action->Finish_0 is Ok
    &&& action->Finish_0->Ok_0@.len() == 2
    &&& action->Finish_0->Ok_0@[0].deep_view() == session.output
    &&& action->Finish_0->Ok_0@[1].deep_view() == session.input
}

proof fn lemma_reports_both(action: RefreshAction, session: SessionView)
    requires
        session::reports_session(action, session),
    ensures
        reports_both(action, session),
{
    let states = action->Finish_0->Ok_0;
    assert(states.deep_view().len() == states@.len());
    assert(states.deep_view()[0] == states@[0].deep_view());
    assert(states.deep_view()[1] == states@[1].deep_view());
}

/// The default names become those of the two endpoints, and the meter is started on exactly the
/// default source, whatever devices are listed; without one the refresh is over.
pub proof fn law_meter_records_the_default_source(
    session: &mut Session,
    names: (Option<String>, Option<String>),
    action: RefreshAction,
)
    requires
        call_ensures(Session::refresh, (session, RefreshEvent::DefaultsRead(Ok(names))), action),
    ensures
        final(session)@.output.default_name == names.0.deep_view(),
        names.0 is Some ==> final(session)@.output.default_name == Some(names.0->Some_0@),
        names.1 is Some ==> {
            &&& action is StartMeter
            &&& action->StartMeter_0@ == names.1->Some_0@
            &&& final(session)@.input.default_name == Some(names.1->Some_0@)
        },
        names.1 is None ==> {
            &&& final(session)@.input.default_name is None
            &&& reports_both(action, final(session)@)
        },
        final(session)@.output.devices == old(session)@.output.devices,
        final(session)@.input.devices == old(session)@.input.devices,
        final(session)@.output.kind == old(session)@.output.kind,
        final(session)@.input.kind == old(session)@.input.kind,
        final(session)@.meter == old(session)@.meter,
{
    if names.1 is None {
        lemma_reports_both(action, final(session)@);
    }
}

/// Once the meter has started, the refresh is over and reports both endpoints; if it has not, or if
/// the names could not be read, the refresh reports that. Either way the session stays as it is.
pub proof fn law_refresh_ends_with_a_report(
    session: &mut Session,
    event: RefreshEvent,
    action: RefreshAction,
)
    requires
        event is MeterStarted || (event is DefaultsRead && event->DefaultsRead_0 is Err),
        call_ensures(Session::refresh, (session, event), action),
    ensures
        final(session)@ == old(session)@,
        event is MeterStarted && event->MeterStarted_0 is Ok ==> reports_both(
            action,
            old(session)@,
        ),
        event is MeterStarted && event->MeterStarted_0 is Err ==> action is Finish
            && action->Finish_0 is Err && action->Finish_0->Err_0@
            == event->MeterStarted_0->Err_0@,
        event is DefaultsRead ==> action is Finish && action->Finish_0 is Err
            && action->Finish_0->Err_0@ == event->DefaultsRead_0->Err_0@,
{
    if event is MeterStarted && event->MeterStarted_0 is Ok {
        lemma_reports_both(action, final(session)@);
    }
}

/// The selected device has become the default one: its name is remembered for its kind, and nothing
/// else changes.
pub open spec fn remembers(before: SessionView, selection: Selection, after: SessionView) -> bool {
    &&& after.meter == before.meter
    &&& after.output.kind == before.output.kind && after.input.kind == before.input.kind
    &&& after.output.devices == before.output.devices
    &&& after.input.devices == before.input.devices
    &&& selection.kind == EndpointKind::Output ==> after.output.default_name == Some(
        selection.name@,
    ) && after.input.default_name == before.input.default_name
    &&& selection.kind == EndpointKind::Input ==> after.input.default_name == Some(selection.name@)
        && after.output.default_name == before.output.default_name
}

/// A selection goes from the default device to the running streams and, for an input, to the meter;
/// it is remembered when the last of them has succeeded, and ends with the first failure.
pub proof fn law_selection_takes_its_steps_in_order(
    session: &mut Session,
    selection: Selection,
    event: SelectEvent,
    action: SelectAction,
)
    requires
        call_ensures(Session::continue_selection, (session, &selection, event), action),
    ensures
        event == SelectEvent::DefaultSet(Some(true)) ==> action is MoveStreams && final(session)@
            == old(session)@,
        event is DefaultSet && event != SelectEvent::DefaultSet(Some(true)) ==> {
            &&& action is Finish && action->Finish_0 is Err
            &&& final(session)@ == old(session)@
            &&& action->Finish_0->Err_0@ == if event->DefaultSet_0 is Some {
                "PulseAudio 拒绝"@ + "切换默认设备"@
            } else {
                "等待"@ + "切换默认设备"@ + "完成超时"@
            }
        },
        event is StreamsMoved && event->StreamsMoved_0 is Ok && selection.kind
            == EndpointKind::Input ==> action is StartMeter && final(session)@ == old(session)@,
        event is StreamsMoved && event->StreamsMoved_0 is Ok && selection.kind
            == EndpointKind::Output ==> action is Finish && action->Finish_0 is Ok && remembers(
            old(session)@,
            selection,
            final(session)@,
        ),
        event is MeterStarted && event->MeterStarted_0 is Ok ==> action is Finish
            && action->Finish_0 is Ok && remembers(old(session)@, selection, final(session)@),
        event is StreamsMoved && event->StreamsMoved_0 is Err ==> action is Finish
            && action->Finish_0 is Err && action->Finish_0->Err_0@ == event->StreamsMoved_0->Err_0@
            && final(session)@ == old(session)@,
        event is MeterStarted && event->MeterStarted_0 is Err ==> action is Finish
            && action->Finish_0 is Err && action->Finish_0->Err_0@ == event->MeterStarted_0->Err_0@
            && final(session)@ == old(session)@,
{
}

/// The two endpoints that a refresh reports are those that were listed in it, device by device and
/// under the default names that were read, whatever was known before; the meter is started in
/// between exactly if there is a default source, on that source.
pub proof fn law_refresh_reports_what_was_listed(
    first: &mut Session,
    outputs: Vec<AudioDevice>,
    after_outputs: RefreshAction,
    second: &mut Session,
    inputs: Vec<AudioDevice>,
    after_inputs: RefreshAction,
    third: &mut Session,
    names: (Option<String>, Option<String>),
    after_names: RefreshAction,
    metered: &mut Session,
    event: MeterEvent,
    after_step: MeterAction,
    last: &mut Session,
    after_meter: RefreshAction,
)
    requires
        call_ensures(
            Session::refresh,
            (first, RefreshEvent::OutputsListed(Ok(outputs))),
            after_outputs,
        ),
        *old(second) == *final(first),
        call_ensures(
            Session::refresh,
            (second, RefreshEvent::InputsListed(Ok(inputs))),
            after_inputs,
        ),
        *old(third) == *final(second),
        call_ensures(Session::refresh, (third, RefreshEvent::DefaultsRead(Ok(names))), after_names),
        *old(metered) == *final(third),
        call_ensures(Session::start_meter, (metered, event), after_step),
        *old(last) == *final(metered),
        call_ensures(Session::refresh, (last, RefreshEvent::MeterStarted(Ok(()))), after_meter),
    ensures
        after_outputs is ListInputs,
        after_inputs is ReadDefaults,
        names.1 is Some ==> after_names is StartMeter && after_names->StartMeter_0@
            == names.1->Some_0@,
        names.1 is None ==> after_names is Finish && after_names->Finish_0 is Ok && tells_all(
            after_names->Finish_0->Ok_0@,
            outputs@,
            inputs@,
            names,
        ),
        after_meter is Finish && after_meter->Finish_0 is Ok && tells_all(
            after_meter->Finish_0->Ok_0@,
            outputs@,
            inputs@,
            names,
        ),
{
    lemma_reports_both(after_meter, final(last)@);
    lemma_tells_all(after_meter->Finish_0->Ok_0, outputs, inputs, names);
    if names.1 is None {
        lemma_reports_both(after_names, final(third)@);
        lemma_tells_all(after_names->Finish_0->Ok_0, outputs, inputs, names);
    }
}

/// `states` are two endpoints: one with these outputs and the first name, one with these inputs and
/// the second.
pub open spec fn tells_all(
    states: Seq<EndpointState>,
    outputs: Seq<AudioDevice>,
    inputs: Seq<AudioDevice>,
    names: (Option<String>, Option<String>),
) -> bool {
    &&& states.len() == 2
    &&& all_alike(states[0].devices@, outputs)
    &&& all_alike(states[1].devices@, inputs)
    &&& states[0].default_name is Some == names.0 is Some
    &&& names.0 is Some ==> states[0].default_name->Some_0@ == names.0->Some_0@
    &&& states[1].default_name is Some == names.1 is Some
    &&& names.1 is Some ==> states[1].default_name->Some_0@ == names.1->Some_0@
}

proof fn lemma_tells_all(
    states: Vec<EndpointState>,
    outputs: Vec<AudioDevice>,
    inputs: Vec<AudioDevice>,
    names: (Option<String>, Option<String>),
)
    requires
        states@.len() == 2,
        states@[0].deep_view().devices == outputs.deep_view(),
        states@[1].deep_view().devices == inputs.deep_view(),
        states@[0].deep_view().default_name == names.0.deep_view(),
        states@[1].deep_view().default_name == names.1.deep_view(),
    ensures
        tells_all(states@, outputs@, inputs@, names),
{
    lemma_equal_views(states@[0].devices, outputs);
    lemma_equal_views(states@[1].devices, inputs);
}

/// A device whose volume was confirmed is found again with that volume, and is otherwise as it was.
pub proof fn law_confirmed_volume_is_found_again(
    session: &mut Session,
    kind: EndpointKind,
    index: u32,
    volume: Volume,
    result: Result<(), String>,
    before: Session,
    found: Result<&AudioDevice, String>,
    after: Session,
    again: Result<&AudioDevice, String>,
)
    requires
        before == *old(session),
        call_ensures(Session::selected, (&before, kind, index), found),
        call_ensures(Session::volume_set, (session, kind, index, volume, Some(true)), result),
        after == *final(session),
        call_ensures(Session::selected, (&after, kind, index), again),
    ensures
        result is Ok,
        again is Ok <==> found is Ok,
        found is Ok ==> again->Ok_0.volume == volume && alike(
            AudioDevice { volume, ..*found->Ok_0 },
            *again->Ok_0,
        ),
{
    session::law_set_volume_reads_back(old(session)@, kind, index, volume);
    lemma_found(known(old(session)@, kind), index);
}

/// A device whose muting was confirmed is found again with it, and is otherwise as it was.
pub proof fn law_confirmed_muting_is_found_again(
    session: &mut Session,
    kind: EndpointKind,
    index: u32,
    muted: bool,
    result: Result<(), String>,
    before: Session,
    found: Result<&AudioDevice, String>,
    after: Session,
    again: Result<&AudioDevice, String>,
)
    requires
        before == *old(session),
        call_ensures(Session::selected, (&before, kind, index), found),
        call_ensures(Session::mute_set, (session, kind, index, muted, Some(true)), result),
        after == *final(session),
        call_ensures(Session::selected, (&after, kind, index), again),
    ensures
        result is Ok,
        again is Ok <==> found is Ok,
        found is Ok ==> again->Ok_0.muted == muted && alike(
            AudioDevice { muted, ..*found->Ok_0 },
            *again->Ok_0,
        ),
{
    session::law_set_mute_reads_back(old(session)@, kind, index, muted);
    lemma_found(known(old(session)@, kind), index);
}

/// A device that was listed is found under its index among those of its kind, and is selected under
/// its own name.
pub proof fn law_listed_device_is_found(
    first: &mut Session,
    outputs: Vec<AudioDevice>,
    after_outputs: RefreshAction,
    second: &mut Session,
    inputs: Vec<AudioDevice>,
    after_inputs: RefreshAction,
    listed: Session,
    kind: EndpointKind,
    devices: Vec<AudioDevice>,
    position: int,
    found: Result<&AudioDevice, String>,
    chosen: Result<Selection, String>,
)
    requires
        call_ensures(
            Session::refresh,
            (first, RefreshEvent::OutputsListed(Ok(outputs))),
            after_outputs,
        ),
        *old(second) == *final(first),
        call_ensures(
            Session::refresh,
            (second, RefreshEvent::InputsListed(Ok(inputs))),
            after_inputs,
        ),
        listed == *final(second),
        kind == EndpointKind::Output ==> devices == outputs,
        kind == EndpointKind::Input ==> devices == inputs,
        0 <= position < devices@.len(),
        forall|i: int|
            0 <= i < position ==> (#[trigger] devices@[i]).index != devices@[position].index,
        call_ensures(Session::selected, (&listed, kind, devices@[position].index), found),
        call_ensures(Session::select, (&listed, kind, devices@[position].index), chosen),
    ensures
        found is Ok && alike(*found->Ok_0, devices@[position]),
        chosen is Ok && chosen->Ok_0.name@ == devices@[position].name@,
{
    let view = known(listed@, kind);
    assert(view == devices.deep_view());
    assert(view.len() == devices@.len());
    assert(view[position] == devices@[position].deep_view());
    assert forall|i: int| 0 <= i < position implies (#[trigger] view[i]).index
        != devices@[position].index by {
        assert(view[i] == devices@[i].deep_view());
        assert(devices@[i].index != devices@[position].index);
    }
    assert(first_at(view, devices@[position].index, position));
    lemma_found(view, devices@[position].index);
}

/// A device that was selected to the end is the default one of its kind.
pub proof fn law_selected_device_becomes_the_default(
    session: &mut Session,
    selection: Selection,
    event: SelectEvent,
    action: SelectAction,
    after: Session,
    state: &EndpointState,
)
    requires
        call_ensures(Session::continue_selection, (session, &selection, event), action),
        action is Finish && action->Finish_0 is Ok,
        after == *final(session),
        call_ensures(Session::endpoint, (&after, selection.kind), state),
    ensures
        state.default_name is Some && state.default_name->Some_0@ == selection.name@,
{
    assert(state.deep_view().default_name == Some(selection.name@));
}

} // verus!
