//! What the widgets show and ask for, told of the calls themselves.
#![allow(unused_imports)]
use vstd::prelude::*;

use crate::controls;
use crate::controls::{meter_display, Controls, ControlsChange, MeterDisplay, MeterState};
use crate::device;
use crate::device::{AudioDevice, DeviceView, EndpointKind, EndpointState};
use crate::laws::backend;
use crate::laws::sound;
use crate::level::Level;
use crate::panel;
use crate::panel::{card_class, icon_name, EndpointPanel, PanelUpdate, PanelView};
use crate::text;
use crate::volume;
use crate::volume::Volume;
use crate::window;
use crate::window::{anchored, toggle, ScreenEdge, WindowAction};
use crate::worker::{AudioCommand, AudioEvent};

verus! {

/// Each kind of endpoint has its own style and its own icon.
pub proof fn law_cards_look_their_kind(
    kind: EndpointKind,
    class: &'static str,
    icon: &'static str,
)
    requires
        call_ensures(card_class, (kind,), class),
        call_ensures(icon_name, (kind,), icon),
    ensures
        kind == EndpointKind::Output ==> class@ == "output-card"@ && icon@
            == "audio-speakers-symbolic"@,
        kind == EndpointKind::Input ==> class@ == "input-card"@ && icon@
            == "audio-input-microphone-symbolic"@,
{
}

/// A panel begins without devices, and listens to its widgets.
pub proof fn law_panel_begins_empty(kind: EndpointKind, begun: EndpointPanel)
    requires
        call_ensures(EndpointPanel::new, (kind,), begun),
    ensures
        begun@.kind == kind,
        begun@.devices.len() == 0,
        !begun@.updating,
        !begun@.volume_pending,
        begun@.latest_volume.units == 0,
{
}

/// The first device of this name stands at `position`.
pub open spec fn first_named(devices: Seq<AudioDevice>, name: Seq<char>, position: int) -> bool {
    &&& 0 <= position < devices.len()
    &&& devices[position].name@ == name
    &&& forall|i: int| 0 <= i < position ==> (#[trigger] devices[i]).name@ != name
}

/// The selector offers every device under its label, in order. The default device is selected
/// wherever it is listed, else the first one. The slider, the text beside it and the switch show
/// the selected device. There is nothing to show exactly if there is no device.
pub open spec fn presents(update: PanelUpdate, state: EndpointState) -> bool {
    let devices = state.devices@;
    &&& update.labels@.len() == devices.len()
    &&& forall|i: int|
        0 <= i < devices.len() ==> (#[trigger] update.labels@[i])@ == devices[i].label@
    &&& forall|i: int|
        state.default_name is Some && #[trigger] first_named(
            devices,
            state.default_name->Some_0@,
            i,
        ) ==> update.selected == i
    &&& state.default_name is None ==> update.selected == 0
    &&& state.default_name is Some && (forall|i: int|
        0 <= i < devices.len() ==> (#[trigger] devices[i]).name@ != state.default_name->Some_0@)
        ==> update.selected == 0
    &&& update.shown is Some <==> devices.len() > 0
    &&& update.shown is Some ==> {
        let shown = update.shown->Some_0;
        let device = devices[update.selected as int];
        &&& update.selected < devices.len()
        &&& shown.volume == device.volume
        &&& shown.muted == device.muted
        &&& shown.text@.len() > 1
        &&& shown.text@.last() == '%'
        &&& sound::plain_number(shown.text@.drop_last())
        &&& sound::is_percentage(device.volume, sound::number_in(shown.text@.drop_last()))
    }
}

proof fn lemma_presents(update: PanelUpdate, state: EndpointState)
    requires
        panel::shows(update, state.deep_view()),
    ensures
        presents(update, state),
{
    let view = state.deep_view();
    let devices = state.devices@;
    assert(update.labels.deep_view().len() == update.labels@.len());
    assert(view.devices.len() == devices.len());
    assert forall|i: int| 0 <= i < devices.len() implies (#[trigger] update.labels@[i])@
        == devices[i].label@ by {
        assert(update.labels.deep_view()[i] == update.labels@[i]@);
        assert(view.devices[i] == devices[i].deep_view());
    }
    if state.default_name is Some {
        let name = state.default_name->Some_0@;
        let wanted = device::has_name(name);
        device::law_first_match_is_the_first(view.devices, wanted);
        assert forall|i: int| 0 <= i < devices.len() implies wanted(view.devices[i]) == (
        #[trigger] devices[i].name@ == name) by {
            assert(view.devices[i] == devices[i].deep_view());
        }
        match device::first_match(view.devices, wanted) {
            Some(found) => {
                assert(wanted(view.devices[found]));
                assert(devices[found].name@ == name);
                assert forall|i: int| #[trigger] first_named(devices, name, i) implies found
                    == i by {
                    if i < found {
                        assert(!wanted(view.devices[i]));
                    } else if found < i {
                        assert(devices[found].name@ != name);
                    }
                }
            },
            None => {
                assert forall|i: int| #[trigger] first_named(devices, name, i) implies 0 == i by {
                    assert(!wanted(view.devices[i]));
                }
            },
        }
    }
    if update.shown is Some {
        let shown = update.shown->Some_0;
        let device = view.devices[update.selected as int];
        let percent = volume::percent_of(device.volume) as nat;
        assert(device == devices[update.selected as int].deep_view());
        reveal_strlit("%");
        sound::lemma_decimal_text(percent);
        assert(shown.text@.drop_last() =~= text::decimal_text(percent));
    }
}

/// A panel that takes over a snapshot presents it and holds its devices, in order; while its
/// widgets are being set it does not listen to them.
pub proof fn law_snapshot_is_presented(
    shown: &mut EndpointPanel,
    state: EndpointState,
    update: PanelUpdate,
)
    requires
        call_ensures(EndpointPanel::apply_snapshot, (shown, state), update),
    ensures
        presents(update, state),
        final(shown)@.updating,
        final(shown)@.kind == old(shown)@.kind,
        final(shown)@.latest_volume == old(shown)@.latest_volume,
        final(shown)@.volume_pending == old(shown)@.volume_pending,
        final(shown)@.devices.len() == state.devices@.len(),
        forall|i: int|
            0 <= i < state.devices@.len() ==> #[trigger] final(shown)@.devices[i]
                == state.devices@[i].deep_view(),
{
    lemma_presents(update, state);
}

/// Once the widgets are set the panel listens to them again, and nothing else has changed.
pub proof fn law_panel_listens_again(shown: &mut EndpointPanel)
    requires
        call_ensures(EndpointPanel::finish_update, (shown,), ()),
    ensures
        !final(shown)@.updating,
        final(shown)@.kind == old(shown)@.kind,
        final(shown)@.devices == old(shown)@.devices,
        final(shown)@.latest_volume == old(shown)@.latest_volume,
        final(shown)@.volume_pending == old(shown)@.volume_pending,
{
}

/// A selected entry is sent as the selection of its device, exactly if the panel listens and the
/// entry exists.
pub proof fn law_selection_is_sent(
    shown: EndpointPanel,
    position: u32,
    command: Option<AudioCommand>,
)
    requires
        call_ensures(EndpointPanel::select_command, (&shown, position), command),
    ensures
        !shown@.updating && position < shown@.devices.len() ==> command == Some(
            AudioCommand::Select {
                kind: shown@.kind,
                index: shown@.devices[position as int].index,
            },
        ),
        shown@.updating || position >= shown@.devices.len() ==> command is None,
{
}

/// The mute switch is sent in both directions, exactly if the panel listens and an entry is
/// selected.
pub proof fn law_muting_is_sent(
    shown: EndpointPanel,
    position: u32,
    muted: bool,
    command: Option<AudioCommand>,
)
    requires
        call_ensures(EndpointPanel::mute_command, (&shown, position, muted), command),
    ensures
        !shown@.updating && position < shown@.devices.len() ==> command == Some(
            AudioCommand::SetMute {
                kind: shown@.kind,
                index: shown@.devices[position as int].index,
                muted,
            },
        ),
        shown@.updating || position >= shown@.devices.len() ==> command is None,
{
}

/// The same of the commands that contracts speak of.
pub proof fn law_commands_are_sent_whenever_possible(
    panel: PanelView,
    position: u32,
    muted: bool,
)
    ensures
        !panel.updating && position < panel.devices.len() ==> {
            let index = panel.devices[position as int].index;
            &&& panel::select_command_of(panel, position) == Some(
                AudioCommand::Select { kind: panel.kind, index },
            )
            &&& panel::mute_command_of(panel, position, muted) == Some(
                AudioCommand::SetMute { kind: panel.kind, index, muted },
            )
        },
        position < panel.devices.len() ==> panel::timer_command_of(panel, position) == Some(
            AudioCommand::SetVolume {
                kind: panel.kind,
                index: panel.devices[position as int].index,
                volume: panel.latest_volume,
            },
        ),
{
}

/// A device is muted as it was reported; without a device nothing is.
pub proof fn law_muting_is_read(shown: EndpointPanel, position: u32, muted: bool)
    requires
        call_ensures(EndpointPanel::is_muted, (&shown, position), muted),
    ensures
        position < shown@.devices.len() ==> muted == shown@.devices[position as int].muted,
        position >= shown@.devices.len() ==> !muted,
{
}

/// A movement of the slider is remembered and starts the timer, unless it runs already; while the
/// widgets are being set the slider means nothing.
pub proof fn law_movement_is_remembered(
    shown: &mut EndpointPanel,
    volume: Volume,
    start_timer: bool,
)
    requires
        call_ensures(EndpointPanel::slide, (shown, volume), start_timer),
    ensures
        start_timer <==> !old(shown)@.updating && !old(shown)@.volume_pending,
        old(shown)@.updating ==> final(shown)@ == old(shown)@,
        !old(shown)@.updating ==> final(shown)@.latest_volume == volume,
        !old(shown)@.updating ==> final(shown)@.volume_pending,
        final(shown)@.kind == old(shown)@.kind,
        final(shown)@.devices == old(shown)@.devices,
        final(shown)@.updating == old(shown)@.updating,
{
}

/// When the timer has run out, the position of the slider is sent for the selected device, even
/// while the widgets are being set; the next movement starts the timer again.
pub proof fn law_volume_is_sent_when_the_timer_ends(
    shown: &mut EndpointPanel,
    position: u32,
    command: Option<AudioCommand>,
)
    requires
        call_ensures(EndpointPanel::volume_command, (shown, position), command),
    ensures
        position < old(shown)@.devices.len() ==> command == Some(
            AudioCommand::SetVolume {
                kind: old(shown)@.kind,
                index: old(shown)@.devices[position as int].index,
                volume: old(shown)@.latest_volume,
            },
        ),
        position >= old(shown)@.devices.len() ==> command is None,
        !final(shown)@.volume_pending,
        final(shown)@.kind == old(shown)@.kind,
        final(shown)@.devices == old(shown)@.devices,
        final(shown)@.updating == old(shown)@.updating,
        final(shown)@.latest_volume == old(shown)@.latest_volume,
        panel::VOLUME_DELAY_MILLIS == 80,
{
}

/// What a panel has been shown, it asks for: of each device in a snapshot the selection, both
/// directions of the switch and, after any movement of the slider, the volume are sent with the
/// panel's kind and the index that was reported.
pub proof fn law_shown_devices_answer_their_widgets(
    kind: EndpointKind,
    begun: EndpointPanel,
    shown: &mut EndpointPanel,
    state: EndpointState,
    update: PanelUpdate,
    set: &mut EndpointPanel,
    ready: EndpointPanel,
    position: u32,
    selected: Option<AudioCommand>,
    muted: bool,
    switched: Option<AudioCommand>,
    reported: bool,
)
    requires
        call_ensures(EndpointPanel::new, (kind,), begun),
        *old(shown) == begun,
        call_ensures(EndpointPanel::apply_snapshot, (shown, state), update),
        *old(set) == *final(shown),
        call_ensures(EndpointPanel::finish_update, (set,), ()),
        ready == *final(set),
        call_ensures(EndpointPanel::select_command, (&ready, position), selected),
        call_ensures(EndpointPanel::mute_command, (&ready, position, muted), switched),
        call_ensures(EndpointPanel::is_muted, (&ready, position), reported),
    ensures
        position < state.devices@.len() ==> {
            let device = state.devices@[position as int];
            &&& selected == Some(AudioCommand::Select { kind, index: device.index })
            &&& switched == Some(AudioCommand::SetMute { kind, index: device.index, muted })
            &&& reported == device.muted
        },
        position >= state.devices@.len() ==> selected is None && switched is None && !reported,
{
    let device = state.devices@[position as int];
    if position < state.devices@.len() {
        assert(ready@.devices[position as int] == device.deep_view());
    }
}

/// A snapshot that is being shown asks for nothing, whatever its widgets signal.
pub proof fn law_showing_asks_for_nothing(
    shown: &mut EndpointPanel,
    state: EndpointState,
    update: PanelUpdate,
    busy: EndpointPanel,
    position: u32,
    selected: Option<AudioCommand>,
    muted: bool,
    switched: Option<AudioCommand>,
)
    requires
        call_ensures(EndpointPanel::apply_snapshot, (shown, state), update),
        busy == *final(shown),
        call_ensures(EndpointPanel::select_command, (&busy, position), selected),
        call_ensures(EndpointPanel::mute_command, (&busy, position, muted), switched),
    ensures
        selected is None && switched is None,
{
}

/// Of two movements of a slider that listens, the later one is sent, and the timer is started at
/// most once.
pub proof fn law_later_movement_is_sent(
    first: &mut EndpointPanel,
    earlier: Volume,
    started: bool,
    second: &mut EndpointPanel,
    later: Volume,
    started_again: bool,
    third: &mut EndpointPanel,
    position: u32,
    command: Option<AudioCommand>,
)
    requires
        !old(first)@.updating,
        call_ensures(EndpointPanel::slide, (first, earlier), started),
        *old(second) == *final(first),
        call_ensures(EndpointPanel::slide, (second, later), started_again),
        *old(third) == *final(second),
        call_ensures(EndpointPanel::volume_command, (third, position), command),
    ensures
        !started_again,
        started == !old(first)@.volume_pending,
        position < old(first)@.devices.len() ==> command == Some(
            AudioCommand::SetVolume {
                kind: old(first)@.kind,
                index: old(first)@.devices[position as int].index,
                volume: later,
            },
        ),
{
}

/// The controls begin with two panels of their own kinds, without devices and without an error.
pub proof fn law_controls_begin_empty(begun: Controls)
    requires
        call_ensures(Controls::new, (), begun),
    ensures
        begun@.output.kind == EndpointKind::Output && begun@.input.kind == EndpointKind::Input,
        begun@.output.devices.len() == 0 && begun@.input.devices.len() == 0,
        !begun@.output.updating && !begun@.input.updating,
        !begun@.output.volume_pending && !begun@.input.volume_pending,
        begun@.output.latest_volume.units == 0 && begun@.input.latest_volume.units == 0,
        begun@.error is None,
        controls::REFRESH_MILLIS == 2000,
        controls::EVENT_MILLIS == 40,
        controls::METER_WAITING@ == "等待信号"@,
{
}

/// Asking for the panel of a kind yields that panel.
pub proof fn law_panel_of_a_kind(asked: Controls, kind: EndpointKind, found: &EndpointPanel)
    requires
        call_ensures(Controls::endpoint, (&asked, kind), found),
    ensures
        kind == EndpointKind::Output ==> found@ == asked@.output,
        kind == EndpointKind::Input ==> found@ == asked@.input,
{
}

/// A change of the panel of one kind reaches the controls and leaves the rest alone.
pub proof fn law_panel_is_changed_in_place(
    asked: &mut Controls,
    kind: EndpointKind,
    found: &mut EndpointPanel,
)
    requires
        call_ensures(Controls::endpoint_mut, (asked, kind), found),
    ensures
        kind == EndpointKind::Output ==> {
            &&& old(found)@ == old(asked)@.output
            &&& final(asked)@.output == final(found)@
            &&& final(asked)@.input == old(asked)@.input
        },
        kind == EndpointKind::Input ==> {
            &&& old(found)@ == old(asked)@.input
            &&& final(asked)@.input == final(found)@
            &&& final(asked)@.output == old(asked)@.output
        },
        final(asked)@.error == old(asked)@.error,
{
}

/// `after` is `before` with the devices of `state` in it and its widgets being set.
pub open spec fn holds(before: PanelView, state: EndpointState, after: PanelView) -> bool {
    &&& after.updating
    &&& after.kind == before.kind
    &&& after.latest_volume == before.latest_volume
    &&& after.volume_pending == before.volume_pending
    &&& after.devices.len() == state.devices@.len()
    &&& forall|i: int|
        0 <= i < state.devices@.len() ==> #[trigger] after.devices[i]
            == state.devices@[i].deep_view()
}

/// A snapshot goes to the panel of its kind, which presents it; the error is hidden and the other
/// panel stays as it is.
pub proof fn law_snapshot_reaches_its_panel(
    told: &mut Controls,
    state: EndpointState,
    input_position: u32,
    change: ControlsChange,
)
    requires
        call_ensures(Controls::handle, (told, AudioEvent::Snapshot(state), input_position), change),
    ensures
        final(told)@.error is None,
        state.kind == EndpointKind::Output ==> holds(
            old(told)@.output,
            state,
            final(told)@.output,
        ) && final(told)@.input == old(told)@.input,
        state.kind == EndpointKind::Input ==> holds(
            old(told)@.input,
            state,
            final(told)@.input,
        ) && final(told)@.output == old(told)@.output,
        change is Endpoint,
        change->kind == state.kind,
        presents(change->update, state),
{
    lemma_presents(change->update, state);
}

/// An error is revealed in its own words, and nothing else changes.
pub proof fn law_error_is_revealed(
    told: &mut Controls,
    message: String,
    input_position: u32,
    change: ControlsChange,
    after: Controls,
    error: Option<&String>,
)
    requires
        call_ensures(Controls::handle, (told, AudioEvent::Error(message), input_position), change),
        after == *final(told),
        call_ensures(Controls::error, (&after,), error),
    ensures
        change is Error,
        error is Some && error->Some_0@ == message@,
        final(told)@.output == old(told)@.output,
        final(told)@.input == old(told)@.input,
{
}

/// A snapshot hides the error, and a level leaves it as it was.
pub proof fn law_error_stays_until_a_snapshot(
    told: &mut Controls,
    event: AudioEvent,
    input_position: u32,
    change: ControlsChange,
    before: Controls,
    earlier: Option<&String>,
    after: Controls,
    error: Option<&String>,
)
    requires
        before == *old(told),
        call_ensures(Controls::error, (&before,), earlier),
        call_ensures(Controls::handle, (told, event, input_position), change),
        after == *final(told),
        call_ensures(Controls::error, (&after,), error),
    ensures
        event is Snapshot ==> error is None,
        event is Level ==> error is Some == earlier is Some,
        event is Level && earlier is Some ==> error->Some_0@ == earlier->Some_0@,
{
}

/// The bar shows the level of a microphone that is not muted as it is, and nothing of one that is;
/// the text reports a signal exactly above a fiftieth of full scale.
pub proof fn law_meter_shows_the_level(level: Level, muted: bool, display: MeterDisplay)
    requires
        call_ensures(meter_display, (level, muted), display),
    ensures
        muted ==> display.fraction.attos == 0 && display.state == MeterState::Muted,
        !muted ==> display.fraction == level,
        !muted && level.attos > 20_000_000_000_000_000 ==> display.state == MeterState::Receiving,
        !muted && level.attos <= 20_000_000_000_000_000 ==> display.state == MeterState::Silent,
{
}

/// Each state of the meter has its own text.
pub proof fn law_meter_tells_its_state(state: MeterState, text: &'static str)
    requires
        call_ensures(MeterState::text, (state,), text),
    ensures
        state == MeterState::Muted ==> text@ == "已静音"@,
        state == MeterState::Receiving ==> text@ == "正在接收"@,
        state == MeterState::Silent ==> text@ == "无信号"@,
{
}

/// A level changes nothing but the meter, which goes by the muting of the input that is selected.
pub proof fn law_level_reaches_the_meter(
    told: &mut Controls,
    level: Level,
    input_position: u32,
    change: ControlsChange,
)
    requires
        call_ensures(Controls::handle, (told, AudioEvent::Level(level), input_position), change),
    ensures
        final(told)@ == old(told)@,
        change is Meter,
        ({
            let display = change->Meter_0;
            let inputs = old(told)@.input.devices;
            let muted = input_position < inputs.len() && inputs[input_position as int].muted;
            &&& muted ==> display.fraction.attos == 0 && display.state == MeterState::Muted
            &&& !muted ==> display.fraction == level
            &&& !muted && level.attos > 20_000_000_000_000_000 ==> display.state
                == MeterState::Receiving
            &&& !muted && level.attos <= 20_000_000_000_000_000 ==> display.state
                == MeterState::Silent
        }),
{
}

/// After a snapshot of the inputs, the meter is silent for each input that was reported muted, and
/// shows the level for each that was not.
pub proof fn law_reported_muting_silences_the_meter(
    shown: &mut Controls,
    state: EndpointState,
    earlier_position: u32,
    presented: ControlsChange,
    told: &mut Controls,
    level: Level,
    input_position: u32,
    change: ControlsChange,
)
    requires
        state.kind == EndpointKind::Input,
        call_ensures(
            Controls::handle,
            (shown, AudioEvent::Snapshot(state), earlier_position),
            presented,
        ),
        *old(told) == *final(shown),
        call_ensures(Controls::handle, (told, AudioEvent::Level(level), input_position), change),
    ensures
        change is Meter,
        input_position < state.devices@.len() && state.devices@[input_position as int].muted
            ==> change->Meter_0.fraction.attos == 0 && change->Meter_0.state == MeterState::Muted,
        input_position >= state.devices@.len() || !state.devices@[input_position as int].muted
            ==> change->Meter_0.fraction == level && change->Meter_0.state != MeterState::Muted,
{
    if input_position < state.devices@.len() {
        assert(old(told)@.input.devices[input_position as int]
            == state.devices@[input_position as int].deep_view());
    }
}

/// A request to toggle hides a visible window and presents a hidden one; without a request the
/// window is kept.
pub proof fn law_request_toggles_the_window(requested: bool, visible: bool, action: WindowAction)
    requires
        call_ensures(toggle, (requested, visible), action),
    ensures
        !requested ==> action == WindowAction::Keep,
        requested && visible ==> action == WindowAction::Hide,
        requested && !visible ==> action == WindowAction::Present,
{
}

/// The window is tied to the left and the top of the screen, and to no other edge.
pub proof fn law_window_stays_in_its_corner(edge: ScreenEdge, tied: bool)
    requires
        call_ensures(anchored, (edge,), tied),
    ensures
        edge == ScreenEdge::Left || edge == ScreenEdge::Top ==> tied,
        edge == ScreenEdge::Right || edge == ScreenEdge::Bottom ==> !tied,
        window::WINDOW_WIDTH == 480,
        window::WINDOW_HEIGHT == 360,
        window::LEFT_MARGIN == 1300,
        window::TOGGLE_MILLIS == 16,
{
}

} // verus!
