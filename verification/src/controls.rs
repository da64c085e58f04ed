//! The whole panel: both endpoints, the level meter and the error line.
use vstd::prelude::*;

use crate::device::{EndpointKind, EndpointState, StateView};
use crate::level::{Level, SIGNAL_FLOOR};
use crate::panel;
use crate::panel::{EndpointPanel, PanelUpdate, PanelView};
use crate::volume::Volume;
use crate::worker;
use crate::worker::{AudioEvent, EventView};

verus! {

/// How often the devices are read anew, in milliseconds.
pub const REFRESH_MILLIS: u64 = 2000;

/// How often the panel looks for events, in milliseconds.
pub const EVENT_MILLIS: u64 = 40;

/// The text beside the level bar before the first level arrives.
pub const METER_WAITING: &'static str = "等待信号";

/// What the level meter says.
#[derive(Debug, Clone, Copy, PartialEq, Eq, Structural)]
pub enum MeterState {
    Muted,
    Receiving,
    Silent,
}

impl MeterState {
    /// The text beside the level bar.
    pub fn text(self) -> (text: &'static str)
        ensures
            text@ == match self {
                MeterState::Muted => "已静音"@,
                MeterState::Receiving => "正在接收"@,
                MeterState::Silent => "无信号"@,
            },
    {
        match self {
            MeterState::Muted => "已静音",
            MeterState::Receiving => "正在接收",
            MeterState::Silent => "无信号",
        }
    }
}

/// What the level bar and its text show.
#[derive(Debug, Clone, Copy, PartialEq, Eq, Structural)]
pub struct MeterDisplay {
    pub fraction: Level,
    pub state: MeterState,
}

/// What the meter shows for `level` while the selected microphone is `muted` or not.
pub open spec fn meter_display_of(level: Level, muted: bool) -> MeterDisplay {
    if muted {
        MeterDisplay { fraction: Level { attos: 0 }, state: MeterState::Muted }
    } else {
        MeterDisplay {
            fraction: level,
            state: if level.attos > SIGNAL_FLOOR {
                MeterState::Receiving
            } else {
                MeterState::Silent
            },
        }
    }
}

/// Computes [`meter_display_of`].
pub fn meter_display(level: Level, muted: bool) -> (display: MeterDisplay)
    ensures
        display == meter_display_of(level, muted),
{
    if muted {
        MeterDisplay { fraction: Level::silence(), state: MeterState::Muted }
    } else if level.attos > SIGNAL_FLOOR {
        MeterDisplay { fraction: level, state: MeterState::Receiving }
    } else {
        MeterDisplay { fraction: level, state: MeterState::Silent }
    }
}

/// What stands behind the widgets.
pub struct Controls {
    output: EndpointPanel,
    input: EndpointPanel,
    error: Option<String>,
}

/// The mathematical content of [`Controls`].
pub struct ControlsView {
    pub output: PanelView,
    pub input: PanelView,
    /// The error that is revealed, if one is.
    pub error: Option<Seq<char>>,
}

impl View for Controls {
    type V = ControlsView;

    closed spec fn view(&self) -> ControlsView {
        ControlsView {
            output: self.output@,
            input: self.input@,
            error: self.error.deep_view(),
        }
    }
}

impl ControlsView {
    /// Each panel carries its own kind.
    pub open spec fn well_formed(self) -> bool {
        &&& self.output.kind == EndpointKind::Output
        &&& self.input.kind == EndpointKind::Input
    }

    /// The panel of `kind`.
    pub open spec fn endpoint(self, kind: EndpointKind) -> PanelView {
        match kind {
            EndpointKind::Output => self.output,
            EndpointKind::Input => self.input,
        }
    }

    /// The controls with the panel of `kind` replaced.
    pub open spec fn with_endpoint(self, kind: EndpointKind, panel: PanelView) -> ControlsView {
        match kind {
            EndpointKind::Output => ControlsView { output: panel, ..self },
            EndpointKind::Input => ControlsView { input: panel, ..self },
        }
    }
}

/// How the widgets have to be set after an event.
pub enum ControlsChange {
    /// Set the widgets of one endpoint, then call [`EndpointPanel::finish_update`]; hide the error.
    Endpoint { kind: EndpointKind, update: PanelUpdate },
    /// Set the level bar and its text.
    Meter(MeterDisplay),
    /// Reveal the error.
    Error,
}

/// The panel of one endpoint while its widgets are being set from `state`.
pub open spec fn panel_showing(panel: PanelView, state: StateView) -> PanelView {
    PanelView { devices: state.devices, updating: true, ..panel }
}

/// `before` turns into `after` and asks for `change` when `event` arrives while the entry at
/// `input_position` is selected among the inputs.
pub open spec fn controls_step(
    before: ControlsView,
    event: EventView,
    input_position: u32,
    after: ControlsView,
    change: ControlsChange,
) -> bool {
    match event {
        EventView::Snapshot(state) => {
            let panel = panel_showing(before.endpoint(state.kind), state);
            &&& after == (ControlsView { error: None, ..before.with_endpoint(state.kind, panel) })
            &&& change matches ControlsChange::Endpoint { kind, update }
            &&& kind == state.kind
            &&& panel::shows(update, state)
        },
        EventView::Level(level) => {
            let muted = panel::device_at(before.input, input_position) matches Some(device)
                && device.muted;
            &&& after == before
            &&& change == ControlsChange::Meter(meter_display_of(level, muted))
        },
        EventView::Error(message) => {
            &&& after == (ControlsView { error: Some(message), ..before })
            &&& change is Error
        },
    }
}

impl Controls {
    /// Controls without devices and without an error.
    pub fn new() -> (controls: Controls)
        ensures
            controls@.well_formed(),
            controls@.error is None,
            controls@.output.devices.len() == 0,
            controls@.input.devices.len() == 0,
            !controls@.output.updating && !controls@.output.volume_pending,
            !controls@.input.updating && !controls@.input.volume_pending,
            controls@.output.latest_volume == (Volume { units: 0 }),
            controls@.input.latest_volume == (Volume { units: 0 }),
    {
        Controls {
            output: EndpointPanel::new(EndpointKind::Output),
            input: EndpointPanel::new(EndpointKind::Input),
            error: None,
        }
    }

    /// The panel of `kind`.
    pub fn endpoint(&self, kind: EndpointKind) -> (panel: &EndpointPanel)
        ensures
            panel@ == self@.endpoint(kind),
    {
        match kind {
            EndpointKind::Output => &self.output,
            EndpointKind::Input => &self.input,
        }
    }

    /// The panel of `kind`, to be changed.
    pub fn endpoint_mut(&mut self, kind: EndpointKind) -> (panel: &mut EndpointPanel)
        ensures
            panel@ == old(self)@.endpoint(kind),
            final(self)@ == old(self)@.with_endpoint(kind, final(panel)@),
    {
        match kind {
            EndpointKind::Output => &mut self.output,
            EndpointKind::Input => &mut self.input,
        }
    }

    /// The error that is revealed, if one is.
    pub fn error(&self) -> (error: Option<&String>)
        ensures
            match self@.error {
                Some(message) => error matches Some(shown) && shown@ == message,
                None => error is None,
            },
    {
        match &self.error {
            Some(message) => Some(message),
            None => None,
        }
    }

    /// Takes over a snapshot.
    fn apply_snapshot(&mut self, state: EndpointState) -> (update: PanelUpdate)
        ensures
            panel::shows(update, state.deep_view()),
            final(self)@ == old(self)@.with_endpoint(
                state.kind,
                panel_showing(old(self)@.endpoint(state.kind), state.deep_view()),
            ),
    {
        self.endpoint_mut(state.kind).apply_snapshot(state)
    }

    /// Takes in an event while the entry at `input_position` is selected among the inputs.
    pub fn handle(&mut self, event: AudioEvent, input_position: u32) -> (change: ControlsChange)
        ensures
            controls_step(old(self)@, event.deep_view(), input_position, final(self)@, change),
    {
        match event {
            AudioEvent::Snapshot(state) => {
                let kind = state.kind;
                let update = self.apply_snapshot(state);
                self.error = None;
                ControlsChange::Endpoint { kind, update }
            },
            AudioEvent::Level(level) => {
                let muted = self.input.is_muted(input_position);
                ControlsChange::Meter(meter_display(level, muted))
            },
            AudioEvent::Error(message) => {
                self.error = Some(message);
                ControlsChange::Error
            },
        }
    }
}

/// Every event leaves the panels with their kinds, and touches at most one of them.
pub proof fn law_events_keep_kinds(
    before: ControlsView,
    event: EventView,
    input_position: u32,
    after: ControlsView,
    change: ControlsChange,
)
    requires
        before.well_formed(),
        controls_step(before, event, input_position, after, change),
    ensures
        after.well_formed(),
        !(event is Snapshot) ==> after.output == before.output && after.input == before.input,
        event is Snapshot && event->Snapshot_0.kind == EndpointKind::Output ==> after.input
            == before.input,
        event is Snapshot && event->Snapshot_0.kind == EndpointKind::Input ==> after.output
            == before.output,
{
}

/// The error that is revealed after `event`, if `error` was before.
pub open spec fn error_after(error: Option<Seq<char>>, event: EventView) -> Option<Seq<char>> {
    match event {
        EventView::Snapshot(_) => None,
        EventView::Level(_) => error,
        EventView::Error(message) => Some(message),
    }
}

/// The error that is revealed after all of `events`, if `error` was before.
pub open spec fn error_after_all(
    error: Option<Seq<char>>,
    events: Seq<EventView>,
) -> Option<Seq<char>>
    decreases events.len(),
{
    if events.len() == 0 {
        error
    } else {
        error_after(error_after_all(error, events.drop_last()), events.last())
    }
}

/// What is revealed depends on the events alone.
pub proof fn law_events_decide_the_error(
    before: ControlsView,
    event: EventView,
    input_position: u32,
    after: ControlsView,
    change: ControlsChange,
)
    requires
        controls_step(before, event, input_position, after, change),
    ensures
        after.error == error_after(before.error, event),
{
}

/// The last snapshot or error decides what is revealed, whatever came before it; levels do not
/// matter.
pub proof fn law_last_word_decides_the_error(
    error: Option<Seq<char>>,
    events: Seq<EventView>,
    last: int,
)
    requires
        0 <= last < events.len(),
        !(events[last] is Level),
        forall|i: int| last < i < events.len() ==> #[trigger] events[i] is Level,
    ensures
        error_after_all(error, events) == match events[last] {
            EventView::Error(message) => Some(message),
            _ => None,
        },
    decreases events.len(),
{
    if last < events.len() - 1 {
        let earlier = events.drop_last();
        assert forall|i: int| last < i < earlier.len() implies #[trigger] earlier[i] is Level by {
            assert(events[i] is Level);
        }
        law_last_word_decides_the_error(error, earlier, last);
        assert(events[events.len() - 1] is Level);
    }
}

/// The error of a command that failed is what the user sees in the end: the snapshots that the
/// worker publishes with it come first and do not hide it.
pub proof fn law_failed_command_is_revealed(
    error: Option<Seq<char>>,
    read: Result<Vec<EndpointState>, String>,
    result: Result<(), String>,
)
    requires
        result is Err,
    ensures
        error_after_all(error, worker::snapshot_events(read) + worker::failure_events(result))
            == Some(result->Err_0@),
{
    worker::law_failed_command_ends_with_its_error(read, result);
}

/// A command that succeeds, with at least one endpoint read anew, leaves no error behind; if the
/// devices cannot be read, that is what the user sees.
pub proof fn law_successful_command_clears_the_error(
    error: Option<Seq<char>>,
    read: Result<Vec<EndpointState>, String>,
)
    ensures
        read is Ok && read->Ok_0@.len() > 0 ==> error_after_all(
            error,
            worker::snapshot_events(read) + worker::failure_events(Ok(())),
        ) is None,
        read is Err ==> error_after_all(
            error,
            worker::snapshot_events(read) + worker::failure_events(Ok(())),
        ) == Some(read->Err_0@),
{
    let events = worker::snapshot_events(read) + worker::failure_events(Ok(()));
    assert(events =~= worker::snapshot_events(read));
}

/// A muted microphone shows no level, whatever was captured; one that is not muted shows the level
/// and reports a signal exactly above the floor.
pub proof fn law_muted_microphone_shows_nothing(level: Level, muted: bool)
    ensures
        muted ==> meter_display_of(level, muted).fraction.attos == 0 && meter_display_of(
            level,
            muted,
        ).state is Muted,
        !muted ==> meter_display_of(level, muted).fraction == level,
        meter_display_of(level, muted).state is Receiving <==> !muted && level.attos
            > SIGNAL_FLOOR,
{
}

} // verus!
