//! What a connected backend knows, and how the answers of PulseAudio change it.
use vstd::prelude::*;

use crate::device;
use crate::device::{
    position_of_index, AudioDevice, DeviceView, EndpointKind, EndpointState, StateView,
};
use crate::meter;
use crate::meter::{Meter, MeterAction, MeterEvent};
use crate::reply;
use crate::reply::wait_success;
use crate::volume;
use crate::volume::{channel_volume, ChannelVolume, Volume};

verus! {

/// The state of a connected backend: the devices last read, and the microphone meter.
pub struct Session {
    output: EndpointState,
    input: EndpointState,
    meter: Meter,
}

/// The mathematical content of a [`Session`].
pub struct SessionView {
    pub output: StateView,
    pub input: StateView,
    pub meter: Meter,
}

impl View for Session {
    type V = SessionView;

    closed spec fn view(&self) -> SessionView {
        SessionView {
            output: self.output.deep_view(),
            input: self.input.deep_view(),
            meter: self.meter,
        }
    }
}

impl SessionView {
    /// Each endpoint carries its own kind.
    pub open spec fn well_formed(self) -> bool {
        &&& self.output.kind == EndpointKind::Output
        &&& self.input.kind == EndpointKind::Input
    }

    /// The endpoint of `kind`.
    pub open spec fn endpoint(self, kind: EndpointKind) -> StateView {
        match kind {
            EndpointKind::Output => self.output,
            EndpointKind::Input => self.input,
        }
    }

    /// The session with the endpoint of `kind` replaced.
    pub open spec fn with_endpoint(self, kind: EndpointKind, state: StateView) -> SessionView {
        match kind {
            EndpointKind::Output => SessionView { output: state, ..self },
            EndpointKind::Input => SessionView { input: state, ..self },
        }
    }

    /// The session with other devices of `kind`.
    pub open spec fn with_devices(
        self,
        kind: EndpointKind,
        devices: Seq<DeviceView>,
    ) -> SessionView {
        self.with_endpoint(kind, StateView { devices, ..self.endpoint(kind) })
    }

    /// The session with another default device of `kind`.
    pub open spec fn with_default(
        self,
        kind: EndpointKind,
        default_name: Option<Seq<char>>,
    ) -> SessionView {
        self.with_endpoint(kind, StateView { default_name, ..self.endpoint(kind) })
    }

    /// The session with the first device of `kind` and `index`, if there is one, turned into
    /// `change` of it.
    pub open spec fn with_change(
        self,
        kind: EndpointKind,
        index: u32,
        change: spec_fn(DeviceView) -> DeviceView,
    ) -> SessionView {
        let devices = self.endpoint(kind).devices;
        match device::first_match(devices, device::has_index(index)) {
            Some(position) => self.with_devices(
                kind,
                devices.update(position, change(devices[position])),
            ),
            None => self,
        }
    }
}

/// Sets the volume of a device.
pub open spec fn to_volume(volume: Volume) -> spec_fn(DeviceView) -> DeviceView {
    |device: DeviceView| DeviceView { volume, ..device }
}

/// Mutes or unmutes a device.
pub open spec fn to_muted(muted: bool) -> spec_fn(DeviceView) -> DeviceView {
    |device: DeviceView| DeviceView { muted, ..device }
}

/// The message for a device that is no longer there.
pub open spec fn device_is_gone() -> Seq<char> {
    "选择的音频设备已不可用，请刷新"@
}

/// What was read, in the order in which a refresh reads it.
pub enum RefreshEvent {
    OutputsListed(Result<Vec<AudioDevice>, String>),
    InputsListed(Result<Vec<AudioDevice>, String>),
    DefaultsRead(Result<(Option<String>, Option<String>), String>),
    MeterStarted(Result<(), String>),
}

/// What to do next in a refresh. It begins with listing the outputs.
pub enum RefreshAction {
    ListInputs,
    ReadDefaults,
    /// Let the meter record from this source.
    StartMeter(String),
    /// Report the outcome.
    Finish(Result<Vec<EndpointState>, String>),
}

/// The refresh is over and reports both endpoints of `session`.
pub open spec fn reports_session(action: RefreshAction, session: SessionView) -> bool {
    &&& action matches RefreshAction::Finish(Ok(states))
    &&& states.deep_view() == seq![session.output, session.input]
}

/// The refresh is over and reports the failure `reason`.
pub open spec fn reports_failure(action: RefreshAction, reason: Seq<char>) -> bool {
    &&& action matches RefreshAction::Finish(Err(message))
    &&& message@ == reason
}

/// `before` turns into `after` and asks for `action` when `event` happens.
pub open spec fn refresh_step(
    before: SessionView,
    event: RefreshEvent,
    after: SessionView,
    action: RefreshAction,
) -> bool {
    match event {
        RefreshEvent::OutputsListed(Ok(devices)) => {
            &&& after == before.with_devices(EndpointKind::Output, devices.deep_view())
            &&& action is ListInputs
        },
        RefreshEvent::InputsListed(Ok(devices)) => {
            &&& after == before.with_devices(EndpointKind::Input, devices.deep_view())
            &&& action is ReadDefaults
        },
        RefreshEvent::DefaultsRead(Ok(names)) => {
            &&& after == before.with_default(
                EndpointKind::Output,
                names.0.deep_view(),
            ).with_default(EndpointKind::Input, names.1.deep_view())
            &&& match names.1 {
                Some(source) => action matches RefreshAction::StartMeter(from) && from@ == source@,
                None => reports_session(action, after),
            }
        },
        RefreshEvent::MeterStarted(Ok(_)) => {
            &&& after == before
            &&& reports_session(action, after)
        },
        RefreshEvent::OutputsListed(Err(reason)) => after == before && reports_failure(
            action,
            reason@,
        ),
        RefreshEvent::InputsListed(Err(reason)) => after == before && reports_failure(
            action,
            reason@,
        ),
        RefreshEvent::DefaultsRead(Err(reason)) => after == before && reports_failure(
            action,
            reason@,
        ),
        RefreshEvent::MeterStarted(Err(reason)) => after == before && reports_failure(
            action,
            reason@,
        ),
    }
}

/// A device that is being made the default one.
pub struct Selection {
    pub kind: EndpointKind,
    pub index: u32,
    pub name: String,
}

/// What happened while a device is being made the default one, in this order.
pub enum SelectEvent {
    /// The answer to the request to make it the default device, if one came in time.
    DefaultSet(Option<bool>),
    /// The streams of running applications were moved.
    StreamsMoved(Result<(), String>),
    /// The meter was restarted.
    MeterStarted(Result<(), String>),
}

/// What to do next. It begins with the request to make the device the default one.
pub enum SelectAction {
    /// Move the streams of running applications to the device.
    MoveStreams,
    /// Let the meter record from the device.
    StartMeter,
    /// Report the outcome.
    Finish(Result<(), String>),
}

/// The selection has succeeded: the device is remembered as the default one.
pub open spec fn selection_done(
    before: SessionView,
    selection: Selection,
    after: SessionView,
    action: SelectAction,
) -> bool {
    &&& after == before.with_default(selection.kind, Some(selection.name@))
    &&& action matches SelectAction::Finish(Ok(_))
}

/// The selection has failed for `reason`: nothing changes.
pub open spec fn selection_failed(
    before: SessionView,
    reason: Seq<char>,
    after: SessionView,
    action: SelectAction,
) -> bool {
    &&& after == before
    &&& action matches SelectAction::Finish(Err(message))
    &&& message@ == reason
}

/// `before` turns into `after` and asks for `action` when `event` happens to `selection`.
pub open spec fn select_step(
    before: SessionView,
    selection: Selection,
    event: SelectEvent,
    after: SessionView,
    action: SelectAction,
) -> bool {
    match event {
        SelectEvent::DefaultSet(answer) => match reply::failure_of(answer, "切换默认设备"@) {
            None => after == before && action is MoveStreams,
            Some(reason) => selection_failed(before, reason, after, action),
        },
        SelectEvent::StreamsMoved(Ok(_)) => if selection.kind == EndpointKind::Input {
            after == before && action is StartMeter
        } else {
            selection_done(before, selection, after, action)
        },
        SelectEvent::MeterStarted(Ok(_)) => selection_done(before, selection, after, action),
        SelectEvent::StreamsMoved(Err(reason)) => selection_failed(before, reason@, after, action),
        SelectEvent::MeterStarted(Err(reason)) => selection_failed(before, reason@, after, action),
    }
}

impl Session {
    /// A session in which nothing has been read yet.
    pub fn new() -> (session: Session)
        ensures
            session@.well_formed(),
            session@.output.devices == Seq::<DeviceView>::empty(),
            session@.input.devices == Seq::<DeviceView>::empty(),
            session@.output.default_name is None,
            session@.input.default_name is None,
            !session@.meter.running,
    {
        let session = Session {
            output: EndpointState {
                kind: EndpointKind::Output,
                devices: Vec::new(),
                default_name: None,
            },
            input: EndpointState {
                kind: EndpointKind::Input,
                devices: Vec::new(),
                default_name: None,
            },
            meter: Meter::stopped(),
        };
        assert(session@.output.devices =~= Seq::<DeviceView>::empty());
        assert(session@.input.devices =~= Seq::<DeviceView>::empty());
        session
    }

    /// The endpoint of `kind`.
    pub fn endpoint(&self, kind: EndpointKind) -> (state: &EndpointState)
        ensures
            state.deep_view() == self@.endpoint(kind),
    {
        match kind {
            EndpointKind::Output => &self.output,
            EndpointKind::Input => &self.input,
        }
    }

    /// The endpoint of `kind`, to be changed.
    fn endpoint_mut(&mut self, kind: EndpointKind) -> (state: &mut EndpointState)
        ensures
            state.deep_view() == old(self)@.endpoint(kind),
            final(self)@ == old(self)@.with_endpoint(kind, final(state).deep_view()),
    {
        match kind {
            EndpointKind::Output => &mut self.output,
            EndpointKind::Input => &mut self.input,
        }
    }

    /// The first device of `kind` with the index `index`.
    pub fn selected(&self, kind: EndpointKind, index: u32) -> (result: Result<
        &AudioDevice,
        String,
    >)
        ensures
            match device::first_match(self@.endpoint(kind).devices, device::has_index(index)) {
                Some(position) => result matches Ok(found) && found.deep_view() == self@.endpoint(
                    kind,
                ).devices[position],
                None => result matches Err(message) && message@ == device_is_gone(),
            },
    {
        let devices = &self.endpoint(kind).devices;
        match position_of_index(devices, index) {
            Some(position) => Ok(&devices[position]),
            None => Err("选择的音频设备已不可用，请刷新".to_string()),
        }
    }

    /// Carries the replacement of the meter's stream on; see [`Meter::step`].
    pub fn start_meter(&mut self, event: MeterEvent) -> (action: MeterAction)
        ensures
            meter::meter_step(old(self)@.meter, event, final(self)@.meter, action),
            final(self)@ == (SessionView { meter: final(self)@.meter, ..old(self)@ }),
    {
        self.meter.step(event)
    }

    /// Takes in what a refresh has read.
    pub fn refresh(&mut self, event: RefreshEvent) -> (action: RefreshAction)
        ensures
            refresh_step(old(self)@, event, final(self)@, action),
    {
        match event {
            RefreshEvent::OutputsListed(Ok(devices)) => {
                self.output.devices = devices;
                RefreshAction::ListInputs
            },
            RefreshEvent::InputsListed(Ok(devices)) => {
                self.input.devices = devices;
                RefreshAction::ReadDefaults
            },
            RefreshEvent::DefaultsRead(Ok((sink, source))) => {
                self.output.default_name = sink;
                self.input.default_name = source;
                match &self.input.default_name {
                    Some(source) => RefreshAction::StartMeter(source.clone()),
                    None => RefreshAction::Finish(Ok(self.snapshot())),
                }
            },
            RefreshEvent::MeterStarted(Ok(_)) => RefreshAction::Finish(Ok(self.snapshot())),
            RefreshEvent::OutputsListed(Err(reason)) => RefreshAction::Finish(Err(reason)),
            RefreshEvent::InputsListed(Err(reason)) => RefreshAction::Finish(Err(reason)),
            RefreshEvent::DefaultsRead(Err(reason)) => RefreshAction::Finish(Err(reason)),
            RefreshEvent::MeterStarted(Err(reason)) => RefreshAction::Finish(Err(reason)),
        }
    }

    /// A copy of both endpoints, the outputs first.
    fn snapshot(&self) -> (states: Vec<EndpointState>)
        ensures
            states.deep_view() == seq![self@.output, self@.input],
    {
        let mut states: Vec<EndpointState> = Vec::new();
        states.push(self.output.clone());
        states.push(self.input.clone());
        assert(states.deep_view() =~= seq![self@.output, self@.input]);
        states
    }

    /// Looks up the device that is to become the default one.
    pub fn select(&self, kind: EndpointKind, index: u32) -> (result: Result<Selection, String>)
        ensures
            match device::first_match(self@.endpoint(kind).devices, device::has_index(index)) {
                Some(position) => {
                    &&& result matches Ok(selection)
                    &&& selection.kind == kind
                    &&& selection.index == index
                    &&& selection.name@ == self@.endpoint(kind).devices[position].name
                },
                None => result matches Err(message) && message@ == device_is_gone(),
            },
    {
        match self.selected(kind, index) {
            Ok(device) => Ok(Selection { kind, index, name: device.name.clone() }),
            Err(message) => Err(message),
        }
    }

    /// Carries a selection on.
    pub fn continue_selection(&mut self, selection: &Selection, event: SelectEvent) -> (action:
        SelectAction)
        ensures
            select_step(old(self)@, *selection, event, final(self)@, action),
    {
        match event {
            SelectEvent::DefaultSet(answer) => match wait_success(answer, "切换默认设备") {
                Ok(_) => SelectAction::MoveStreams,
                Err(reason) => SelectAction::Finish(Err(reason)),
            },
            SelectEvent::StreamsMoved(Ok(_)) => {
                if selection.kind == EndpointKind::Input {
                    SelectAction::StartMeter
                } else {
                    self.finish_selection(selection)
                }
            },
            SelectEvent::MeterStarted(Ok(_)) => self.finish_selection(selection),
            SelectEvent::StreamsMoved(Err(reason)) => SelectAction::Finish(Err(reason)),
            SelectEvent::MeterStarted(Err(reason)) => SelectAction::Finish(Err(reason)),
        }
    }

    /// Remembers the selected device as the default one.
    fn finish_selection(&mut self, selection: &Selection) -> (action: SelectAction)
        ensures
            selection_done(old(self)@, *selection, final(self)@, action),
    {
        self.endpoint_mut(selection.kind).default_name = Some(selection.name.clone());
        SelectAction::Finish(Ok(()))
    }

    /// The request that sets the volume of a device on all of its channels.
    pub fn set_volume(&self, kind: EndpointKind, index: u32, volume: Volume) -> (result: Result<
        ChannelVolume,
        String,
    >)
        ensures
            match device::first_match(self@.endpoint(kind).devices, device::has_index(index)) {
                Some(position) => result == Ok::<ChannelVolume, String>(
                    volume::channel_volume_of(
                        volume,
                        self@.endpoint(kind).devices[position].channels,
                    ),
                ),
                None => result matches Err(message) && message@ == device_is_gone(),
            },
    {
        match self.selected(kind, index) {
            Ok(device) => Ok(channel_volume(volume, device.channels)),
            Err(message) => Err(message),
        }
    }

    /// Takes in the answer to the request to set a volume.
    pub fn volume_set(
        &mut self,
        kind: EndpointKind,
        index: u32,
        volume: Volume,
        answer: Option<bool>,
    ) -> (result: Result<(), String>)
        ensures
            reply::reports(result, reply::failure_of(answer, "设置音量"@)),
            final(self)@ == if answer == Some(true) {
                old(self)@.with_change(kind, index, to_volume(volume))
            } else {
                old(self)@
            },
    {
        match wait_success(answer, "设置音量") {
            Ok(_) => {
                let position = position_of_index(&self.endpoint(kind).devices, index);
                if let Some(position) = position {
                    let ghost devices = self@.endpoint(kind).devices;
                    let state = self.endpoint_mut(kind);
                    state.devices[position].volume = volume;
                    assert(state.devices.deep_view() =~= devices.update(
                        position as int,
                        to_volume(volume)(devices[position as int]),
                    ));
                }
                Ok(())
            },
            Err(message) => Err(message),
        }
    }

    /// Takes in the answer to the request to mute or unmute a device.
    pub fn mute_set(
        &mut self,
        kind: EndpointKind,
        index: u32,
        muted: bool,
        answer: Option<bool>,
    ) -> (result: Result<(), String>)
        ensures
            reply::reports(result, reply::failure_of(answer, "设置静音"@)),
            final(self)@ == if answer == Some(true) {
                old(self)@.with_change(kind, index, to_muted(muted))
            } else {
                old(self)@
            },
    {
        match wait_success(answer, "设置静音") {
            Ok(_) => {
                let position = position_of_index(&self.endpoint(kind).devices, index);
                if let Some(position) = position {
                    let ghost devices = self@.endpoint(kind).devices;
                    let state = self.endpoint_mut(kind);
                    state.devices[position].muted = muted;
                    assert(state.devices.deep_view() =~= devices.update(
                        position as int,
                        to_muted(muted)(devices[position as int]),
                    ));
                }
                Ok(())
            },
            Err(message) => Err(message),
        }
    }
}

/// The endpoints keep their kinds, whatever a refresh reads.
pub proof fn law_refresh_keeps_kinds(
    before: SessionView,
    event: RefreshEvent,
    after: SessionView,
    action: RefreshAction,
)
    requires
        before.well_formed(),
        refresh_step(before, event, after, action),
    ensures
        after.well_formed(),
        after.meter == before.meter,
{
}

/// A refresh that reads everything holds exactly what was read, whatever was known before, and
/// reports it: at once if there is no default source, else once the meter has started.
pub proof fn law_refresh_holds_what_was_read(
    first: SessionView,
    second: SessionView,
    third: SessionView,
    fourth: SessionView,
    metered: SessionView,
    last: SessionView,
    outputs: Vec<AudioDevice>,
    inputs: Vec<AudioDevice>,
    names: (Option<String>, Option<String>),
    after_outputs: RefreshAction,
    after_inputs: RefreshAction,
    after_names: RefreshAction,
    after_meter: RefreshAction,
)
    requires
        first.well_formed(),
        refresh_step(first, RefreshEvent::OutputsListed(Ok(outputs)), second, after_outputs),
        refresh_step(second, RefreshEvent::InputsListed(Ok(inputs)), third, after_inputs),
        refresh_step(third, RefreshEvent::DefaultsRead(Ok(names)), fourth, after_names),
        metered == (SessionView { meter: metered.meter, ..fourth }),
        refresh_step(metered, RefreshEvent::MeterStarted(Ok(())), last, after_meter),
    ensures
        ({
            let output = StateView {
                kind: EndpointKind::Output,
                devices: outputs.deep_view(),
                default_name: names.0.deep_view(),
            };
            let input = StateView {
                kind: EndpointKind::Input,
                devices: inputs.deep_view(),
                default_name: names.1.deep_view(),
            };
            &&& fourth.output == output && fourth.input == input
            &&& last.output == output && last.input == input
            &&& names.1 is None ==> reports_session(after_names, fourth)
            &&& names.1 is Some ==> after_names is StartMeter && reports_session(after_meter, last)
            &&& names.1 is Some ==> after_names->StartMeter_0@ == names.1->Some_0@
        }),
{
}

/// A refresh that fails at some step changes nothing at that step, so the last list that was read
/// is kept.
pub proof fn law_failed_refresh_keeps_the_last_state(
    before: SessionView,
    event: RefreshEvent,
    after: SessionView,
    action: RefreshAction,
)
    requires
        refresh_step(before, event, after, action),
        action is Finish,
        action->Finish_0 is Err,
    ensures
        after == before,
{
}

/// A step of a selection touches nothing but the default name of the selected kind, and that only
/// when the selection reports success; then it names the selected device.
pub proof fn law_selection_changes_only_the_default(
    before: SessionView,
    selection: Selection,
    event: SelectEvent,
    after: SessionView,
    action: SelectAction,
)
    requires
        select_step(before, selection, event, after, action),
    ensures
        action is Finish && action->Finish_0 is Ok ==> after.endpoint(selection.kind).default_name
            == Some(selection.name@),
        !(action is Finish && action->Finish_0 is Ok) ==> after == before,
        after == before.with_default(
            selection.kind,
            after.endpoint(selection.kind).default_name,
        ),
        forall|other: EndpointKind|
            other != selection.kind ==> #[trigger] after.endpoint(other) == before.endpoint(other),
        before.well_formed() ==> after.well_formed(),
        after.meter == before.meter,
{
}

/// A selection goes through exactly if each of its parts does: the device becomes the default one,
/// the running streams are moved, and for an input the meter is restarted; then, and only then,
/// the device is remembered. A part that fails ends the selection with the session as it was.
pub proof fn law_selection_needs_all_of_its_parts(
    first: SessionView,
    second: SessionView,
    third: SessionView,
    metered: SessionView,
    last: SessionView,
    selection: Selection,
    answer: Option<bool>,
    moved: Result<(), String>,
    started: Result<(), String>,
    after_default: SelectAction,
    after_move: SelectAction,
    after_meter: SelectAction,
)
    requires
        select_step(first, selection, SelectEvent::DefaultSet(answer), second, after_default),
        select_step(second, selection, SelectEvent::StreamsMoved(moved), third, after_move),
        metered == (SessionView { meter: metered.meter, ..third }),
        select_step(metered, selection, SelectEvent::MeterStarted(started), last, after_meter),
    ensures
        second == first,
        after_default is MoveStreams <==> answer == Some(true),
        answer != Some(true) ==> after_default is Finish && after_default->Finish_0 is Err,
        moved is Err ==> third == second && after_move is Finish && after_move->Finish_0 is Err,
        selection.kind == EndpointKind::Output && moved is Ok ==> {
            &&& after_move is Finish && after_move->Finish_0 is Ok
            &&& third == first.with_default(EndpointKind::Output, Some(selection.name@))
        },
        selection.kind == EndpointKind::Input && moved is Ok ==> {
            &&& third == first
            &&& after_move is StartMeter
            &&& after_meter is Finish
            &&& after_meter->Finish_0.is_ok() == started.is_ok()
            &&& last == if started.is_ok() {
                metered.with_default(EndpointKind::Input, Some(selection.name@))
            } else {
                metered
            }
        },
{
}

/// A change that keeps the index of a device is found again by a lookup of the index, and touches
/// nothing else.
proof fn lemma_change_reads_back(
    session: SessionView,
    kind: EndpointKind,
    index: u32,
    change: spec_fn(DeviceView) -> DeviceView,
)
    requires
        forall|device: DeviceView| (#[trigger] change(device)).index == device.index,
    ensures
        ({
            let after = session.with_change(kind, index, change);
            let devices = session.endpoint(kind).devices;
            let found = device::first_match(devices, device::has_index(index));
            &&& device::first_match(after.endpoint(kind).devices, device::has_index(index)) == found
            &&& after.endpoint(kind).devices.len() == devices.len()
            &&& forall|i: int|
                0 <= i < devices.len() ==> #[trigger] after.endpoint(kind).devices[i] == if found
                    == Some(i) {
                    change(devices[i])
                } else {
                    devices[i]
                }
            &&& after == session.with_devices(kind, after.endpoint(kind).devices)
        }),
{
    let devices = session.endpoint(kind).devices;
    let wanted = device::has_index(index);
    device::law_first_match_is_the_first(devices, wanted);
    match device::first_match(devices, wanted) {
        Some(position) => {
            let changed = devices.update(position, change(devices[position]));
            device::law_first_match_is_the_first(changed, wanted);
            assert(wanted(changed[position]));
            assert forall|i: int| 0 <= i < position implies !wanted(#[trigger] changed[i]) by {
                assert(!wanted(devices[i]));
            }
        },
        None => {},
    }
}

/// A confirmed volume reads back: a lookup of the index finds the device at the same place, with
/// the volume that was set and otherwise unchanged, while all other devices, the other endpoint,
/// the default names, the kinds and the meter stay as they were. Without such a device nothing
/// changes.
pub proof fn law_set_volume_reads_back(
    session: SessionView,
    kind: EndpointKind,
    index: u32,
    volume: Volume,
)
    ensures
        ({
            let after = session.with_change(kind, index, to_volume(volume));
            let devices = session.endpoint(kind).devices;
            let found = device::first_match(devices, device::has_index(index));
            &&& device::first_match(after.endpoint(kind).devices, device::has_index(index)) == found
            &&& after.endpoint(kind).devices.len() == devices.len()
            &&& forall|i: int|
                0 <= i < devices.len() ==> #[trigger] after.endpoint(kind).devices[i] == if found
                    == Some(i) {
                    DeviceView { volume, ..devices[i] }
                } else {
                    devices[i]
                }
            &&& after == session.with_devices(kind, after.endpoint(kind).devices)
            &&& session.well_formed() ==> after.well_formed()
        }),
{
    lemma_change_reads_back(session, kind, index, to_volume(volume));
}

/// A confirmed muting reads back in the same way.
pub proof fn law_set_mute_reads_back(
    session: SessionView,
    kind: EndpointKind,
    index: u32,
    muted: bool,
)
    ensures
        ({
            let after = session.with_change(kind, index, to_muted(muted));
            let devices = session.endpoint(kind).devices;
            let found = device::first_match(devices, device::has_index(index));
            &&& device::first_match(after.endpoint(kind).devices, device::has_index(index)) == found
            &&& after.endpoint(kind).devices.len() == devices.len()
            &&& forall|i: int|
                0 <= i < devices.len() ==> #[trigger] after.endpoint(kind).devices[i] == if found
                    == Some(i) {
                    DeviceView { muted, ..devices[i] }
                } else {
                    devices[i]
                }
            &&& after == session.with_devices(kind, after.endpoint(kind).devices)
            &&& session.well_formed() ==> after.well_formed()
        }),
{
    lemma_change_reads_back(session, kind, index, to_muted(muted));
}

/// Of two volumes set on the same device the later one stands.
pub proof fn law_later_volume_stands(
    session: SessionView,
    kind: EndpointKind,
    index: u32,
    earlier: Volume,
    later: Volume,
)
    ensures
        session.with_change(kind, index, to_volume(earlier)).with_change(
            kind,
            index,
            to_volume(later),
        ) == session.with_change(kind, index, to_volume(later)),
{
    lemma_change_reads_back(session, kind, index, to_volume(earlier));
    let devices = session.endpoint(kind).devices;
    device::law_first_match_is_the_first(devices, device::has_index(index));
    if let Some(position) = device::first_match(devices, device::has_index(index)) {
        let once = devices.update(position, to_volume(earlier)(devices[position]));
        assert(once.update(position, to_volume(later)(once[position])) =~= devices.update(
            position,
            to_volume(later)(devices[position]),
        ));
    }
}

} // verus!
