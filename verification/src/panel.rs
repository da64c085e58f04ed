//! One half of the panel: the device selector, the volume slider and the mute switch.
use vstd::prelude::*;

use crate::device;
use crate::device::{position_of_name, AudioDevice, DeviceView, EndpointKind, EndpointState, StateView};
use crate::text;
use crate::volume;
use crate::volume::Volume;
use crate::worker::AudioCommand;

verus! {

/// How long slider movements are gathered before the volume is sent, in milliseconds.
pub const VOLUME_DELAY_MILLIS: u64 = 80;

/// The style class of the card that shows the devices of `kind`.
pub fn card_class(kind: EndpointKind) -> (class: &'static str)
    ensures
        class@ == match kind {
            EndpointKind::Output => "output-card"@,
            EndpointKind::Input => "input-card"@,
        },
{
    match kind {
        EndpointKind::Output => "output-card",
        EndpointKind::Input => "input-card",
    }
}

/// The icon of the card that shows the devices of `kind`.
pub fn icon_name(kind: EndpointKind) -> (icon: &'static str)
    ensures
        icon@ == match kind {
            EndpointKind::Output => "audio-speakers-symbolic"@,
            EndpointKind::Input => "audio-input-microphone-symbolic"@,
        },
{
    match kind {
        EndpointKind::Output => "audio-speakers-symbolic",
        EndpointKind::Input => "audio-input-microphone-symbolic",
    }
}

/// What stands behind the widgets of one endpoint.
pub struct EndpointPanel {
    kind: EndpointKind,
    devices: Vec<AudioDevice>,
    updating: bool,
    latest_volume: Volume,
    volume_pending: bool,
}

/// The mathematical content of an [`EndpointPanel`].
pub struct PanelView {
    pub kind: EndpointKind,
    /// The devices in the selector.
    pub devices: Seq<DeviceView>,
    /// The widgets are being set from a snapshot, so their signals mean nothing.
    pub updating: bool,
    /// Where the slider stood when it was last moved.
    pub latest_volume: Volume,
    /// A timer runs at whose end the volume is sent.
    pub volume_pending: bool,
}

impl View for EndpointPanel {
    type V = PanelView;

    closed spec fn view(&self) -> PanelView {
        PanelView {
            kind: self.kind,
            devices: self.devices.deep_view(),
            updating: self.updating,
            latest_volume: self.latest_volume,
            volume_pending: self.volume_pending,
        }
    }
}

/// The values that the widgets of the selected device show.
pub struct ShownDevice {
    pub volume: Volume,
    pub muted: bool,
    /// The text beside the slider.
    pub text: String,
}

/// How the widgets have to be set after a snapshot.
pub struct PanelUpdate {
    /// The entries of the selector.
    pub labels: Vec<String>,
    /// The entry to select.
    pub selected: usize,
    /// The values of the selected device; without one the card is insensitive.
    pub shown: Option<ShownDevice>,
}

/// The entry that a snapshot selects: the default device, or the first if that is not listed.
pub open spec fn selected_position(state: StateView) -> int {
    match state.default_name {
        Some(name) => match device::first_match(state.devices, device::has_name(name)) {
            Some(position) => position,
            None => 0,
        },
        None => 0,
    }
}

/// `update` is what the widgets have to show for `state`.
pub open spec fn shows(update: PanelUpdate, state: StateView) -> bool {
    &&& update.labels.deep_view() == state.devices.map_values(|device: DeviceView| device.label)
    &&& update.selected == selected_position(state)
    &&& match update.shown {
        Some(shown) => {
            let device = state.devices[selected_position(state)];
            &&& state.devices.len() > 0
            &&& shown.volume == device.volume
            &&& shown.muted == device.muted
            &&& shown.text@ == text::decimal_text(volume::percent_of(device.volume) as nat) + "%"@
        },
        None => state.devices.len() == 0,
    }
}

/// The device that stands at `position` in the selector.
pub open spec fn device_at(panel: PanelView, position: u32) -> Option<DeviceView> {
    if position < panel.devices.len() {
        Some(panel.devices[position as int])
    } else {
        None
    }
}

/// What selecting the entry at `position` asks for.
pub open spec fn select_command_of(panel: PanelView, position: u32) -> Option<AudioCommand> {
    match device_at(panel, position) {
        Some(device) if !panel.updating => Some(
            AudioCommand::Select { kind: panel.kind, index: device.index },
        ),
        _ => None,
    }
}

/// What switching the mute switch to `muted` asks for while `position` is selected.
pub open spec fn mute_command_of(panel: PanelView, position: u32, muted: bool) -> Option<
    AudioCommand,
> {
    match device_at(panel, position) {
        Some(device) if !panel.updating => Some(
            AudioCommand::SetMute { kind: panel.kind, index: device.index, muted },
        ),
        _ => None,
    }
}

/// The panel after the slider was moved to `volume`.
pub open spec fn after_slide(panel: PanelView, volume: Volume) -> PanelView {
    if panel.updating {
        panel
    } else {
        PanelView { latest_volume: volume, volume_pending: true, ..panel }
    }
}

/// A movement of the slider starts a timer, unless one runs already.
pub open spec fn slide_starts_timer(panel: PanelView) -> bool {
    !panel.updating && !panel.volume_pending
}

/// The panel after the timer has run out.
pub open spec fn after_timer(panel: PanelView) -> PanelView {
    PanelView { volume_pending: false, ..panel }
}

/// What the end of the timer asks for while `position` is selected.
pub open spec fn timer_command_of(panel: PanelView, position: u32) -> Option<AudioCommand> {
    match device_at(panel, position) {
        Some(device) => Some(
            AudioCommand::SetVolume {
                kind: panel.kind,
                index: device.index,
                volume: panel.latest_volume,
            },
        ),
        None => None,
    }
}

impl EndpointPanel {
    /// A panel without devices.
    pub fn new(kind: EndpointKind) -> (panel: EndpointPanel)
        ensures
            panel@ == (PanelView {
                kind,
                devices: Seq::empty(),
                updating: false,
                latest_volume: Volume { units: 0 },
                volume_pending: false,
            }),
    {
        let panel = EndpointPanel {
            kind,
            devices: Vec::new(),
            updating: false,
            latest_volume: Volume { units: 0 },
            volume_pending: false,
        };
        assert(panel@.devices =~= Seq::<DeviceView>::empty());
        panel
    }

    /// Takes over a snapshot and says how the widgets have to be set. Until
    /// [`EndpointPanel::finish_update`] the signals of the widgets are ignored.
    pub fn apply_snapshot(&mut self, state: EndpointState) -> (update: PanelUpdate)
        ensures
            shows(update, state.deep_view()),
            final(self)@ == (PanelView {
                devices: state.deep_view().devices,
                updating: true,
                ..old(self)@
            }),
    {
        let ghost view = state.deep_view();
        let selected: usize = match &state.default_name {
            Some(name) => match position_of_name(&state.devices, name) {
                Some(position) => position,
                None => 0,
            },
            None => 0,
        };
        let shown = if selected < state.devices.len() {
            let device = &state.devices[selected];
            Some(
                ShownDevice {
                    volume: device.volume,
                    muted: device.muted,
                    text: device.volume.percent_text(),
                },
            )
        } else {
            None
        };
        let labels = labels_of(&state.devices);
        self.devices = state.devices;
        self.updating = true;
        proof {
            if let Some(name) = view.default_name {
                device::law_first_match_is_the_first(view.devices, device::has_name(name));
            }
        }
        PanelUpdate { labels, selected, shown }
    }

    /// The widgets have been set; their signals count again.
    pub fn finish_update(&mut self)
        ensures
            final(self)@ == (PanelView { updating: false, ..old(self)@ }),
    {
        self.updating = false;
    }

    /// The device at `position`.
    fn device_at(&self, position: u32) -> (device: Option<&AudioDevice>)
        ensures
            match device_at(self@, position) {
                Some(view) => device matches Some(found) && found.deep_view() == view,
                None => device is None,
            },
    {
        let position: usize = position as usize;
        if position < self.devices.len() {
            Some(&self.devices[position])
        } else {
            None
        }
    }

    /// Whether the device at `position` is muted; no device is not muted.
    pub fn is_muted(&self, position: u32) -> (muted: bool)
        ensures
            muted == (device_at(self@, position) matches Some(device) && device.muted),
    {
        match self.device_at(position) {
            Some(device) => device.muted,
            None => false,
        }
    }

    /// The entry at `position` was selected.
    pub fn select_command(&self, position: u32) -> (command: Option<AudioCommand>)
        ensures
            command == select_command_of(self@, position),
    {
        if self.updating {
            return None;
        }
        match self.device_at(position) {
            Some(device) => Some(AudioCommand::Select { kind: self.kind, index: device.index }),
            None => None,
        }
    }

    /// The mute switch was switched to `muted` while `position` is selected.
    pub fn mute_command(&self, position: u32, muted: bool) -> (command: Option<AudioCommand>)
        ensures
            command == mute_command_of(self@, position, muted),
    {
        if self.updating {
            return None;
        }
        match self.device_at(position) {
            Some(device) => Some(
                AudioCommand::SetMute { kind: self.kind, index: device.index, muted },
            ),
            None => None,
        }
    }

    /// The slider was moved to `volume`; returns whether a timer has to be started, at whose end
    /// [`EndpointPanel::volume_command`] is due.
    pub fn slide(&mut self, volume: Volume) -> (start_timer: bool)
        ensures
            start_timer == slide_starts_timer(old(self)@),
            final(self)@ == after_slide(old(self)@, volume),
    {
        if self.updating {
            return false;
        }
        self.latest_volume = volume;
        let start_timer = !self.volume_pending;
        self.volume_pending = true;
        start_timer
    }

    /// The timer has run out while `position` is selected.
    pub fn volume_command(&mut self, position: u32) -> (command: Option<AudioCommand>)
        ensures
            command == timer_command_of(old(self)@, position),
            final(self)@ == after_timer(old(self)@),
    {
        self.volume_pending = false;
        match self.device_at(position) {
            Some(device) => Some(
                AudioCommand::SetVolume {
                    kind: self.kind,
                    index: device.index,
                    volume: self.latest_volume,
                },
            ),
            None => None,
        }
    }
}

/// The labels of `devices`, in their order.
fn labels_of(devices: &Vec<AudioDevice>) -> (labels: Vec<String>)
    ensures
        labels.deep_view() == devices.deep_view().map_values(|device: DeviceView| device.label),
{
    let ghost wanted = devices.deep_view().map_values(|device: DeviceView| device.label);
    let mut labels: Vec<String> = Vec::new();
    let mut i: usize = 0;
    while i < devices.len()
        invariant
            i <= devices@.len(),
            wanted == devices.deep_view().map_values(|device: DeviceView| device.label),
            labels@.len() == i,
            forall|j: int| 0 <= j < i ==> (#[trigger] labels@[j])@ == wanted[j],
        decreases devices@.len() - i,
    {
        labels.push(devices[i].label.clone());
        i = i + 1;
    }
    assert(labels.deep_view() =~= wanted);
    labels
}

/// While the widgets are being set from a snapshot, their signals ask for nothing and change
/// nothing.
pub proof fn law_updating_panel_stays_quiet(
    panel: PanelView,
    position: u32,
    muted: bool,
    volume: Volume,
)
    requires
        panel.updating,
    ensures
        select_command_of(panel, position) is None,
        mute_command_of(panel, position, muted) is None,
        !slide_starts_timer(panel),
        after_slide(panel, volume) == panel,
{
}

/// The panel after the slider was moved through `volumes`.
pub open spec fn after_slides(panel: PanelView, volumes: Seq<Volume>) -> PanelView
    decreases volumes.len(),
{
    if volumes.len() == 0 {
        panel
    } else {
        after_slide(after_slides(panel, volumes.drop_last()), volumes.last())
    }
}

/// How many timers were started while the slider was moved through `volumes`.
pub open spec fn timers_started(panel: PanelView, volumes: Seq<Volume>) -> nat
    decreases volumes.len(),
{
    if volumes.len() == 0 {
        0
    } else {
        let earlier = volumes.drop_last();
        timers_started(panel, earlier) + if slide_starts_timer(after_slides(panel, earlier)) {
            1nat
        } else {
            0
        }
    }
}

/// However often the slider moves, one timer runs, and at its end the last position is sent: a
/// drag costs a single command.
pub proof fn law_slides_are_gathered(panel: PanelView, volumes: Seq<Volume>, position: u32)
    requires
        !panel.updating,
        !panel.volume_pending,
        volumes.len() > 0,
    ensures
        timers_started(panel, volumes) == 1,
        after_slides(panel, volumes) == (PanelView {
            latest_volume: volumes.last(),
            volume_pending: true,
            ..panel
        }),
        timer_command_of(after_slides(panel, volumes), position) == match device_at(
            panel,
            position,
        ) {
            Some(device) => Some(
                AudioCommand::SetVolume {
                    kind: panel.kind,
                    index: device.index,
                    volume: volumes.last(),
                },
            ),
            None => None,
        },
        slide_starts_timer(after_timer(after_slides(panel, volumes))),
    decreases volumes.len(),
{
    let earlier = volumes.drop_last();
    if earlier.len() == 0 {
        assert(after_slides(panel, earlier) == panel);
        assert(timers_started(panel, earlier) == 0);
    } else {
        law_slides_are_gathered(panel, earlier, position);
    }
}

/// A command of the panel always addresses the device that stands at the selected entry, as a
/// device of the panel's own kind.
pub proof fn law_commands_address_the_selected_device(
    panel: PanelView,
    position: u32,
    muted: bool,
)
    ensures
        select_command_of(panel, position) is Some ==> {
            &&& position < panel.devices.len()
            &&& select_command_of(panel, position)->Some_0 == (AudioCommand::Select {
                kind: panel.kind,
                index: panel.devices[position as int].index,
            })
        },
        mute_command_of(panel, position, muted) is Some ==> {
            &&& position < panel.devices.len()
            &&& mute_command_of(panel, position, muted)->Some_0 == (AudioCommand::SetMute {
                kind: panel.kind,
                index: panel.devices[position as int].index,
                muted,
            })
        },
        timer_command_of(panel, position) is Some ==> {
            &&& position < panel.devices.len()
            &&& timer_command_of(panel, position)->Some_0 == (AudioCommand::SetVolume {
                kind: panel.kind,
                index: panel.devices[position as int].index,
                volume: panel.latest_volume,
            })
        },
{
}

/// A snapshot selects the default device wherever it is listed; what it selects exists as soon as
/// any device does.
pub proof fn law_snapshot_selects_the_default(state: StateView)
    ensures
        state.devices.len() > 0 ==> 0 <= selected_position(state) < state.devices.len(),
        forall|name: Seq<char>, i: int|
            state.default_name == Some(name) && 0 <= i < state.devices.len()
                && #[trigger] device::has_name(name)(state.devices[i])
                ==> state.devices[selected_position(state)].name == name,
{
    if let Some(name) = state.default_name {
        device::law_first_match_is_the_first(state.devices, device::has_name(name));
    }
}

} // verus!
