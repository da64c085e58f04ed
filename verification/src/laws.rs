//! What holds of the panel and the backend together, and what each operation is for.
pub mod backend;
pub mod serving;
pub mod sound;
pub mod widgets;

use vstd::prelude::*;

use crate::device;
use crate::device::{DeviceView, EndpointKind};
use crate::panel;
use crate::panel::PanelView;
use crate::session;
use crate::session::SessionView;
use crate::volume::Volume;

verus! {

/// No two devices carry the same index.
pub open spec fn distinct_indices(devices: Seq<DeviceView>) -> bool {
    forall|i: int, j: int|
        0 <= i < j < devices.len() ==> (#[trigger] devices[i]).index != (#[trigger] devices[j]).index
}

/// No two devices carry the same name.
pub open spec fn distinct_names(devices: Seq<DeviceView>) -> bool {
    forall|i: int, j: int|
        0 <= i < j < devices.len() ==> (#[trigger] devices[i]).name != (#[trigger] devices[j]).name
}

/// A command that the panel forms from the devices the backend last reported finds a device there;
/// with distinct indices it is the very device that was selected.
pub proof fn law_panel_commands_find_their_device(
    panel: PanelView,
    session: SessionView,
    position: u32,
)
    requires
        panel.devices == session.endpoint(panel.kind).devices,
        position < panel.devices.len(),
    ensures
        ({
            let index = panel.devices[position as int].index;
            let found = device::first_match(
                session.endpoint(panel.kind).devices,
                device::has_index(index),
            );
            &&& found is Some
            &&& distinct_indices(panel.devices) ==> found == Some(position as int)
        }),
{
    let devices = panel.devices;
    let index = devices[position as int].index;
    let wanted = device::has_index(index);
    device::law_first_match_is_the_first(devices, wanted);
    assert(wanted(devices[position as int]));
    if let Some(found) = device::first_match(devices, wanted) {
        if distinct_indices(devices) && found != position {
            assert(wanted(devices[found]));
            if found < position {
                assert(devices[found].index != devices[position as int].index);
            } else {
                assert(devices[position as int].index != devices[found].index);
            }
        }
    }
}

/// Once a device has been made the default one, the next snapshot selects a device of its name in
/// the panel; with distinct names it is that device.
pub proof fn law_selected_device_is_shown(session: SessionView, kind: EndpointKind, position: int)
    requires
        0 <= position < session.endpoint(kind).devices.len(),
    ensures
        ({
            let name = session.endpoint(kind).devices[position].name;
            let state = session.with_default(kind, Some(name)).endpoint(kind);
            let shown = panel::selected_position(state);
            &&& 0 <= shown < state.devices.len()
            &&& state.devices[shown].name == name
            &&& distinct_names(state.devices) ==> shown == position
        }),
{
    let devices = session.endpoint(kind).devices;
    let name = devices[position].name;
    let wanted = device::has_name(name);
    device::law_first_match_is_the_first(devices, wanted);
    assert(wanted(devices[position]));
    if let Some(found) = device::first_match(devices, wanted) {
        if distinct_names(devices) && found != position {
            assert(wanted(devices[found]));
            if found < position {
                assert(devices[found].name != devices[position].name);
            } else {
                assert(devices[position].name != devices[found].name);
            }
        }
    }
}

/// A change of volume or muting leaves the panel's selection where it is: the snapshot after it
/// selects the same entry as the snapshot before it.
pub proof fn law_changes_keep_the_selection(
    session: SessionView,
    kind: EndpointKind,
    index: u32,
    volume: Volume,
    muted: bool,
)
    ensures
        panel::selected_position(
            session.with_change(kind, index, session::to_volume(volume)).endpoint(kind),
        ) == panel::selected_position(session.endpoint(kind)),
        panel::selected_position(
            session.with_change(kind, index, session::to_muted(muted)).endpoint(kind),
        ) == panel::selected_position(session.endpoint(kind)),
{
    session::law_set_volume_reads_back(session, kind, index, volume);
    session::law_set_mute_reads_back(session, kind, index, muted);
    let before = session.endpoint(kind);
    let louder = session.with_change(kind, index, session::to_volume(volume)).endpoint(kind);
    let quieter = session.with_change(kind, index, session::to_muted(muted)).endpoint(kind);
    if let Some(name) = before.default_name {
        lemma_same_names_same_position(before.devices, louder.devices, name);
        lemma_same_names_same_position(before.devices, quieter.devices, name);
    }
}

/// A search by name looks at nothing but the names.
proof fn lemma_same_names_same_position(
    first: Seq<DeviceView>,
    second: Seq<DeviceView>,
    name: Seq<char>,
)
    requires
        first.len() == second.len(),
        forall|i: int|
            0 <= i < first.len() ==> (#[trigger] first[i]).name == (#[trigger] second[i]).name,
    ensures
        device::first_match(first, device::has_name(name)) == device::first_match(
            second,
            device::has_name(name),
        ),
    decreases first.len(),
{
    if first.len() > 0 {
        assert(first.last().name == second.last().name);
        assert forall|i: int| 0 <= i < first.len() - 1 implies (#[trigger] first.drop_last()[i]).name
            == (#[trigger] second.drop_last()[i]).name by {
            assert(first[i].name == second[i].name);
        }
        lemma_same_names_same_position(first.drop_last(), second.drop_last(), name);
    }
}

} // verus!
