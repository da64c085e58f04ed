//! Collecting the devices that PulseAudio enumerates.
use vstd::prelude::*;

use crate::device::{AudioDevice, DeviceView, EndpointKind};
use crate::volume::Volume;

verus! {

/// What PulseAudio reports of a sink or a source.
pub struct DeviceInfo {
    pub index: u32,
    pub channels: u8,
    pub name: Option<String>,
    pub description: Option<String>,
    /// The average over the channels.
    pub volume: Volume,
    pub muted: bool,
    /// For a source that records what a sink plays: the index of that sink.
    pub monitor_of_sink: Option<u32>,
}

/// The mathematical content of a [`DeviceInfo`].
pub struct InfoView {
    pub index: u32,
    pub channels: u8,
    pub name: Option<Seq<char>>,
    pub description: Option<Seq<char>>,
    pub volume: Volume,
    pub muted: bool,
    pub monitor_of_sink: Option<u32>,
}

impl DeepView for DeviceInfo {
    type V = InfoView;

    open spec fn deep_view(&self) -> InfoView {
        InfoView {
            index: self.index,
            channels: self.channels,
            name: self.name.deep_view(),
            description: self.description.deep_view(),
            volume: self.volume,
            muted: self.muted,
            monitor_of_sink: self.monitor_of_sink,
        }
    }
}

/// One report of an enumeration.
pub enum ListEvent {
    Item(DeviceInfo),
    End,
    Error,
}

/// The label of a device without a description.
pub open spec fn unnamed(kind: EndpointKind) -> Seq<char> {
    match kind {
        EndpointKind::Output => "未命名输出"@,
        EndpointKind::Input => "未命名麦克风"@,
    }
}

/// The panel offers every sink, and every source that does not merely record a sink.
pub open spec fn offered(kind: EndpointKind, info: InfoView) -> bool {
    kind == EndpointKind::Output || info.monitor_of_sink is None
}

/// The device the panel shows for `info`.
pub open spec fn device_of(kind: EndpointKind, info: InfoView) -> DeviceView {
    DeviceView {
        index: info.index,
        channels: info.channels,
        name: match info.name {
            Some(name) => name,
            None => Seq::empty(),
        },
        label: match info.description {
            Some(description) => description,
            None => unnamed(kind),
        },
        volume: info.volume,
        muted: info.muted,
    }
}

/// The devices that are shown once `info` has been enumerated after `devices`.
pub open spec fn after_item(
    kind: EndpointKind,
    devices: Seq<DeviceView>,
    info: InfoView,
) -> Seq<DeviceView> {
    if offered(kind, info) {
        devices.push(device_of(kind, info))
    } else {
        devices
    }
}

/// The devices that are shown once all of `infos` have been enumerated.
pub open spec fn after_items(kind: EndpointKind, infos: Seq<InfoView>) -> Seq<DeviceView>
    decreases infos.len(),
{
    if infos.len() == 0 {
        Seq::empty()
    } else {
        after_item(kind, after_items(kind, infos.drop_last()), infos.last())
    }
}

/// The message for an enumeration that did not end in time.
pub open spec fn listing_timed_out(kind: EndpointKind) -> Seq<char> {
    match kind {
        EndpointKind::Output => "读取 PulseAudio 输出设备超时"@,
        EndpointKind::Input => "读取 PulseAudio 输入设备超时"@,
    }
}

/// The device the panel shows for `info`.
fn device_from(kind: EndpointKind, info: DeviceInfo) -> (device: AudioDevice)
    ensures
        device.deep_view() == device_of(kind, info.deep_view()),
{
    let name = match info.name {
        Some(name) => name,
        None => String::new(),
    };
    let label = match info.description {
        Some(description) => description,
        None => match kind {
            EndpointKind::Output => "未命名输出".to_string(),
            EndpointKind::Input => "未命名麦克风".to_string(),
        },
    };
    AudioDevice {
        index: info.index,
        channels: info.channels,
        name,
        label,
        volume: info.volume,
        muted: info.muted,
    }
}

/// The devices of one kind while they are being enumerated.
pub struct DeviceListing {
    pub kind: EndpointKind,
    pub devices: Vec<AudioDevice>,
}

impl DeviceListing {
    /// Begins an enumeration.
    pub fn new(kind: EndpointKind) -> (listing: DeviceListing)
        ensures
            listing.kind == kind,
            listing.devices.deep_view() == after_items(kind, Seq::empty()),
    {
        let devices: Vec<AudioDevice> = Vec::new();
        assert(devices.deep_view() =~= Seq::<DeviceView>::empty());
        DeviceListing { kind, devices }
    }

    /// Takes in a report; returns whether the enumeration is over. An enumeration that breaks off
    /// with an error counts as over, with the devices that were reported before.
    pub fn receive(&mut self, event: ListEvent) -> (over: bool)
        ensures
            final(self).kind == old(self).kind,
            match event {
                ListEvent::Item(info) => !over && final(self).devices.deep_view() == after_item(
                    old(self).kind,
                    old(self).devices.deep_view(),
                    info.deep_view(),
                ),
                ListEvent::End | ListEvent::Error => over && final(self).devices.deep_view()
                    == old(self).devices.deep_view(),
            },
    {
        match event {
            ListEvent::Item(info) => {
                let ghost earlier = self.devices.deep_view();
                if self.kind == EndpointKind::Output || info.monitor_of_sink.is_none() {
                    let device = device_from(self.kind, info);
                    self.devices.push(device);
                    assert(self.devices.deep_view() =~= earlier.push(device.deep_view()));
                }
                false
            },
            ListEvent::End | ListEvent::Error => true,
        }
    }

    /// Closes an enumeration that was over in time (`ended`) or was not.
    pub fn finish(self, ended: bool) -> (result: Result<Vec<AudioDevice>, String>)
        ensures
            if ended {
                result matches Ok(devices) && devices.deep_view() == self.devices.deep_view()
            } else {
                result matches Err(message) && message@ == listing_timed_out(self.kind)
            },
    {
        if ended {
            Ok(self.devices)
        } else {
            Err(
                match self.kind {
                    EndpointKind::Output => "读取 PulseAudio 输出设备超时".to_string(),
                    EndpointKind::Input => "读取 PulseAudio 输入设备超时".to_string(),
                },
            )
        }
    }
}

/// An enumeration shows exactly the offered items, each as its device, in their order; so the
/// monitor of a sink never appears among the inputs.
pub proof fn law_listing_shows_the_offered_items(kind: EndpointKind, infos: Seq<InfoView>)
    ensures
        after_items(kind, infos) == infos.filter(|info: InfoView| offered(kind, info)).map_values(
            |info: InfoView| device_of(kind, info),
        ),
    decreases infos.len(),
{
    reveal(Seq::filter);
    let chosen = |info: InfoView| offered(kind, info);
    let shown = |info: InfoView| device_of(kind, info);
    if infos.len() > 0 {
        let shorter = infos.drop_last();
        law_listing_shows_the_offered_items(kind, shorter);
        assert(shorter.filter(chosen).push(infos.last()).map_values(shown)
            =~= shorter.filter(chosen).map_values(shown).push(shown(infos.last())));
    }
    assert(after_items(kind, infos) =~= infos.filter(chosen).map_values(shown));
}

/// The answer to a query for the names of the default devices, or its absence.
pub fn defaults_read(answer: Option<(Option<String>, Option<String>)>) -> (result: Result<
    (Option<String>, Option<String>),
    String,
>)
    ensures
        match answer {
            Some(names) => result == Ok::<(Option<String>, Option<String>), String>(names),
            None => result matches Err(message) && message@ == "读取 PulseAudio 默认设备超时"@,
        },
{
    match answer {
        Some(names) => Ok(names),
        None => Err("读取 PulseAudio 默认设备超时".to_string()),
    }
}

} // verus!
