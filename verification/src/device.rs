//! Audio devices and the two lists, outputs and inputs, in which the panel shows them.
use vstd::prelude::*;

use crate::volume::Volume;

verus! {

/// The side of the panel a device belongs to.
#[derive(Debug, Clone, Copy, PartialEq, Eq, Structural)]
pub enum EndpointKind {
    Output,
    Input,
}

/// A playback or capture device.
#[derive(Debug, PartialEq)]
pub struct AudioDevice {
    pub index: u32,
    pub channels: u8,
    pub name: String,
    pub label: String,
    pub volume: Volume,
    pub muted: bool,
}

/// The devices of one kind, and the name of the one that is in use by default.
#[derive(Debug, PartialEq)]
pub struct EndpointState {
    pub kind: EndpointKind,
    pub devices: Vec<AudioDevice>,
    pub default_name: Option<String>,
}

/// The mathematical content of an [`AudioDevice`].
pub struct DeviceView {
    pub index: u32,
    pub channels: u8,
    pub name: Seq<char>,
    pub label: Seq<char>,
    pub volume: Volume,
    pub muted: bool,
}

/// The mathematical content of an [`EndpointState`].
pub struct StateView {
    pub kind: EndpointKind,
    pub devices: Seq<DeviceView>,
    pub default_name: Option<Seq<char>>,
}

impl DeepView for AudioDevice {
    type V = DeviceView;

    open spec fn deep_view(&self) -> DeviceView {
        DeviceView {
            index: self.index,
            channels: self.channels,
            name: self.name@,
            label: self.label@,
            volume: self.volume,
            muted: self.muted,
        }
    }
}

impl DeepView for EndpointState {
    type V = StateView;

    open spec fn deep_view(&self) -> StateView {
        StateView {
            kind: self.kind,
            devices: self.devices.deep_view(),
            default_name: self.default_name.deep_view(),
        }
    }
}

impl Clone for AudioDevice {
    fn clone(&self) -> (copy: Self)
        ensures
            copy == *self,
    {
        AudioDevice {
            index: self.index,
            channels: self.channels,
            name: self.name.clone(),
            label: self.label.clone(),
            volume: self.volume,
            muted: self.muted,
        }
    }
}

impl Clone for EndpointState {
    fn clone(&self) -> (copy: Self)
        ensures
            copy.deep_view() == self.deep_view(),
    {
        let devices = self.devices.clone();
        let default_name = self.default_name.clone();
        assert(devices.deep_view() =~= self.devices.deep_view());
        EndpointState { kind: self.kind, devices, default_name }
    }
}

/// The devices that carry the index `index`.
pub open spec fn has_index(index: u32) -> spec_fn(DeviceView) -> bool {
    |device: DeviceView| device.index == index
}

/// The devices that carry the name `name`.
pub open spec fn has_name(name: Seq<char>) -> spec_fn(DeviceView) -> bool {
    |device: DeviceView| device.name == name
}

/// The position of the first device in `devices` that is `wanted`.
pub open spec fn first_match(
    devices: Seq<DeviceView>,
    wanted: spec_fn(DeviceView) -> bool,
) -> Option<int>
    decreases devices.len(),
{
    if devices.len() == 0 {
        None
    } else {
        match first_match(devices.drop_last(), wanted) {
            Some(position) => Some(position),
            None => if wanted(devices.last()) {
                Some(devices.len() - 1)
            } else {
                None
            },
        }
    }
}

/// A search finds a wanted device with none before it, and comes back empty exactly if there is
/// none.
pub proof fn law_first_match_is_the_first(
    devices: Seq<DeviceView>,
    wanted: spec_fn(DeviceView) -> bool,
)
    ensures
        match first_match(devices, wanted) {
            Some(position) => {
                &&& 0 <= position < devices.len()
                &&& wanted(devices[position])
                &&& forall|i: int| 0 <= i < position ==> !wanted(#[trigger] devices[i])
            },
            None => forall|i: int| 0 <= i < devices.len() ==> !wanted(#[trigger] devices[i]),
        },
    decreases devices.len(),
{
    if devices.len() > 0 {
        let shorter = devices.drop_last();
        law_first_match_is_the_first(shorter, wanted);
        assert forall|i: int| 0 <= i < shorter.len() implies shorter[i] == devices[i] by {}
        match first_match(shorter, wanted) {
            Some(position) => {
                assert forall|i: int| 0 <= i < position implies !wanted(#[trigger] devices[i]) by {
                    assert(!wanted(shorter[i]));
                }
            },
            None => {
                assert forall|i: int| 0 <= i < devices.len() - 1 implies !wanted(
                    #[trigger] devices[i],
                ) by {
                    assert(!wanted(shorter[i]));
                }
            },
        }
    }
}

/// A device that is wanted, with no wanted device before it, is what a search finds.
proof fn lemma_first_match_at(
    devices: Seq<DeviceView>,
    wanted: spec_fn(DeviceView) -> bool,
    position: int,
)
    requires
        0 <= position < devices.len(),
        wanted(devices[position]),
        forall|i: int| 0 <= i < position ==> !wanted(#[trigger] devices[i]),
    ensures
        first_match(devices, wanted) == Some(position),
{
    law_first_match_is_the_first(devices, wanted);
    match first_match(devices, wanted) {
        Some(found) => {
            if found < position {
                assert(!wanted(devices[found]));
            } else if position < found {
                assert(!wanted(devices[position]));
            }
        },
        None => {
            assert(!wanted(devices[position]));
        },
    }
}

/// Without a wanted device a search finds nothing.
proof fn lemma_first_match_none(devices: Seq<DeviceView>, wanted: spec_fn(DeviceView) -> bool)
    requires
        forall|i: int| 0 <= i < devices.len() ==> !wanted(#[trigger] devices[i]),
    ensures
        first_match(devices, wanted) is None,
{
    law_first_match_is_the_first(devices, wanted);
}

/// Where the first device with the index `index` stands.
pub fn position_of_index(devices: &Vec<AudioDevice>, index: u32) -> (position: Option<usize>)
    ensures
        match position {
            Some(i) => first_match(devices.deep_view(), has_index(index)) == Some(i as int),
            None => first_match(devices.deep_view(), has_index(index)) is None,
        },
        position is Some ==> position->Some_0 < devices@.len(),
{
    let ghost view = devices.deep_view();
    let ghost wanted = has_index(index);
    let mut i: usize = 0;
    while i < devices.len()
        invariant
            i <= devices@.len(),
            view == devices.deep_view(),
            wanted == has_index(index),
            forall|j: int| 0 <= j < i ==> !wanted(#[trigger] view[j]),
        decreases devices@.len() - i,
    {
        assert(view[i as int] == devices@[i as int].deep_view());
        if devices[i].index == index {
            proof {
                lemma_first_match_at(view, wanted, i as int);
            }
            return Some(i);
        }
        i = i + 1;
    }
    proof {
        lemma_first_match_none(view, wanted);
    }
    None
}

/// Where the first device with the name `name` stands.
pub fn position_of_name(devices: &Vec<AudioDevice>, name: &String) -> (position: Option<usize>)
    ensures
        match position {
            Some(i) => first_match(devices.deep_view(), has_name(name@)) == Some(i as int),
            None => first_match(devices.deep_view(), has_name(name@)) is None,
        },
        position is Some ==> position->Some_0 < devices@.len(),
{
    let ghost view = devices.deep_view();
    let ghost wanted = has_name(name@);
    let mut i: usize = 0;
    while i < devices.len()
        invariant
            i <= devices@.len(),
            view == devices.deep_view(),
            wanted == has_name(name@),
            forall|j: int| 0 <= j < i ==> !wanted(#[trigger] view[j]),
        decreases devices@.len() - i,
    {
        assert(view[i as int] == devices@[i as int].deep_view());
        if devices[i].name == *name {
            proof {
                lemma_first_match_at(view, wanted, i as int);
            }
            return Some(i);
        }
        i = i + 1;
    }
    proof {
        lemma_first_match_none(view, wanted);
    }
    None
}

} // verus!
