//! Device volumes in PulseAudio's own units.
use vstd::prelude::*;
use vstd::string::StringExecFns;

use crate::text;

verus! {

/// The units of an unattenuated device, shown as 100 %.
pub const NORMAL_UNITS: u32 = 65536;

/// The units of the loudest request the panel makes, shown as 150 %.
pub const LIMIT_UNITS: u32 = 98304;

/// The upper end of the volume slider, in percent.
pub const LIMIT_PERCENT: u32 = 150;

/// A device volume, in units of which [`NORMAL_UNITS`] make 100 %.
#[derive(Debug, Clone, Copy, PartialEq, Eq, Structural)]
pub struct Volume {
    pub units: u32,
}

/// What PulseAudio is asked to set: the same volume on each of `channels` channels.
#[derive(Debug, Clone, Copy, PartialEq, Eq, Structural)]
pub struct ChannelVolume {
    pub channels: u8,
    pub volume: Volume,
}

/// `num / den` rounded to the nearest integer, halves to the even neighbour.
pub open spec fn nearest_even(num: int, den: int) -> int
    recommends
        num >= 0,
        den > 0,
{
    let quotient = num / den;
    let twice = 2 * (num % den);
    if twice < den || (twice == den && quotient % 2 == 0) {
        quotient
    } else {
        quotient + 1
    }
}

/// The volume in percent, as the panel writes it.
pub open spec fn percent_of(volume: Volume) -> int {
    nearest_even(100 * volume.units, NORMAL_UNITS as int)
}

impl Volume {
    /// The volume that `self` becomes when it is held to the limit.
    pub open spec fn spec_clamped(self) -> Volume {
        if self.units > LIMIT_UNITS {
            Volume { units: LIMIT_UNITS }
        } else {
            self
        }
    }

    /// Holds a requested volume to the range from silence to [`LIMIT_UNITS`].
    pub fn clamped(self) -> (held: Volume)
        ensures
            held == self.spec_clamped(),
            held.units <= LIMIT_UNITS,
    {
        if self.units > LIMIT_UNITS {
            Volume { units: LIMIT_UNITS }
        } else {
            self
        }
    }

    /// The volume in whole percent, halves to the even neighbour.
    pub fn percent(self) -> (percent: u64)
        ensures
            percent == percent_of(self),
    {
        let scaled: u64 = 100 * (self.units as u64);
        let quotient: u64 = scaled / 65536;
        let twice: u64 = 2 * (scaled % 65536);
        if twice < 65536 || (twice == 65536 && quotient % 2 == 0) {
            quotient
        } else {
            quotient + 1
        }
    }

    /// The text beside the volume slider, such as `75%`.
    pub fn percent_text(self) -> (shown: String)
        ensures
            shown@ == text::decimal_text(percent_of(self) as nat) + "%"@,
    {
        let mut shown = text::decimal(self.percent());
        shown.append("%");
        shown
    }
}

/// The request that sets every channel of a device with `channels` channels to `volume`.
///
/// A device that reports no channel is addressed as if it had one.
pub open spec fn channel_volume_of(volume: Volume, channels: u8) -> ChannelVolume {
    ChannelVolume {
        channels: if channels == 0 {
            1u8
        } else {
            channels
        },
        volume: volume.spec_clamped(),
    }
}

/// Computes [`channel_volume_of`].
pub fn channel_volume(volume: Volume, channels: u8) -> (request: ChannelVolume)
    ensures
        request == channel_volume_of(volume, channels),
{
    let channels: u8 = if channels == 0 {
        1
    } else {
        channels
    };
    ChannelVolume { channels, volume: volume.clamped() }
}

/// The limit is a fixed point: holding a volume twice is holding it once.
pub proof fn law_clamping_is_idempotent(volume: Volume)
    ensures
        volume.spec_clamped().spec_clamped() == volume.spec_clamped(),
{
}

/// A louder volume never shows a smaller percentage; what the limit lets through fits on the
/// slider, whose upper end is the limit itself.
pub proof fn law_percent_follows_volume(softer: Volume, louder: Volume)
    requires
        softer.units <= louder.units,
    ensures
        percent_of(softer) <= percent_of(louder),
        percent_of(softer.spec_clamped()) <= LIMIT_PERCENT,
        percent_of(Volume { units: LIMIT_UNITS }) == LIMIT_PERCENT,
{
}

} // verus!
