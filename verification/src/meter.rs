//! The microphone meter: its recording stream and what is read from it.
use vstd::prelude::*;

use crate::level;
use crate::level::{rms_level, Level};

verus! {

/// The meter records one channel.
pub const METER_CHANNELS: u8 = 1;

/// The meter's sample rate in hertz.
pub const METER_RATE: u32 = 44_100;

/// Whether a recording stream is connected.
#[derive(Debug, Clone, Copy, PartialEq, Eq, Structural)]
pub struct Meter {
    pub running: bool,
}

/// What happened while the meter's stream is being replaced.
pub enum MeterEvent {
    /// Recording from a source was asked for.
    Requested,
    /// PulseAudio created the stream object, or could not.
    StreamCreated(bool),
    /// The request to record was accepted or turned down.
    RecordingConnected(Result<(), String>),
}

/// What to do next while the meter's stream is being replaced.
pub enum MeterAction {
    /// Create a stream; first disconnect the one in use, if `disconnect` says that there is one.
    CreateStream { disconnect: bool },
    /// Connect the new stream to the source.
    ConnectRecording,
    /// Report the outcome.
    Finish(Result<(), String>),
}

/// `meter` turns into `next` and asks for `action` when `event` happens.
pub open spec fn meter_step(
    meter: Meter,
    event: MeterEvent,
    next: Meter,
    action: MeterAction,
) -> bool {
    match event {
        MeterEvent::Requested => {
            &&& !next.running
            &&& action == MeterAction::CreateStream { disconnect: meter.running }
        },
        MeterEvent::StreamCreated(true) => next == meter && action
            == MeterAction::ConnectRecording,
        MeterEvent::StreamCreated(false) => {
            &&& next == meter
            &&& action matches MeterAction::Finish(Err(message))
            &&& message@ == "无法创建麦克风调试流"@
        },
        MeterEvent::RecordingConnected(Ok(_)) => {
            &&& next.running
            &&& action matches MeterAction::Finish(Ok(_))
        },
        MeterEvent::RecordingConnected(Err(reason)) => {
            &&& next == meter
            &&& action matches MeterAction::Finish(Err(message))
            &&& message@ == reason@
        },
    }
}

impl Meter {
    /// A meter without a stream.
    pub fn stopped() -> (meter: Meter)
        ensures
            !meter.running,
    {
        Meter { running: false }
    }

    /// Reacts to `event`.
    pub fn step(&mut self, event: MeterEvent) -> (action: MeterAction)
        ensures
            meter_step(*old(self), event, *final(self), action),
    {
        match event {
            MeterEvent::Requested => {
                let disconnect = self.running;
                self.running = false;
                MeterAction::CreateStream { disconnect }
            },
            MeterEvent::StreamCreated(created) => {
                if created {
                    MeterAction::ConnectRecording
                } else {
                    MeterAction::Finish(Err("无法创建麦克风调试流".to_string()))
                }
            },
            MeterEvent::RecordingConnected(result) => {
                if result.is_ok() {
                    self.running = true;
                }
                MeterAction::Finish(result)
            },
        }
    }
}

/// What looking at the recording stream found.
pub enum MeterPeek<'a> {
    /// No stream is connected.
    NoStream,
    /// Captured bytes in the host's byte order.
    Data(&'a [u8]),
    /// A gap in the recording.
    Hole,
    /// Nothing was captured since the last look.
    Empty,
    /// PulseAudio reported an error.
    Failed(String),
}

/// What a look at the recording stream amounts to.
pub struct MeterReading {
    /// The fragment that was looked at has to be dropped from the stream.
    pub discard: bool,
    /// The level to report.
    pub level: Result<Level, String>,
}

/// The signed 16-bit number with these two bytes.
pub open spec fn sample_value(low: u8, high: u8) -> int {
    let raw = low + 256 * high;
    if raw < 32768 {
        raw
    } else {
        raw - 65536
    }
}

/// Reads a sample from its two bytes in memory order: `i16::from_ne_bytes`.
///
/// Trusted: the result is the number whose low byte is the first or the second of the two, as the
/// target's byte order has it. Which of the two it is depends on the machine and is left unsaid.
#[verifier::external_body]
fn native_sample(bytes: [u8; 2]) -> (sample: i16)
    ensures
        sample == sample_value(bytes@[0], bytes@[1]) || sample == sample_value(bytes@[1], bytes@[0]),
{
    i16::from_ne_bytes(bytes)
}

/// `sample` is what the host reads from the two bytes `first` and `second`, in this order.
pub closed spec fn read_natively(first: u8, second: u8, sample: i16) -> bool {
    call_ensures(native_sample, ([first, second],), sample)
}

/// A native reading is one of the two ways to put the bytes together.
pub proof fn law_native_reading_uses_both_bytes(first: u8, second: u8, sample: i16)
    requires
        read_natively(first, second, sample),
    ensures
        sample == sample_value(first, second) || sample == sample_value(second, first),
{
}

/// The two bytes are handed to the host in the order in which they were captured.
proof fn law_bytes_keep_their_order(first: u8, second: u8, sample: i16)
    ensures
        read_natively(first, second, sample) <==> call_ensures(
            native_sample,
            ([first, second],),
            sample,
        ),
{
}

/// `samples` are the byte pairs of `bytes`, each read natively; an odd last byte is left out.
pub open spec fn samples_of(bytes: Seq<u8>, samples: Seq<i16>) -> bool {
    &&& samples.len() == bytes.len() / 2
    &&& forall|i: int|
        0 <= i < samples.len() ==> read_natively(
            bytes[2 * i],
            bytes[2 * i + 1],
            #[trigger] samples[i],
        )
}

/// Splits captured bytes into samples.
pub fn native_samples(bytes: &[u8]) -> (samples: Vec<i16>)
    ensures
        samples_of(bytes@, samples@),
{
    let mut samples: Vec<i16> = Vec::new();
    let count: usize = bytes.len() / 2;
    let mut i: usize = 0;
    while i < count
        invariant
            count == bytes@.len() / 2,
            2 * count <= bytes@.len() <= usize::MAX,
            i <= count,
            samples@.len() == i,
            forall|j: int|
                0 <= j < i ==> read_natively(bytes@[2 * j], bytes@[2 * j + 1], #[trigger] samples@[j]),
        decreases count - i,
    {
        samples.push(native_sample([bytes[2 * i], bytes[2 * i + 1]]));
        i = i + 1;
    }
    samples
}

/// What `reading` has to be after `peek`.
pub open spec fn reading_of(peek: MeterPeek, reading: MeterReading) -> bool {
    match peek {
        MeterPeek::Data(bytes) => {
            &&& reading.discard
            &&& reading.level matches Ok(level)
            &&& exists|samples: Seq<i16>| #[trigger]
                samples_of(bytes@, samples) && level::is_rms(samples, level.attos as int)
        },
        MeterPeek::Hole => reading.discard && reading.level == Ok::<Level, String>(
            Level { attos: 0 },
        ),
        MeterPeek::NoStream | MeterPeek::Empty => !reading.discard && reading.level == Ok::<
            Level,
            String,
        >(Level { attos: 0 }),
        MeterPeek::Failed(reason) => {
            &&& !reading.discard
            &&& reading.level matches Err(message)
            &&& message@ == reason@
        },
    }
}

/// Turns a look at the recording stream into a level.
pub fn microphone_level(peek: MeterPeek) -> (reading: MeterReading)
    ensures
        reading_of(peek, reading),
{
    match peek {
        MeterPeek::NoStream => MeterReading { discard: false, level: Ok(Level::silence()) },
        MeterPeek::Data(bytes) => {
            let samples = native_samples(bytes);
            let level = rms_level(samples.as_slice());
            MeterReading { discard: true, level: Ok(level) }
        },
        MeterPeek::Hole => MeterReading { discard: true, level: Ok(Level::silence()) },
        MeterPeek::Empty => MeterReading { discard: false, level: Ok(Level::silence()) },
        MeterPeek::Failed(reason) => MeterReading { discard: false, level: Err(reason) },
    }
}

/// A level that was measured, from whatever was found in the stream, is never above full scale.
pub proof fn law_measured_level_is_normalized(peek: MeterPeek, reading: MeterReading)
    requires
        reading_of(peek, reading),
        reading.level is Ok,
    ensures
        reading.level->Ok_0.attos <= level::FULL_SCALE,
{
}

/// However a start of the meter ends, the meter runs exactly if the start succeeded: each outcome
/// is reached from the request, and a start that fails leaves no stream behind.
pub proof fn law_meter_runs_exactly_after_success(
    before: Meter,
    requested: Meter,
    created: Meter,
    after: Meter,
    stream_created: bool,
    connected: Result<(), String>,
    first: MeterAction,
    second: MeterAction,
    third: MeterAction,
)
    requires
        meter_step(before, MeterEvent::Requested, requested, first),
        meter_step(requested, MeterEvent::StreamCreated(stream_created), created, second),
        meter_step(created, MeterEvent::RecordingConnected(connected), after, third),
    ensures
        !stream_created ==> second is Finish && second->Finish_0 is Err && !created.running,
        stream_created ==> second is ConnectRecording,
        after.running == connected.is_ok(),
        third is Finish && third->Finish_0.is_ok() == connected.is_ok(),
{
}

} // verus!
