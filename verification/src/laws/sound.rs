//! What volumes, levels and the microphone meter mean, told of the calls themselves.
#![allow(unused_imports)]
use vstd::prelude::*;

use crate::level;
use crate::level::{rms_level, Level};
use crate::meter;
use crate::meter::{
    microphone_level, native_samples, Meter, MeterAction, MeterEvent, MeterPeek, MeterReading,
};
use crate::text;
use crate::text::decimal;
use crate::volume;
use crate::volume::{channel_volume, ChannelVolume, Volume};

verus! {

/// The number that a text spells in decimal.
pub open spec fn number_in(shown: Seq<char>) -> int
    decreases shown.len(),
{
    if shown.len() == 0 {
        0
    } else {
        10 * number_in(shown.drop_last()) + (shown.last() as int - 48)
    }
}

/// A text of decimal digits without a needless zero in front.
pub open spec fn plain_number(shown: Seq<char>) -> bool {
    &&& shown.len() > 0
    &&& forall|i: int| 0 <= i < shown.len() ==> 48 <= #[trigger] shown[i] as int <= 57
    &&& shown.len() > 1 ==> shown[0] as int != 48
}

pub(crate) proof fn lemma_decimal_text(n: nat)
    ensures
        number_in(text::decimal_text(n)) == n,
        plain_number(text::decimal_text(n)),
        n > 0 ==> text::decimal_text(n)[0] as int != 48,
    decreases n,
{
    if n < 10 {
        let shown = text::decimal_text(n);
        assert(number_in(shown.drop_last()) == 0);
        assert(shown.last() as int == n + 48);
    } else {
        lemma_decimal_text(n / 10);
        let front = text::decimal_text(n / 10);
        let shown = text::decimal_text(n);
        assert(shown.drop_last() =~= front);
        assert(shown.last() as int == n % 10 + 48);
        assert forall|i: int| 0 <= i < shown.len() implies 48 <= #[trigger] shown[i] as int
            <= 57 by {
            if i < front.len() {
                assert(shown[i] == front[i]);
            }
        }
        assert(shown[0] == front[0]);
    }
}

/// A number that was spelled reads back, and is spelled with digits alone.
pub proof fn law_spelled_number_reads_back(n: u64, shown: String)
    requires
        call_ensures(decimal, (n,), shown),
    ensures
        number_in(shown@) == n,
        plain_number(shown@),
{
    lemma_decimal_text(n as nat);
}

/// A volume within the limit passes unchanged, and one above it becomes the limit, 150 %.
pub proof fn law_volume_within_the_limit_passes(asked: Volume, held: Volume)
    requires
        call_ensures(Volume::clamped, (asked,), held),
    ensures
        asked.units <= 98304 ==> held == asked,
        asked.units > 98304 ==> held.units == 98304,
        held == asked.spec_clamped(),
{
}

/// The same of the volume that contracts speak of.
pub proof fn law_held_volume(asked: Volume)
    ensures
        asked.units <= 98304 ==> asked.spec_clamped() == asked,
        asked.units > 98304 ==> asked.spec_clamped().units == 98304,
        volume::LIMIT_UNITS == 98304,
        volume::NORMAL_UNITS == 65536,
        volume::LIMIT_PERCENT == 150,
{
}

/// `percent` is within half a percent of the volume; of two that are equally near it is the even
/// one.
pub open spec fn is_percentage(volume: Volume, percent: int) -> bool {
    let error = 65536 * percent - 100 * volume.units;
    &&& -32768 <= error <= 32768
    &&& error == 32768 || error == -32768 ==> percent % 2 == 0
}

/// The percentage is the nearest one.
pub proof fn law_percentage_is_the_nearest(volume: Volume, percent: u64)
    requires
        call_ensures(Volume::percent, (volume,), percent),
    ensures
        is_percentage(volume, percent as int),
{
}

/// The text beside the slider spells the nearest percentage, followed by a percent sign.
pub proof fn law_percentage_is_shown(volume: Volume, shown: String)
    requires
        call_ensures(Volume::percent_text, (volume,), shown),
    ensures
        shown@.len() > 1,
        shown@.last() == '%',
        plain_number(shown@.drop_last()),
        is_percentage(volume, number_in(shown@.drop_last())),
{
    reveal_strlit("%");
    let percent = volume::percent_of(volume) as nat;
    lemma_decimal_text(percent);
    assert(shown@.drop_last() =~= text::decimal_text(percent));
}

/// A request keeps the channels of the device, at least one, and asks for the volume as far as the
/// limit allows it.
pub proof fn law_request_covers_every_channel(asked: Volume, channels: u8, request: ChannelVolume)
    requires
        call_ensures(channel_volume, (asked, channels), request),
    ensures
        channels > 0 ==> request.channels == channels,
        channels == 0 ==> request.channels == 1,
        asked.units <= 98304 ==> request.volume == asked,
        asked.units > 98304 ==> request.volume.units == 98304,
{
}

/// A level up to full scale passes unchanged, and one above it becomes full scale.
pub proof fn law_level_within_full_scale_passes(read: Level, held: Level)
    requires
        call_ensures(Level::clamped, (read,), held),
    ensures
        read.attos <= 1_000_000_000_000_000_000 ==> held == read,
        read.attos > 1_000_000_000_000_000_000 ==> held.attos == 1_000_000_000_000_000_000,
        held == read.spec_clamped(),
{
}

/// The same of the level that contracts speak of.
pub proof fn law_held_level(read: Level)
    ensures
        read.attos <= 1_000_000_000_000_000_000 ==> read.spec_clamped() == read,
        read.attos > 1_000_000_000_000_000_000 ==> read.spec_clamped().attos
            == 1_000_000_000_000_000_000,
        level::FULL_SCALE == 1_000_000_000_000_000_000,
        level::SIGNAL_FLOOR * 50 == level::FULL_SCALE,
{
}

/// Silence is the level below which there is none.
pub proof fn law_silence_is_the_lowest_level(quiet: Level, read: Level)
    requires
        call_ensures(Level::silence, (), quiet),
    ensures
        quiet.attos <= read.attos,
        quiet.attos == 0,
{
}

/// The sum of the squares of `samples`, from the first one on.
pub open spec fn squares(samples: Seq<i16>) -> int
    decreases samples.len(),
{
    if samples.len() == 0 {
        0
    } else {
        samples.first() as int * samples.first() as int + squares(samples.drop_first())
    }
}

/// `attos` is the root mean square of all of `samples`: with `r` for the quotient of their squares
/// by those of as many samples at 32767, `attos` is the square root of `r` in attos, rounded up
/// and held to full scale. It is zero exactly if every sample is.
pub open spec fn measures(samples: Seq<i16>, attos: int) -> bool {
    let unit = 1_000_000_000_000_000_000int;
    let loudest = samples.len() * (32767 * 32767);
    let sum = squares(samples);
    &&& 0 <= attos <= unit
    &&& samples.len() == 0 ==> attos == 0
    &&& samples.len() > 0 && attos > 0 ==> (attos - 1) * (attos - 1) * loudest < sum * (unit * unit)
    &&& samples.len() > 0 && attos < unit ==> sum * (unit * unit) <= attos * attos * loudest
    &&& attos == 0 <==> forall|i: int| 0 <= i < samples.len() ==> #[trigger] samples[i] == 0
}

proof fn lemma_squares_push(samples: Seq<i16>, next: i16)
    ensures
        squares(samples.push(next)) == squares(samples) + next as int * next as int,
    decreases samples.len(),
{
    if samples.len() == 0 {
        assert(samples.push(next).drop_first() =~= samples);
    } else {
        lemma_squares_push(samples.drop_first(), next);
        assert(samples.push(next).drop_first() =~= samples.drop_first().push(next));
    }
}

proof fn lemma_energy_is_squares(samples: Seq<i16>)
    ensures
        level::energy(samples) == squares(samples),
    decreases samples.len(),
{
    if samples.len() > 0 {
        let last = samples.last();
        lemma_energy_is_squares(samples.drop_last());
        lemma_squares_push(samples.drop_last(), last);
        assert(samples.drop_last().push(last) =~= samples);
        let value = last as int;
        assert(value * value >= 0) by (nonlinear_arith);
    }
}

proof fn lemma_rms_measures(samples: Seq<i16>, attos: int)
    requires
        level::is_rms(samples, attos),
    ensures
        measures(samples, attos),
{
    lemma_energy_is_squares(samples);
    level::law_level_is_zero_exactly_for_silence(samples, attos);
    let loudest = samples.len() * (32767 * 32767);
    assert(loudest == level::full_energy(samples.len()));
    assert(level::FULL_SCALE as int * level::FULL_SCALE as int == 1_000_000_000_000_000_000int
        * 1_000_000_000_000_000_000int);
}

/// The measured level is the root mean square of all samples.
pub proof fn law_level_measures_all_samples(samples: &[i16], measured: Level)
    requires
        call_ensures(rms_level, (samples,), measured),
    ensures
        measures(samples@, measured.attos as int),
{
    lemma_rms_measures(samples@, measured.attos as int);
}

/// `samples` are the byte pairs of a fragment, all of them, each read as the host reads it.
pub open spec fn captured(bytes: Seq<u8>, samples: Seq<i16>) -> bool {
    &&& samples.len() == bytes.len() / 2
    &&& forall|i: int|
        #![trigger samples[i]]
        0 <= i < samples.len() ==> {
            let first = bytes[2 * i];
            let second = bytes[2 * i + 1];
            &&& meter::read_natively(first, second, samples[i])
            &&& samples[i] == first + 256 * second || samples[i] == first + 256 * second - 65536
                || samples[i] == second + 256 * first || samples[i] == second + 256 * first - 65536
        }
}

proof fn lemma_samples_are_captured(bytes: Seq<u8>, samples: Seq<i16>)
    requires
        meter::samples_of(bytes, samples),
    ensures
        captured(bytes, samples),
{
    assert forall|i: int| #![trigger samples[i]] 0 <= i < samples.len() implies ({
        let first = bytes[2 * i];
        let second = bytes[2 * i + 1];
        &&& meter::read_natively(first, second, samples[i])
        &&& samples[i] == first + 256 * second || samples[i] == first + 256 * second - 65536
            || samples[i] == second + 256 * first || samples[i] == second + 256 * first - 65536
    }) by {
        meter::law_native_reading_uses_both_bytes(bytes[2 * i], bytes[2 * i + 1], samples[i]);
    }
}

/// Every byte pair of a fragment becomes a sample, in order.
pub proof fn law_fragment_becomes_samples(bytes: &[u8], samples: Vec<i16>)
    requires
        call_ensures(native_samples, (bytes,), samples),
    ensures
        captured(bytes@, samples@),
{
    lemma_samples_are_captured(bytes@, samples@);
}

/// The level of a captured fragment is the root mean square of the whole fragment, and the fragment
/// is dropped from the stream.
pub proof fn law_fragment_is_measured_whole(bytes: &[u8], reading: MeterReading)
    requires
        call_ensures(microphone_level, (MeterPeek::Data(bytes),), reading),
    ensures
        reading.discard,
        reading.level is Ok,
        exists|samples: Seq<i16>| #[trigger]
            captured(bytes@, samples) && measures(samples, reading.level->Ok_0.attos as int),
{
    let attos = reading.level->Ok_0.attos as int;
    let samples = choose|samples: Seq<i16>| #[trigger]
        meter::samples_of(bytes@, samples) && level::is_rms(samples, attos);
    lemma_samples_are_captured(bytes@, samples);
    lemma_rms_measures(samples, attos);
}

/// The same of any reading that the contract of `microphone_level` allows.
pub proof fn law_reading_of_a_fragment(bytes: &[u8], reading: MeterReading)
    requires
        meter::reading_of(MeterPeek::Data(bytes), reading),
    ensures
        reading.discard,
        reading.level is Ok,
        exists|samples: Seq<i16>| #[trigger]
            captured(bytes@, samples) && measures(samples, reading.level->Ok_0.attos as int),
{
    let attos = reading.level->Ok_0.attos as int;
    let samples = choose|samples: Seq<i16>| #[trigger]
        meter::samples_of(bytes@, samples) && level::is_rms(samples, attos);
    lemma_samples_are_captured(bytes@, samples);
    lemma_rms_measures(samples, attos);
}

/// Without captured bytes the level is zero; only a gap has to be dropped from the stream. An error
/// is passed on as it is.
pub proof fn law_nothing_captured_measures_nothing(peek: MeterPeek, reading: MeterReading)
    requires
        call_ensures(microphone_level, (peek,), reading),
    ensures
        peek is NoStream || peek is Hole || peek is Empty ==> reading.level is Ok
            && reading.level->Ok_0.attos == 0,
        peek is Failed ==> reading.level is Err && reading.level->Err_0@ == peek->Failed_0@,
        peek is Hole ==> reading.discard,
        peek is NoStream || peek is Empty || peek is Failed ==> !reading.discard,
{
}

/// A new stream replaces the one in use, which is disconnected exactly if there is one; the meter
/// then rests until the new stream records.
pub proof fn law_meter_replaces_its_stream(meter: &mut Meter, action: MeterAction)
    requires
        call_ensures(Meter::step, (meter, MeterEvent::Requested), action),
    ensures
        action is CreateStream,
        action->disconnect == old(meter).running,
        !final(meter).running,
{
}

/// A stream that was created is connected; one that was not ends the attempt.
pub proof fn law_created_stream_is_connected(meter: &mut Meter, created: bool, action: MeterAction)
    requires
        call_ensures(Meter::step, (meter, MeterEvent::StreamCreated(created)), action),
    ensures
        final(meter).running == old(meter).running,
        created ==> action is ConnectRecording,
        !created ==> action is Finish && action->Finish_0 is Err && action->Finish_0->Err_0@
            == "无法创建麦克风调试流"@,
{
}

/// A recording that was accepted runs; one that was refused is reported with its own reason.
pub proof fn law_accepted_recording_runs(
    meter: &mut Meter,
    connected: Result<(), String>,
    action: MeterAction,
)
    requires
        call_ensures(Meter::step, (meter, MeterEvent::RecordingConnected(connected)), action),
    ensures
        action is Finish,
        connected is Ok ==> action->Finish_0 is Ok && final(meter).running,
        connected is Err ==> action->Finish_0 is Err && action->Finish_0->Err_0@
            == connected->Err_0@ && final(meter).running == old(meter).running,
{
}

/// A meter begins without a stream.
pub proof fn law_meter_begins_stopped(meter: Meter)
    requires
        call_ensures(Meter::stopped, (), meter),
    ensures
        !meter.running,
        meter::METER_CHANNELS == 1,
        meter::METER_RATE == 44_100,
{
}

} // verus!
