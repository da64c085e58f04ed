//! The loudness of captured audio.
use vstd::prelude::*;

verus! {

/// The attos in full scale.
pub const FULL_SCALE: u64 = 1_000_000_000_000_000_000;

/// The attos above which the meter reports a signal: two percent of full scale.
pub const SIGNAL_FLOOR: u64 = 20_000_000_000_000_000;

/// The largest positive sample, which stands for full scale.
pub const PEAK_SAMPLE: i16 = 32767;

/// A loudness in attos: 10^18 of them make full scale, which is finer than a double-precision
/// fraction resolves it.
#[derive(Debug, Clone, Copy, PartialEq, Eq, Structural)]
pub struct Level {
    pub attos: u64,
}

impl Level {
    /// The level that `self` becomes when it is held to full scale.
    pub open spec fn spec_clamped(self) -> Level {
        if self.attos > FULL_SCALE {
            Level { attos: FULL_SCALE }
        } else {
            self
        }
    }

    /// Holds a level to the range from silence to full scale.
    pub fn clamped(self) -> (held: Level)
        ensures
            held == self.spec_clamped(),
            held.attos <= FULL_SCALE,
    {
        if self.attos > FULL_SCALE {
            Level { attos: FULL_SCALE }
        } else {
            self
        }
    }

    /// No sound at all.
    pub fn silence() -> (level: Level)
        ensures
            level.attos == 0,
    {
        Level { attos: 0 }
    }
}

/// The sum of the squared samples.
pub open spec fn energy(samples: Seq<i16>) -> nat
    decreases samples.len(),
{
    if samples.len() == 0 {
        0
    } else {
        let last = samples.last() as int;
        energy(samples.drop_last()) + (last * last) as nat
    }
}

/// The energy of `count` samples that all stand at full scale.
pub open spec fn full_energy(count: nat) -> nat {
    count * 1_073_676_289
}

/// `level` is the root mean square of `samples` relative to full scale, rounded up to an atto and
/// never above full scale. Without samples it is silence.
///
/// The root mean square `r` satisfies `r * r == energy / full_energy`, so
/// `level - 1 < r * FULL_SCALE <= level` reads, without the root and the division, as the two
/// inequalities below.
pub open spec fn is_rms(samples: Seq<i16>, level: int) -> bool {
    let scale = FULL_SCALE as int * FULL_SCALE as int;
    let full = full_energy(samples.len()) as int;
    if samples.len() == 0 {
        level == 0
    } else {
        &&& 0 <= level <= FULL_SCALE
        &&& level > 0 ==> (level - 1) * (level - 1) * full < energy(samples) * scale
        &&& level < FULL_SCALE ==> energy(samples) * scale <= level * level * full
    }
}

/// The smallest integer whose square is at least `n`, for the values of `n` a level needs.
fn ceil_sqrt(n: u128) -> (root: u64)
    requires
        n <= 1_000_000_000_000_000_000_000_000_000_000_000_000,
    ensures
        root <= FULL_SCALE,
        n <= root * root,
        root > 0 ==> (root - 1) * (root - 1) < n,
{
    if n == 0 {
        return 0;
    }
    let mut low: u64 = 0;
    let mut high: u64 = FULL_SCALE;
    while high - low > 1
        invariant
            low < high <= FULL_SCALE,
            low * low < n <= high * high,
        decreases high - low,
    {
        let middle: u64 = low + (high - low) / 2;
        assert(middle * middle <= 1_000_000_000_000_000_000_000_000_000_000_000_000)
            by (nonlinear_arith)
            requires
                middle <= 1_000_000_000_000_000_000,
        ;
        if (middle as u128) * (middle as u128) < n {
            low = middle;
        } else {
            high = middle;
        }
    }
    assert(low == high - 1);
    high
}

/// Adds up the squared samples.
fn measured_energy(samples: &[i16]) -> (sum: u128)
    ensures
        sum == energy(samples@),
        sum <= samples@.len() * 1_073_741_824,
{
    let mut sum: u128 = 0;
    let mut i: usize = 0;
    while i < samples.len()
        invariant
            i <= samples@.len(),
            sum == energy(samples@.take(i as int)),
            sum <= i * 1_073_741_824,
        decreases samples@.len() - i,
    {
        let sample: i64 = samples[i] as i64;
        assert(0 <= sample * sample <= 1_073_741_824) by (nonlinear_arith)
            requires
                -32768 <= sample <= 32767,
        ;
        assert(samples@.take(i + 1).drop_last() == samples@.take(i as int));
        let square: i64 = sample * sample;
        sum = sum + square as u128;
        i = i + 1;
    }
    assert(samples@.take(i as int) == samples@);
    sum
}

/// One round of long division: nine more decimal digits of the quotient.
proof fn lemma_nine_more_digits(
    sum: int,
    power: int,
    full: int,
    quotient: int,
    rest: int,
    digits: int,
    next_rest: int,
)
    requires
        full > 0,
        0 <= rest < full,
        sum * power == quotient * full + rest,
        rest * 1_000_000_000 == digits * full + next_rest,
        0 <= next_rest < full,
    ensures
        sum * (power * 1_000_000_000) == (quotient * 1_000_000_000 + digits) * full + next_rest,
        digits < 1_000_000_000,
{
    assert(sum * (power * 1_000_000_000) == (quotient * 1_000_000_000 + digits) * full + next_rest)
        by (nonlinear_arith)
        requires
            sum * power == quotient * full + rest,
            rest * 1_000_000_000 == digits * full + next_rest,
    ;
    assert(digits < 1_000_000_000) by (nonlinear_arith)
        requires
            digits * full <= rest * 1_000_000_000,
            0 <= rest < full,
    ;
}

/// Divides `sum`, scaled by the square of full scale, by `full`: quotient and rest.
fn scaled_division(sum: u128, full: u128) -> (result: (u128, u128))
    requires
        sum < full,
        full <= 19_807_040_628_566_084_398_385_987_584,
    ensures
        sum * 1_000_000_000_000_000_000_000_000_000_000_000_000 == result.0 * full + result.1,
        result.1 < full,
        result.0 < 1_000_000_000_000_000_000_000_000_000_000_000_000,
{
    let mut quotient: u128 = 0;
    let mut rest: u128 = sum;
    let mut rounds: u32 = 0;
    let ghost mut power: int = 1;
    assert(sum * power == quotient * full + rest) by (nonlinear_arith)
        requires
            power == 1,
            quotient == 0,
            rest == sum,
    ;
    while rounds < 4
        invariant
            rounds <= 4,
            rounds == 0 ==> power == 1,
            rounds == 1 ==> power == 1_000_000_000,
            rounds == 2 ==> power == 1_000_000_000_000_000_000,
            rounds == 3 ==> power == 1_000_000_000_000_000_000_000_000_000,
            rounds == 4 ==> power == 1_000_000_000_000_000_000_000_000_000_000_000_000,
            quotient < power,
            rest < full,
            full <= 19_807_040_628_566_084_398_385_987_584,
            sum * power == quotient * full + rest,
        decreases 4 - rounds,
    {
        let widened: u128 = rest * 1_000_000_000;
        let digits: u128 = widened / full;
        let next_rest: u128 = widened % full;
        proof {
            vstd::arithmetic::div_mod::lemma_fundamental_div_mod(widened as int, full as int);
            assert(full * digits == digits * full) by (nonlinear_arith);
            lemma_nine_more_digits(
                sum as int,
                power,
                full as int,
                quotient as int,
                rest as int,
                digits as int,
                next_rest as int,
            );
            power = power * 1_000_000_000;
        }
        quotient = quotient * 1_000_000_000 + digits;
        rest = next_rest;
        rounds = rounds + 1;
    }
    (quotient, rest)
}

/// The root mean square of interleaved signed 16-bit samples, as captured for the meter.
pub fn rms_level(samples: &[i16]) -> (level: Level)
    ensures
        is_rms(samples@, level.attos as int),
        level.attos <= FULL_SCALE,
{
    if samples.len() == 0 {
        return Level::silence();
    }
    let sum: u128 = measured_energy(samples);
    let full: u128 = (samples.len() as u128) * 1_073_676_289;
    let ghost scale = FULL_SCALE as int * FULL_SCALE as int;
    if sum >= full {
        assert((FULL_SCALE - 1) * (FULL_SCALE - 1) * full < sum * scale) by (nonlinear_arith)
            requires
                sum >= full,
                full > 0,
                FULL_SCALE == 1_000_000_000_000_000_000,
                scale == 1_000_000_000_000_000_000_000_000_000_000_000_000,
        ;
        return Level { attos: FULL_SCALE };
    }
    let (quotient, rest) = scaled_division(sum, full);
    let square: u128 = if rest > 0 {
        quotient + 1
    } else {
        quotient
    };
    let root: u64 = ceil_sqrt(square);
    proof {
        let scaled = sum * scale;
        assert(scaled <= square * full && (square - 1) * full < scaled) by (nonlinear_arith)
            requires
                scaled == quotient * full + rest,
                0 <= rest < full,
                square == if rest > 0 {
                    quotient + 1
                } else {
                    quotient as int
                },
        ;
        let above = root * root;
        let below = (root - 1) * (root - 1);
        assert(square * full <= above * full) by (nonlinear_arith)
            requires
                square <= above,
                full >= 0,
        ;
        if root > 0 {
            assert(below * full <= (square - 1) * full) by (nonlinear_arith)
                requires
                    below <= square - 1,
                    full >= 0,
            ;
        }
    }
    Level { attos: root }
}

/// A quieter recording of the same length never measures louder; with equal energy both
/// measure the same, so the root mean square is unique.
pub proof fn law_level_follows_energy(
    quieter: Seq<i16>,
    louder: Seq<i16>,
    low: int,
    high: int,
)
    requires
        quieter.len() == louder.len(),
        energy(quieter) <= energy(louder),
        is_rms(quieter, low),
        is_rms(louder, high),
    ensures
        low <= high,
{
    if quieter.len() > 0 && low > high {
        let scale = FULL_SCALE as int * FULL_SCALE as int;
        let full = full_energy(quieter.len()) as int;
        let less = energy(quieter) as int;
        let more = energy(louder) as int;
        let square = high * high;
        let below = (low - 1) * (low - 1);
        assert(square <= below) by (nonlinear_arith)
            requires
                0 <= high < low,
                square == high * high,
                below == (low - 1) * (low - 1),
        ;
        assert(square * full <= below * full) by (nonlinear_arith)
            requires
                square <= below,
                full >= 0,
        ;
        assert(less * scale <= more * scale) by (nonlinear_arith)
            requires
                less <= more,
                scale >= 0,
        ;
    }
}

/// The energy is zero exactly if every sample is.
proof fn lemma_energy_of_silence(samples: Seq<i16>)
    ensures
        energy(samples) == 0 <==> forall|i: int| 0 <= i < samples.len() ==> #[trigger] samples[i]
            == 0,
    decreases samples.len(),
{
    if samples.len() > 0 {
        let shorter = samples.drop_last();
        lemma_energy_of_silence(shorter);
        let last = samples.last() as int;
        assert(last * last >= 0 && (last * last == 0 <==> last == 0)) by (nonlinear_arith);
        if energy(samples) == 0 {
            assert forall|i: int| 0 <= i < samples.len() implies #[trigger] samples[i] == 0 by {
                if i < shorter.len() {
                    assert(shorter[i] == 0);
                }
            }
        }
        if forall|i: int| 0 <= i < samples.len() ==> #[trigger] samples[i] == 0 {
            assert forall|i: int| 0 <= i < shorter.len() implies #[trigger] shorter[i] == 0 by {
                assert(samples[i] == 0);
            }
            assert(samples[samples.len() - 1] == 0);
        }
    }
}

/// The level is zero exactly for a recording without energy, which is one whose samples are all
/// zero: a sound is never rounded away.
pub proof fn law_level_is_zero_exactly_for_silence(samples: Seq<i16>, level: int)
    requires
        is_rms(samples, level),
    ensures
        level == 0 <==> energy(samples) == 0,
        level == 0 <==> forall|i: int| 0 <= i < samples.len() ==> #[trigger] samples[i] == 0,
{
    lemma_energy_of_silence(samples);
    if samples.len() > 0 {
        let scale = FULL_SCALE as int * FULL_SCALE as int;
        let full = full_energy(samples.len()) as int;
        let total = energy(samples) as int;
        if level == 0 {
            assert(level * level * full == 0) by (nonlinear_arith)
                requires
                    level == 0,
            ;
            assert(total == 0) by (nonlinear_arith)
                requires
                    total * scale <= 0,
                    total >= 0,
                    scale > 0,
            ;
        } else {
            assert((level - 1) * (level - 1) * full >= 0) by (nonlinear_arith)
                requires
                    full >= 0,
            ;
            assert(total != 0) by (nonlinear_arith)
                requires
                    total * scale > 0,
            ;
        }
    }
}

/// The level lies above the signal floor exactly if the root mean square exceeds two percent of
/// full scale, that is if the energy exceeds a 2500th of that of full scale.
pub proof fn law_signal_floor_is_two_percent(samples: Seq<i16>, level: int)
    requires
        samples.len() > 0,
        is_rms(samples, level),
    ensures
        level > SIGNAL_FLOOR <==> energy(samples) * 2500 > full_energy(samples.len()),
{
    let full = full_energy(samples.len()) as int;
    let total = energy(samples) as int;
    let floor = 20_000_000_000_000_000int;
    let floor_square = 400_000_000_000_000_000_000_000_000_000_000int;
    let scale = 1_000_000_000_000_000_000_000_000_000_000_000_000int;
    assert(FULL_SCALE as int * FULL_SCALE as int == scale);
    if level > floor {
        let below = (level - 1) * (level - 1);
        assert(below >= floor_square) by (nonlinear_arith)
            requires
                level - 1 >= floor,
                floor == 20_000_000_000_000_000,
                floor_square == 400_000_000_000_000_000_000_000_000_000_000,
                below == (level - 1) * (level - 1),
        ;
        assert(floor_square * full <= below * full) by (nonlinear_arith)
            requires
                floor_square <= below,
                full >= 0,
        ;
    } else {
        let square = level * level;
        assert(square <= floor_square) by (nonlinear_arith)
            requires
                0 <= level <= floor,
                floor == 20_000_000_000_000_000,
                floor_square == 400_000_000_000_000_000_000_000_000_000_000,
                square == level * level,
        ;
        assert(square * full <= floor_square * full) by (nonlinear_arith)
            requires
                square <= floor_square,
                full >= 0,
        ;
    }
}

/// A recording with the energy of full scale, or more, measures full scale.
pub proof fn law_full_energy_measures_full_scale(samples: Seq<i16>, level: int)
    requires
        samples.len() > 0,
        energy(samples) >= full_energy(samples.len()),
        is_rms(samples, level),
    ensures
        level == FULL_SCALE,
{
    let scale = FULL_SCALE as int * FULL_SCALE as int;
    let full = full_energy(samples.len()) as int;
    let total = energy(samples) as int;
    if level < FULL_SCALE {
        let square = level * level;
        assert(square < scale) by (nonlinear_arith)
            requires
                0 <= level < FULL_SCALE,
                square == level * level,
                scale == FULL_SCALE as int * FULL_SCALE as int,
        ;
        assert(square * full < total * scale) by (nonlinear_arith)
            requires
                0 <= square < scale,
                0 < full <= total,
        ;
    }
}

/// The energy of a recording is that of its two parts.
proof fn lemma_energy_of_parts(first: Seq<i16>, second: Seq<i16>)
    ensures
        energy(first + second) == energy(first) + energy(second),
    decreases second.len(),
{
    if second.len() == 0 {
        assert(first + second == first);
    } else {
        lemma_energy_of_parts(first, second.drop_last());
        assert((first + second).drop_last() == first + second.drop_last());
    }
}

/// The level does not depend on the order in which two parts of a recording are interleaved.
pub proof fn law_level_ignores_order(first: Seq<i16>, second: Seq<i16>, level: int)
    requires
        is_rms(first + second, level),
    ensures
        is_rms(second + first, level),
{
    lemma_energy_of_parts(first, second);
    lemma_energy_of_parts(second, first);
}

/// The energy of a recording that repeats one magnitude.
proof fn lemma_energy_of_constant(samples: Seq<i16>, magnitude: int)
    requires
        forall|i: int|
            0 <= i < samples.len() ==> #[trigger] samples[i] == magnitude || samples[i]
                == -magnitude,
    ensures
        energy(samples) == samples.len() * (magnitude * magnitude),
    decreases samples.len(),
{
    let square = magnitude * magnitude;
    if samples.len() == 0 {
        assert(0 * square == 0) by (nonlinear_arith);
    } else {
        let shorter = samples.drop_last();
        assert forall|i: int| 0 <= i < shorter.len() implies #[trigger] shorter[i] == magnitude
            || shorter[i] == -magnitude by {
            assert(shorter[i] == samples[i]);
        }
        lemma_energy_of_constant(shorter, magnitude);
        let last = samples[samples.len() - 1] as int;
        assert(last * last == square && square >= 0) by (nonlinear_arith)
            requires
                last == magnitude || last == -magnitude,
                square == magnitude * magnitude,
        ;
        let count = samples.len() as int;
        assert(count * square == (count - 1) * square + square) by (nonlinear_arith);
    }
}

/// A recording whose samples all have the same magnitude measures that magnitude relative to full
/// scale, rounded up to an atto: silence measures nothing, full scale measures one.
pub proof fn law_constant_signal_measures_its_magnitude(
    samples: Seq<i16>,
    magnitude: int,
    level: int,
)
    requires
        samples.len() > 0,
        0 <= magnitude <= PEAK_SAMPLE,
        forall|i: int|
            0 <= i < samples.len() ==> #[trigger] samples[i] == magnitude || samples[i]
                == -magnitude,
        is_rms(samples, level),
    ensures
        (level - 1) * PEAK_SAMPLE < magnitude * FULL_SCALE <= level * PEAK_SAMPLE,
{
    lemma_energy_of_constant(samples, magnitude);
    let count = samples.len() as int;
    let square = magnitude * magnitude;
    let scale = FULL_SCALE as int * FULL_SCALE as int;
    let full = full_energy(samples.len()) as int;
    let reading = level * 32767;
    let previous = (level - 1) * 32767;
    let truth = magnitude * 1_000_000_000_000_000_000;
    assert(level * level * full == count * (reading * reading) && (level - 1) * (level - 1) * full
        == count * (previous * previous) && count * square * scale == count * (truth * truth))
        by (nonlinear_arith)
        requires
            full == count * 1_073_676_289,
            reading == level * 32767,
            previous == (level - 1) * 32767,
            truth == magnitude * 1_000_000_000_000_000_000,
            square == magnitude * magnitude,
            scale == 1_000_000_000_000_000_000_000_000_000_000_000_000,
    ;
    if level > 0 {
        assert(previous < truth) by (nonlinear_arith)
            requires
                count * (previous * previous) < count * (truth * truth),
                count > 0,
                truth >= 0,
        ;
    }
    if level < FULL_SCALE {
        assert(truth <= reading) by (nonlinear_arith)
            requires
                count * (truth * truth) <= count * (reading * reading),
                count > 0,
                reading >= 0,
        ;
    }
}

} // verus!
