//! The smoother on 32-bit integers, and the model that its contracts speak of.

use vstd::prelude::*;
use crate::fixed::{distance, fraction_of, magnitude, mul_drop8, narrow, wrap_i32};
use crate::tan::{lemma_tan_at_index_between, tan_index, tan_slot, tan_wc, tan_wc_i32, TAN_LUT};

verus! {

/// Unity in Q16: the ceiling of the filter coefficient.
pub const UNITY: i32 = 0x1_0000;

/// What a smoother holds, as integers. `low1` and `low2` are the two lowpass
/// signals with 8 fractional bits; `g0` and `sense` are in Q16. In what
/// follows `/` rounds down, as the arithmetic shift of the filter does.
/// Differences, products and the coefficient are those over the integers;
/// `wrap_i32` stands where a lowpass signal is stored in 32 bits.
pub struct SmootherState {
    /// Lowpass 1 signal.
    pub low1: int,
    /// Lowpass 2 signal.
    pub low2: int,
    /// Base filter coefficient.
    pub g0: int,
    /// Sensitivity of the dynamic response: four times the sensitivity that
    /// the smoother was made with.
    pub sense: int,
}

impl SmootherState {
    /// The rectified difference of the two lowpass signals, which stands for
    /// the bandpass response.
    pub open spec fn band(self) -> int {
        magnitude(self.low1 - self.low2)
    }

    /// The coefficient that the next sample is filtered with: the base
    /// coefficient raised by the sensitivity times the bandpass response, and
    /// never above unity.
    pub open spec fn coefficient(self) -> int {
        let raised = self.g0 + self.sense * self.band() / 0x100;
        if raised < UNITY {
            raised
        } else {
            UNITY as int
        }
    }

    /// The state after the sample `input`: the first lowpass moves towards
    /// the input, then the second towards the first, both by the same
    /// coefficient.
    pub open spec fn step(self, input: int) -> SmootherState {
        let g = self.coefficient();
        let low1 = wrap_i32(self.low1 + g * (input * 0x100 - self.low1) / 0x1_0000);
        let low2 = wrap_i32(self.low2 + g * (low1 - self.low2) / 0x1_0000);
        SmootherState { low1, low2, g0: self.g0, sense: self.sense }
    }

    /// The sample that a smoother in this state has put out last: the second
    /// lowpass signal without its fractional bits.
    pub open spec fn output(self) -> int {
        self.low2 / 0x100
    }

    /// The state of a new smoother for these arguments: both lowpass signals
    /// at zero, the base coefficient of the normalized frequency, and four
    /// times the sensitivity.
    pub open spec fn fresh(basefreq: int, samplerate: int, sensitivity: int) -> SmootherState {
        SmootherState {
            low1: 0,
            low2: 0,
            g0: base_coefficient(normalized_frequency(basefreq, samplerate)),
            sense: sensitivity * 4,
        }
    }

    /// The same coefficients with both lowpass signals at zero.
    pub open spec fn cleared(self) -> SmootherState {
        SmootherState { low1: 0, low2: 0, g0: self.g0, sense: self.sense }
    }

    /// Both lowpass signals lie between the samples `lo` and `hi`.
    pub open spec fn within(self, lo: int, hi: int) -> bool {
        &&& lo * 0x100 <= self.low1 <= hi * 0x100
        &&& lo * 0x100 <= self.low2 <= hi * 0x100
    }

    /// The coefficients are not negative, and every sample from `lo` to `hi`
    /// fits in 32 bits with its 8 fractional bits.
    pub open spec fn headroom(self, lo: int, hi: int) -> bool {
        &&& 0 <= self.g0
        &&& 0 <= self.sense
        &&& -0x80_0000 <= lo <= hi < 0x80_0000
    }

    /// The state after the samples `inputs`, taken in order.
    pub open spec fn run(self, inputs: Seq<int>) -> SmootherState
        decreases inputs.len(),
    {
        if inputs.len() == 0 {
            self
        } else {
            self.step(inputs[0]).run(inputs.skip(1))
        }
    }

    /// The state after `n` samples of the same value `input`.
    pub open spec fn hold(self, input: int, n: nat) -> SmootherState
        decreases n,
    {
        if n == 0 {
            self
        } else {
            self.step(input).hold(input, (n - 1) as nat)
        }
    }
}

/// `numerator / denominator`, rounded towards zero.
pub open spec fn quotient_towards_zero(numerator: int, denominator: int) -> int {
    if numerator >= 0 {
        numerator / denominator
    } else {
        -((-numerator) / denominator)
    }
}

/// The normalized frequency in Q16, in cycles per sample.
pub open spec fn normalized_frequency(basefreq: int, samplerate: int) -> int {
    quotient_towards_zero(basefreq * 0x1_0000, samplerate)
}

/// The base coefficient `2 * gc / (1 + gc)` in Q16, where `gc` is the tangent
/// of the normalized frequency `wc`.
pub open spec fn base_coefficient(wc: int) -> int {
    2 * tan_wc(wc) * 0x1_0000 / (0x1_0000 + tan_wc(wc))
}

/// Whether a smoother can be made for these frequencies: the sample rate is
/// not zero and the normalized frequency lies in `0..2^15`, below one half.
pub open spec fn valid_frequencies(basefreq: int, samplerate: int) -> bool {
    samplerate != 0 && 0 <= normalized_frequency(basefreq, samplerate) < 0x8000
}

/// Whether four times the sensitivity fits in 32 bits.
pub open spec fn valid_sensitivity(sensitivity: int) -> bool {
    i32::MIN <= sensitivity * 4 <= i32::MAX
}

/// A cutoff frequency that is not negative and below half of the sample rate
/// is valid, and the quotient is then the usual one.
pub proof fn lemma_below_half_is_valid(basefreq: int, samplerate: int)
    requires
        0 <= basefreq,
        2 * basefreq < samplerate,
    ensures
        valid_frequencies(basefreq, samplerate),
        normalized_frequency(basefreq, samplerate) == basefreq * 0x1_0000 / samplerate,
{
    assert(0 <= basefreq * 0x1_0000 / samplerate < 0x8000) by (nonlinear_arith)
        requires
            0 <= basefreq,
            2 * basefreq < samplerate,
    ;
}

/// The base coefficient is not negative and below two in Q16; up to a
/// normalized frequency of one quarter it is at most unity.
pub proof fn lemma_base_coefficient_range(wc: int)
    requires
        0 <= wc,
    ensures
        0 <= base_coefficient(wc) < 2 * UNITY,
        wc <= 0x4000 ==> base_coefficient(wc) <= UNITY,
{
    lemma_tan_at_index_between(tan_index(wc));
    let gc = tan_wc(wc);
    if wc <= 0x4000 {
        // Below the quarter the slot's right neighbour is at most the entry
        // for the quarter itself, which is one unit short of one; at the
        // quarter that entry is read with all the weight.
        if tan_slot(tan_index(wc)) == 16 {
            assert((TAN_LUT[16] * 0x1_0000 + TAN_LUT[17] * 0) / 0x1_0000 == TAN_LUT[16]);
        }
    }
    assert(0 <= 2 * gc * 0x1_0000 / (0x1_0000 + gc) < 0x2_0000 && (gc <= 0x1_0000 ==> 2 * gc
        * 0x1_0000 / (0x1_0000 + gc) <= 0x1_0000)) by (nonlinear_arith)
        requires
            0 <= gc,
    ;
}

/// Efficient variant of the smoother using i32.
///
/// Because of the internal fractional bits, samples are limited to about 23
/// bit: a lowpass signal that is taken beyond that wraps around silently.
/// The filter coefficient is at most unity whatever the samples are.
#[derive(Debug)]
pub struct DynamicSmootherEcoI32 {
    /// Lowpass 1 signal.
    low1: i32,
    /// Lowpass 2 signal.
    low2: i32,
    /// Base filter coefficient calculated from `basefreq`.
    g0: i32,
    /// Sensitivity of the dynamic response.
    sense: i32,
}

impl View for DynamicSmootherEcoI32 {
    type V = SmootherState;

    closed spec fn view(&self) -> SmootherState {
        SmootherState {
            low1: self.low1 as int,
            low2: self.low2 as int,
            g0: self.g0 as int,
            sense: self.sense as int,
        }
    }
}

/// The normalized frequency of `basefreq` at `samplerate`, all in Q16.
fn normalize(basefreq: i32, samplerate: i32) -> (wc: i64)
    requires
        samplerate != 0,
    ensures
        wc == normalized_frequency(basefreq as int, samplerate as int),
{
    let numerator: i64 = (basefreq as i64) * 0x1_0000;
    let denominator: i64 = samplerate as i64;
    proof {
        lemma_quotient_magnitude(magnitude(numerator as int), denominator as int);
    }
    numerator / denominator
}

/// A quotient is no farther from zero than its numerator.
proof fn lemma_quotient_magnitude(numerator: int, denominator: int)
    by (nonlinear_arith)
    requires
        0 <= numerator,
        denominator != 0,
    ensures
        -numerator <= numerator / denominator <= numerator,
{
}

/// The base filter coefficient for the cutoff frequency `basefreq` at the
/// sampling frequency `samplerate`, all in Q16.
pub fn derive_g0(basefreq: i32, samplerate: i32) -> (g0: i32)
    requires
        valid_frequencies(basefreq as int, samplerate as int),
    ensures
        g0 == base_coefficient(normalized_frequency(basefreq as int, samplerate as int)),
        0 <= g0 < 2 * UNITY,
        normalized_frequency(basefreq as int, samplerate as int) <= 0x4000 ==> g0 <= UNITY,
{
    let wc: i32 = normalize(basefreq, samplerate) as i32;
    let gc: i64 = tan_wc_i32(wc) as i64;
    proof {
        lemma_base_coefficient_range(wc as int);
    }
    let doubled: i64 = 2 * gc;
    assert(doubled << 16u8 == doubled * 0x1_0000) by (bit_vector)
        requires
            0 <= doubled <= 0x1000_0000,
    ;
    let g0: i64 = (doubled << 16u8) / (0x1_0000 + gc);
    g0 as i32
}

impl DynamicSmootherEcoI32 {
    /// Returns a new smoother.
    /// - `basefreq` is the initial cutoff frequency.
    /// - `samplerate` is the sampling frequency.
    /// - `sensitivity` sets the amount of dynamic cutoff response.
    ///
    /// All values must have a fractional part of `I32_FRAC_BITS`.
    pub fn new(basefreq: i32, samplerate: i32, sensitivity: i32) -> (smoother: Self)
        requires
            valid_frequencies(basefreq as int, samplerate as int),
            valid_sensitivity(sensitivity as int),
        ensures
            smoother@ == SmootherState::fresh(
                basefreq as int,
                samplerate as int,
                sensitivity as int,
            ),
            0 <= smoother@.g0 < 2 * UNITY,
    {
        let g0: i32 = derive_g0(basefreq, samplerate);
        Self { low1: 0, low2: 0, g0, sense: sensitivity * 4 }
    }

    /// Returns a new smoother like `new`, or `None` where `new` does not
    /// take the arguments.
    pub fn try_new(basefreq: i32, samplerate: i32, sensitivity: i32) -> (made: Option<Self>)
        ensures
            made is Some <==> valid_frequencies(basefreq as int, samplerate as int)
                && valid_sensitivity(sensitivity as int),
            made matches Some(smoother) ==> smoother@ == SmootherState::fresh(
                basefreq as int,
                samplerate as int,
                sensitivity as int,
            ) && 0 <= smoother@.g0 < 2 * UNITY,
    {
        if samplerate == 0 || sensitivity < -0x2000_0000 || sensitivity >= 0x2000_0000 {
            return None;
        }
        let wc: i64 = normalize(basefreq, samplerate);
        if wc < 0 || wc >= 0x8000 {
            return None;
        }
        Some(Self::new(basefreq, samplerate, sensitivity))
    }

    /// Resets all internal values.
    pub fn clear(&mut self)
        ensures
            final(self)@ == old(self)@.cleared(),
    {
        self.low1 = 0;
        self.low2 = 0;
    }

    /// Processes a new input value and returns the smoothed output.
    ///
    /// No input is refused and none is reported: a lowpass signal that does
    /// not fit in 32 bits wraps around.
    pub fn tick(&mut self, input: i32) -> (output: i32)
        ensures
            final(self)@ == old(self)@.step(input as int),
            output == final(self)@.output(),
    {
        // Improve calculation by using fractional bits internally.
        let target: i64 = input as i64 * 0x100;

        // Store values from previous sample.
        let low1z: i32 = self.low1;
        let low2z: i32 = self.low2;

        // Get bandpass response as difference of the 2 lowpasses.
        let bandz: i64 = distance(low1z, low2z);

        // Get the filter coefficient from the base value and a dynamic
        // amount depending on the bandpass response and sensitivity.
        // Value is clamped to 1.
        let raised: i64 = self.g0 as i64 + mul_drop8(self.sense, bandz);
        let g: i64 = if raised < UNITY as i64 {
            raised
        } else {
            UNITY as i64
        };

        // Calculate lowpass 1 signal based on input.
        self.low1 = narrow(low1z as i128 + fraction_of(g, target - low1z as i64));

        // Calculate lowpass 2 signal based on lowpass 1 output.
        self.low2 = narrow(low2z as i128 + fraction_of(g, self.low1 as i64 - low2z as i64));

        // Return lowpass 2 signal as output.
        let low2: i32 = self.low2;
        assert(low2 >> 8u8 == low2 / 0x100) by (bit_vector);
        low2 >> 8u8
    }
}

} // verus!
