//! The classical strategy: what it settles by itself and what it leaves to
//! arithmetic on the samples.
//!
//! Every metric that the strategy fixes is held as the bit pattern of an
//! IEEE 754 double.

use vstd::prelude::*;
use crate::double::{exceeds, is_number, lemma_raised_is_bounded, raised_to, INFINITY};
use crate::signal::{unknown_symbol, QuantumTradingSignal, NEUTRAL_CORRELATION, NO_RESONANCE};
use crate::window::{lemma_window_shape, window_back, window_len, window_of};

verus! {

/// The number of samples in the recent window, and in the older one behind it.
pub const MOMENTUM_SPAN: usize = 5;

/// The fewest samples from which volatility is taken.
pub const VOLATILITY_SAMPLES: usize = 10;

/// 0.0: the signal strength of a series that shows no trend.
pub const FLAT_STRENGTH: u64 = 0;

/// 0.5: the confidence in a series too short for its volatility to count.
pub const NEUTRAL_CONFIDENCE: u64 = 0x3FE0_0000_0000_0000;

/// 1.0: the confidence in a series without volatility, and the most that
/// relative volatility takes from it.
pub const FULL_CONFIDENCE: u64 = 0x3FF0_0000_0000_0000;

/// 0.1: the confidence that is reported at least.
pub const CONFIDENCE_FLOOR: u64 = 0x3FB9_9999_9999_999A;

/// How the signal strength of a series is obtained.
pub enum Momentum<T> {
    /// The strength is settled: these are its bits.
    Known(u64),
    /// The strength is `(mean(recent) - mean(older)) / mean(older)`, each
    /// window summed in the order in which it stands here, newest first.
    RelativeChange { recent: Vec<T>, older: Vec<T> },
}

/// The mathematical value of a `Momentum`.
pub ghost enum MomentumModel<T> {
    Known(u64),
    RelativeChange { recent: Seq<T>, older: Seq<T> },
}

impl<T> View for Momentum<T> {
    type V = MomentumModel<T>;

    open spec fn view(&self) -> MomentumModel<T> {
        match *self {
            Momentum::Known(bits) => MomentumModel::Known(bits),
            Momentum::RelativeChange { recent, older } => MomentumModel::RelativeChange {
                recent: recent@,
                older: older@,
            },
        }
    }
}

/// How the confidence in a series is obtained.
#[derive(Clone, Copy, Debug, PartialEq, Eq, Structural)]
pub enum Confidence {
    /// The confidence is settled: these are its bits.
    Known(u64),
    /// The confidence is `max(headroom, 0.1)`, where `headroom` is
    /// `1.0 - min(volatility / mean, 1.0)`, with the population mean and
    /// standard deviation of the whole series.
    FromVolatility,
}

/// What the classical strategy makes of one series.
pub struct Estimate<T> {
    pub momentum: Momentum<T>,
    pub confidence: Confidence,
}

/// The mathematical value of an `Estimate`.
pub ghost struct EstimateModel<T> {
    pub momentum: MomentumModel<T>,
    pub confidence: Confidence,
}

impl<T> View for Estimate<T> {
    type V = EstimateModel<T>;

    open spec fn view(&self) -> EstimateModel<T> {
        EstimateModel { momentum: self.momentum@, confidence: self.confidence }
    }
}

/// The five newest samples of `s`, newest first.
pub open spec fn recent_window<T>(s: Seq<T>) -> Seq<T> {
    window_of(s, 0, MOMENTUM_SPAN as nat)
}

/// The five samples of `s` behind its five newest, newest first.
pub open spec fn older_window<T>(s: Seq<T>) -> Seq<T> {
    window_of(s, MOMENTUM_SPAN as nat, MOMENTUM_SPAN as nat)
}

/// The momentum of the series `s`: flat where `s` holds fewer than two
/// samples or one of its two windows is empty, else the relative change of
/// the recent window against the older one.
pub open spec fn momentum_of<T>(s: Seq<T>) -> MomentumModel<T> {
    if s.len() < 2 || recent_window(s).len() == 0 || older_window(s).len() == 0 {
        MomentumModel::Known(FLAT_STRENGTH)
    } else {
        MomentumModel::RelativeChange { recent: recent_window(s), older: older_window(s) }
    }
}

/// The confidence in a series of `samples` samples.
pub open spec fn confidence_of(samples: nat) -> Confidence {
    if samples < VOLATILITY_SAMPLES {
        Confidence::Known(NEUTRAL_CONFIDENCE)
    } else {
        Confidence::FromVolatility
    }
}

/// The estimate of the series `s`.
pub open spec fn estimate_of<T>(s: Seq<T>) -> EstimateModel<T> {
    EstimateModel { momentum: momentum_of(s), confidence: confidence_of(s.len()) }
}

/// Decides how the signal strength of `data` is obtained, and collects the
/// two windows where it takes arithmetic.
pub fn momentum<T: Copy>(data: &[T]) -> (m: Momentum<T>)
    ensures
        m@ == momentum_of(data@),
{
    if data.len() < 2 {
        return Momentum::Known(FLAT_STRENGTH);
    }
    let recent = window_back(data, 0, MOMENTUM_SPAN);
    let older = window_back(data, MOMENTUM_SPAN, MOMENTUM_SPAN);
    if recent.len() == 0 || older.len() == 0 {
        return Momentum::Known(FLAT_STRENGTH);
    }
    Momentum::RelativeChange { recent, older }
}

/// Decides how the confidence in `data` is obtained.
pub fn confidence<T>(data: &[T]) -> (c: Confidence)
    ensures
        c == confidence_of(data@.len()),
{
    if data.len() < VOLATILITY_SAMPLES {
        Confidence::Known(NEUTRAL_CONFIDENCE)
    } else {
        Confidence::FromVolatility
    }
}

/// The classical estimate of `data`.
pub fn estimate<T: Copy>(data: &[T]) -> (e: Estimate<T>)
    ensures
        e@ == estimate_of(data@),
{
    Estimate { momentum: momentum(data), confidence: confidence(data) }
}

/// The confidence that is reported for the headroom that arithmetic gave:
/// the headroom where it is above 0.1, else 0.1, also where the headroom is
/// no number.
pub fn floor_confidence(headroom: u64) -> (c: u64)
    ensures
        c == raised_to(headroom, CONFIDENCE_FLOOR),
{
    if CONFIDENCE_FLOOR < headroom && headroom <= INFINITY {
        headroom
    } else {
        CONFIDENCE_FLOOR
    }
}

/// What an estimate alone fixes of the signal that comes of it: the unnamed
/// instrument, each settled metric, the floor under a confidence that is
/// taken from volatility, the neutral correlation and the absent resonance.
pub open spec fn settled_by<T>(signal: QuantumTradingSignal, e: EstimateModel<T>) -> bool {
    &&& signal.symbol@ == unknown_symbol()
    &&& e.momentum matches MomentumModel::Known(bits) ==> signal.signal_strength == bits
    &&& match e.confidence {
        Confidence::Known(bits) => signal.quantum_confidence == bits,
        Confidence::FromVolatility => exists|headroom: u64|
            signal.quantum_confidence == raised_to(headroom, CONFIDENCE_FLOOR),
    }
    &&& signal.temporal_correlation == NEUTRAL_CORRELATION
    &&& signal.resonance_phase == NO_RESONANCE
}

/// Whether `signal` is a signal that completing an estimate `e` with the
/// two functions can give: it holds what `e` settles, its strength is a
/// result of `relative_change` on the two windows where `e` leaves it open,
/// and its confidence is a result of `headroom` with the floor put under it.
pub open spec fn resolved<T, M, H>(
    signal: QuantumTradingSignal,
    e: EstimateModel<T>,
    relative_change: M,
    headroom: H,
) -> bool where M: FnOnce(Vec<T>, Vec<T>) -> u64, H: FnOnce() -> u64 {
    &&& settled_by(signal, e)
    &&& e.momentum matches MomentumModel::RelativeChange { recent, older } ==> exists|
        r: Vec<T>,
        o: Vec<T>,
    |
        r@ == recent && o@ == older && relative_change.ensures((r, o), signal.signal_strength)
    &&& e.confidence is FromVolatility ==> exists|h: u64|
        headroom.ensures((), h) && signal.quantum_confidence == raised_to(h, CONFIDENCE_FLOOR)
}

impl<T> Estimate<T> {
    /// Completes the estimate to a signal. A settled metric is reported as
    /// it stands. For one that takes arithmetic the matching function is
    /// called, once, for the bits of its result: `relative_change` on the
    /// recent and the older window gives the strength, and `headroom`, for
    /// the whole series, gives what the floor of 0.1 is then put under.
    pub fn resolve<M, H>(self, relative_change: M, headroom: H) -> (signal:
        QuantumTradingSignal) where M: FnOnce(Vec<T>, Vec<T>) -> u64, H: FnOnce() -> u64
        requires
            self.momentum matches Momentum::RelativeChange { recent, older }
                ==> relative_change.requires((recent, older)),
            self.confidence is FromVolatility ==> headroom.requires(()),
        ensures
            resolved(signal, self@, relative_change, headroom),
            self.momentum matches Momentum::RelativeChange { recent, older }
                ==> relative_change.ensures((recent, older), signal.signal_strength),
    {
        let signal_strength: u64 = match self.momentum {
            Momentum::Known(bits) => bits,
            Momentum::RelativeChange { recent, older } => relative_change(recent, older),
        };
        let quantum_confidence: u64 = match self.confidence {
            Confidence::Known(bits) => bits,
            Confidence::FromVolatility => floor_confidence(headroom()),
        };
        QuantumTradingSignal::classical(signal_strength, quantum_confidence)
    }
}

/// The classical analysis of `data`: its estimate, completed with the two
/// functions. Neither function is called for a metric that the length of
/// the series settles.
pub fn analyze<T: Copy, M, H>(data: &[T], relative_change: M, headroom: H) -> (signal:
    QuantumTradingSignal) where M: FnOnce(Vec<T>, Vec<T>) -> u64, H: FnOnce() -> u64
    requires
        data@.len() > MOMENTUM_SPAN ==> forall|recent: Vec<T>, older: Vec<T>|
            recent@ == recent_window(data@) && older@ == older_window(data@)
                ==> relative_change.requires((recent, older)),
        data@.len() >= VOLATILITY_SAMPLES ==> headroom.requires(()),
    ensures
        resolved(signal, estimate_of(data@), relative_change, headroom),
        signal.symbol@ == unknown_symbol(),
        data@.len() <= MOMENTUM_SPAN ==> signal.signal_strength == FLAT_STRENGTH,
        data@.len() > MOMENTUM_SPAN ==> exists|recent: Vec<T>, older: Vec<T>|
            recent@ == recent_window(data@) && older@ == older_window(data@)
                && relative_change.ensures((recent, older), signal.signal_strength),
        data@.len() < VOLATILITY_SAMPLES ==> signal.quantum_confidence == NEUTRAL_CONFIDENCE,
        data@.len() >= VOLATILITY_SAMPLES ==> exists|h: u64|
            headroom.ensures((), h) && signal.quantum_confidence == raised_to(h, CONFIDENCE_FLOOR),
        is_number(signal.quantum_confidence),
        !exceeds(CONFIDENCE_FLOOR, signal.quantum_confidence),
        signal.temporal_correlation == NEUTRAL_CORRELATION,
        signal.resonance_phase == NO_RESONANCE,
{
    proof {
        lemma_momentum_by_length(data@);
    }
    let signal = estimate(data).resolve(relative_change, headroom);
    proof {
        lemma_confidence_is_floored(data@, signal);
    }
    signal
}

/// A series of at most five samples has no older window, and its momentum
/// is settled at 0.0. Every longer series takes arithmetic, on a recent
/// window of five samples and an older one of one to five.
pub proof fn lemma_momentum_by_length<T>(s: Seq<T>)
    ensures
        s.len() <= MOMENTUM_SPAN ==> momentum_of(s) == MomentumModel::<T>::Known(FLAT_STRENGTH),
        s.len() > MOMENTUM_SPAN ==> momentum_of(s) == (MomentumModel::RelativeChange {
            recent: recent_window(s),
            older: older_window(s),
        }),
        recent_window(s).len() == window_len(s.len(), 0, MOMENTUM_SPAN as nat),
        older_window(s).len() == window_len(s.len(), MOMENTUM_SPAN as nat, MOMENTUM_SPAN as nat),
{
    lemma_window_shape(s, 0, MOMENTUM_SPAN as nat);
    lemma_window_shape(s, MOMENTUM_SPAN as nat, MOMENTUM_SPAN as nat);
}

/// The two windows of a series do not overlap: the `k`-th sample of the
/// recent window stands `k` places before the newest sample, the `k`-th of
/// the older window five places further back.
pub proof fn lemma_window_samples<T>(s: Seq<T>)
    ensures
        forall|k: int|
            0 <= k < recent_window(s).len() ==> #[trigger] recent_window(s)[k] == s[s.len() - 1
                - k],
        forall|k: int|
            0 <= k < older_window(s).len() ==> #[trigger] older_window(s)[k] == s[s.len() - 1
                - MOMENTUM_SPAN - k],
{
    lemma_window_shape(s, 0, MOMENTUM_SPAN as nat);
    lemma_window_shape(s, MOMENTUM_SPAN as nat, MOMENTUM_SPAN as nat);
}

/// The signal of a series of fewer than six samples has the strength 0.0,
/// whatever the samples are.
pub proof fn lemma_short_series_is_flat<T>(s: Seq<T>, signal: QuantumTradingSignal)
    requires
        s.len() < 6,
        settled_by(signal, estimate_of(s)),
    ensures
        signal.signal_strength == FLAT_STRENGTH,
{
    lemma_momentum_by_length(s);
}

/// The signal of a series of fewer than ten samples has the confidence 0.5,
/// whatever the samples are.
pub proof fn lemma_short_series_is_neutral<T>(s: Seq<T>, signal: QuantumTradingSignal)
    requires
        s.len() < 10,
        settled_by(signal, estimate_of(s)),
    ensures
        signal.quantum_confidence == NEUTRAL_CONFIDENCE,
{
}

/// The confidence in a series is a number, never a NaN, and never below
/// 0.1, whatever the samples are and whatever arithmetic made of them.
pub proof fn lemma_confidence_is_floored<T>(s: Seq<T>, signal: QuantumTradingSignal)
    requires
        settled_by(signal, estimate_of(s)),
    ensures
        is_number(signal.quantum_confidence),
        !exceeds(CONFIDENCE_FLOOR, signal.quantum_confidence),
{
    if confidence_of(s.len()) is FromVolatility {
        let headroom = choose|headroom: u64|
            signal.quantum_confidence == raised_to(headroom, CONFIDENCE_FLOOR);
        lemma_raised_is_bounded(headroom, CONFIDENCE_FLOOR);
    }
}

/// The floor keeps what is in range in range: where the headroom that
/// arithmetic gave is no more than 1.0, the confidence reported for it lies
/// between 0.1 and 1.0.
pub proof fn lemma_floor_keeps_range(headroom: u64)
    requires
        !exceeds(headroom, FULL_CONFIDENCE),
    ensures
        is_number(raised_to(headroom, CONFIDENCE_FLOOR)),
        !exceeds(CONFIDENCE_FLOOR, raised_to(headroom, CONFIDENCE_FLOOR)),
        !exceeds(raised_to(headroom, CONFIDENCE_FLOOR), FULL_CONFIDENCE),
{
}

/// Only a series of ten samples or more has its confidence taken from its
/// volatility.
pub proof fn lemma_confidence_by_length(samples: nat)
    ensures
        samples < VOLATILITY_SAMPLES <==> confidence_of(samples) == Confidence::Known(
            NEUTRAL_CONFIDENCE,
        ),
        samples >= VOLATILITY_SAMPLES <==> confidence_of(samples) == Confidence::FromVolatility,
{
}

/// Analysis keeps no state: where each of the two functions has one result
/// for the samples it is given, two analyses of the same series report the
/// same strength and the same confidence, bit for bit.
pub proof fn lemma_analysis_is_repeatable<T, M, H>(
    s: Seq<T>,
    relative_change: M,
    headroom: H,
    first: QuantumTradingSignal,
    second: QuantumTradingSignal,
) where M: FnOnce(Vec<T>, Vec<T>) -> u64, H: FnOnce() -> u64
    requires
        resolved(first, estimate_of(s), relative_change, headroom),
        resolved(second, estimate_of(s), relative_change, headroom),
        forall|r1: Vec<T>, o1: Vec<T>, r2: Vec<T>, o2: Vec<T>, b1: u64, b2: u64|
            r1@ == r2@ && o1@ == o2@ && #[trigger] relative_change.ensures((r1, o1), b1)
                && #[trigger] relative_change.ensures((r2, o2), b2) ==> b1 == b2,
        forall|h1: u64, h2: u64|
            #[trigger] headroom.ensures((), h1) && #[trigger] headroom.ensures((), h2) ==> h1
                == h2,
    ensures
        first.signal_strength == second.signal_strength,
        first.quantum_confidence == second.quantum_confidence,
{
}

/// The estimate depends on the samples alone: two series that agree sample
/// by sample have the same estimate.
pub proof fn lemma_estimate_is_determined<T>(a: Seq<T>, b: Seq<T>)
    requires
        a.len() == b.len(),
        forall|i: int| 0 <= i < a.len() ==> a[i] == b[i],
    ensures
        estimate_of(a) == estimate_of(b),
{
    assert(a =~= b);
}

} // verus!
