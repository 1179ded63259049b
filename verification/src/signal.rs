//! The value that an analysis hands to its caller.

use vstd::prelude::*;

verus! {

/// 0.5: the temporal correlation of a signal that no correlation model stands behind.
pub const NEUTRAL_CORRELATION: u64 = 0x3FE0_0000_0000_0000;

/// 0.0: the resonance phase of a signal that no resonance processing stands behind.
pub const NO_RESONANCE: u64 = 0;

/// The symbol of a signal whose instrument the caller has not named yet.
pub open spec fn unknown_symbol() -> Seq<char> {
    "UNKNOWN"@
}

/// A trading signal. Each metric is the bit pattern of an IEEE 754 double.
#[derive(Debug, Clone, PartialEq, Eq)]
pub struct QuantumTradingSignal {
    pub symbol: String,
    pub signal_strength: u64,
    pub quantum_confidence: u64,
    pub temporal_correlation: u64,
    pub resonance_phase: u64,
}

impl QuantumTradingSignal {
    /// The signal of the classical strategy for the given strength and
    /// confidence: its instrument is still unnamed, its correlation neutral,
    /// and it has no resonance.
    pub fn classical(signal_strength: u64, quantum_confidence: u64) -> (signal: Self)
        ensures
            signal.symbol@ == unknown_symbol(),
            signal.signal_strength == signal_strength,
            signal.quantum_confidence == quantum_confidence,
            signal.temporal_correlation == NEUTRAL_CORRELATION,
            signal.resonance_phase == NO_RESONANCE,
    {
        QuantumTradingSignal {
            symbol: "UNKNOWN".to_owned(),
            signal_strength,
            quantum_confidence,
            temporal_correlation: NEUTRAL_CORRELATION,
            resonance_phase: NO_RESONANCE,
        }
    }

    /// The same signal under the instrument `symbol`.
    pub fn with_symbol(self, symbol: String) -> (signal: Self)
        ensures
            signal.symbol == symbol,
            signal.signal_strength == self.signal_strength,
            signal.quantum_confidence == self.quantum_confidence,
            signal.temporal_correlation == self.temporal_correlation,
            signal.resonance_phase == self.resonance_phase,
    {
        QuantumTradingSignal {
            symbol,
            signal_strength: self.signal_strength,
            quantum_confidence: self.quantum_confidence,
            temporal_correlation: self.temporal_correlation,
            resonance_phase: self.resonance_phase,
        }
    }
}

} // verus!
