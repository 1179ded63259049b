//! The facade: one way to construct an analyzer and one way to ask it,
//! whichever strategy stands behind it.

use vstd::prelude::*;
use crate::classical::{estimate, estimate_of, Estimate};

verus! {

/// What the configuration selects for a new analyzer.
pub enum Capability<A, E> {
    /// The classical strategy, which is always to be had.
    ClassicalOnly,
    /// The advanced strategy, with what came of constructing it.
    Advanced(Result<A, E>),
}

/// The strategy that an analyzer is bound to for its lifetime.
pub enum Backend<A> {
    Classical,
    Advanced(A),
}

/// The advanced strategy could not be constructed; `cause` is its own error,
/// as it came.
#[derive(Debug)]
pub struct InitializationError<E> {
    pub cause: E,
}

/// What the caller of an analysis does next.
pub enum Step<'a, A, T> {
    /// Complete this estimate of the series to a signal.
    Classical(Estimate<T>),
    /// Hand the series to this advanced strategy and return what it returns.
    Delegate(&'a A),
}

/// A market analyzer bound to one strategy.
pub struct QuantumMarketAnalyzer<A> {
    backend: Backend<A>,
}

impl<A> QuantumMarketAnalyzer<A> {
    /// The strategy that the analyzer is bound to.
    pub closed spec fn backend(&self) -> Backend<A> {
        self.backend
    }

    /// Binds an analyzer to the strategy that `capability` selects. This
    /// fails only where the advanced strategy was selected and could not be
    /// constructed.
    pub fn new<E>(capability: Capability<A, E>) -> (r: Result<Self, InitializationError<E>>)
        ensures
            match capability {
                Capability::ClassicalOnly => r matches Ok(analyzer) && analyzer.backend()
                    == Backend::<A>::Classical,
                Capability::Advanced(Ok(advanced)) => r matches Ok(analyzer) && analyzer.backend()
                    == Backend::Advanced(advanced),
                Capability::Advanced(Err(cause)) => r matches Err(e) && e.cause == cause,
            },
    {
        match capability {
            Capability::ClassicalOnly => Ok(QuantumMarketAnalyzer { backend: Backend::Classical }),
            Capability::Advanced(Ok(advanced)) => Ok(
                QuantumMarketAnalyzer { backend: Backend::Advanced(advanced) },
            ),
            Capability::Advanced(Err(cause)) => Err(InitializationError { cause }),
        }
    }

    /// The strategy that the analyzer is bound to.
    pub fn strategy(&self) -> (b: &Backend<A>)
        ensures
            *b == self.backend(),
    {
        &self.backend
    }

    /// Starts the analysis of `market_data`. Under the classical strategy
    /// the series is estimated here; under the advanced strategy the whole
    /// analysis is that strategy's to make, and so are its errors.
    pub fn analyze_quantum_signals<'a, T: Copy>(&'a self, market_data: &[T]) -> (step: Step<
        'a,
        A,
        T,
    >)
        ensures
            match self.backend() {
                Backend::Classical => step matches Step::Classical(e) && e@ == estimate_of(
                    market_data@,
                ),
                Backend::Advanced(advanced) => step matches Step::Delegate(a) && *a == advanced,
            },
    {
        match &self.backend {
            Backend::Classical => Step::Classical(estimate(market_data)),
            Backend::Advanced(advanced) => Step::Delegate(advanced),
        }
    }
}

} // verus!
