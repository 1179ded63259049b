use market_signals::analyzer::{Backend, Capability, InitializationError};
use market_signals::analyzer::{QuantumMarketAnalyzer, Step};
use market_signals::classical::{Confidence, Momentum, FLAT_STRENGTH, NEUTRAL_CONFIDENCE};

#[derive(Debug, PartialEq)]
struct Engine {
    id: u32,
}

#[test]
fn classical_only_construction_never_fails() {
    assert!(QuantumMarketAnalyzer::<()>::new(Capability::<(), ()>::ClassicalOnly).is_ok());
    assert!(QuantumMarketAnalyzer::<Engine>::new(Capability::<Engine, String>::ClassicalOnly)
        .is_ok());
    assert!(QuantumMarketAnalyzer::<u8>::new(Capability::<u8, std::fmt::Error>::ClassicalOnly)
        .is_ok());
}

#[test]
fn classical_only_binds_the_classical_strategy() {
    let analyzer = QuantumMarketAnalyzer::<Engine>::new(Capability::<Engine, String>::ClassicalOnly)
        .unwrap();
    assert!(matches!(analyzer.strategy(), Backend::Classical));
}

#[test]
fn advanced_construction_binds_what_was_constructed() {
    let analyzer = QuantumMarketAnalyzer::new(Capability::<Engine, String>::Advanced(Ok(Engine {
        id: 7,
    })))
    .unwrap();
    match analyzer.strategy() {
        Backend::Advanced(engine) => assert_eq!(engine, &Engine { id: 7 }),
        Backend::Classical => panic!("the advanced strategy was selected"),
    }
}

#[test]
fn advanced_construction_failure_is_handed_on_as_it_came() {
    let failed: Capability<Engine, String> = Capability::Advanced(Err("no tensor unit".to_string()));
    match QuantumMarketAnalyzer::new(failed) {
        Err(InitializationError { cause }) => assert_eq!(cause, "no tensor unit"),
        Ok(_) => panic!("the advanced strategy could not be constructed"),
    }
}

#[test]
fn classical_strategy_estimates_the_series() {
    let analyzer = QuantumMarketAnalyzer::<Engine>::new(Capability::<Engine, String>::ClassicalOnly)
        .unwrap();
    let data = [1.0, 2.0, 3.0, 4.0, 5.0, 6.0, 7.0];
    match analyzer.analyze_quantum_signals(&data) {
        Step::Classical(estimate) => {
            assert_eq!(estimate.confidence, Confidence::Known(NEUTRAL_CONFIDENCE));
            match estimate.momentum {
                Momentum::RelativeChange { recent, older } => {
                    assert_eq!(recent, vec![7.0, 6.0, 5.0, 4.0, 3.0]);
                    assert_eq!(older, vec![2.0, 1.0]);
                }
                Momentum::Known(_) => panic!("seven samples have both windows"),
            }
        }
        Step::Delegate(_) => panic!("the classical strategy was selected"),
    }
}

#[test]
fn classical_strategy_settles_a_short_series() {
    let analyzer = QuantumMarketAnalyzer::<Engine>::new(Capability::<Engine, String>::ClassicalOnly)
        .unwrap();
    match analyzer.analyze_quantum_signals(&[3.5, 4.5]) {
        Step::Classical(estimate) => {
            assert!(matches!(estimate.momentum, Momentum::Known(FLAT_STRENGTH)));
            assert_eq!(estimate.confidence, Confidence::Known(NEUTRAL_CONFIDENCE));
        }
        Step::Delegate(_) => panic!("the classical strategy was selected"),
    }
}

#[test]
fn advanced_strategy_is_handed_the_whole_analysis() {
    let analyzer = QuantumMarketAnalyzer::new(Capability::<Engine, String>::Advanced(Ok(Engine {
        id: 3,
    })))
    .unwrap();
    for data in [vec![], vec![1.0], vec![1.0; 12]] {
        match analyzer.analyze_quantum_signals(&data) {
            Step::Delegate(engine) => assert_eq!(engine.id, 3),
            Step::Classical(_) => panic!("the advanced strategy was selected"),
        }
    }
}

#[test]
fn one_analyzer_serves_many_calls() {
    let analyzer = QuantumMarketAnalyzer::<Engine>::new(Capability::<Engine, String>::ClassicalOnly)
        .unwrap();
    for len in 0..20usize {
        let data: Vec<u64> = (0..len as u64).collect();
        assert!(matches!(analyzer.analyze_quantum_signals(&data), Step::Classical(_)));
        assert!(matches!(analyzer.strategy(), Backend::Classical));
    }
}
