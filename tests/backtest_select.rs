use rbuilder_cli::{AlgorithmRegistry, BacktestError};

fn registry() -> AlgorithmRegistry {
    AlgorithmRegistry::new(vec![
        "mgp-ordering".to_string(),
        "mp-ordering".to_string(),
        "parallel".to_string(),
        "mp-ordering".to_string(),
    ])
}

#[test]
fn unregistered_algorithm_is_unknown() {
    assert_eq!(
        registry().find("algo-x"),
        Err(BacktestError::UnknownAlgorithm("algo-x".to_string()))
    );
}

#[test]
fn registered_algorithm_is_found_first() {
    let r = registry();
    assert_eq!(r.find("mgp-ordering"), Ok(0));
    assert_eq!(r.find("mp-ordering"), Ok(1));
    assert_eq!(r.find("parallel"), Ok(2));
}

#[test]
fn empty_registry_knows_nothing() {
    let r = AlgorithmRegistry::new(vec![]);
    assert_eq!(r.find(""), Err(BacktestError::UnknownAlgorithm(String::new())));
}
