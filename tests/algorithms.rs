use std::collections::HashSet;

use synthahol_dx7::{Algorithms, OperatorId, Output, OPERATOR_COUNT};

#[test]
fn carrier() {
    let algorithm = Algorithms::get(0).unwrap();
    assert!(algorithm.is_carrier(0));
    assert!(!algorithm.is_carrier(1));
    assert!(algorithm.is_carrier(2));
    assert!(!algorithm.is_carrier(3));
    assert!(!algorithm.is_carrier(5));
    assert!(!algorithm.is_carrier(6));
}

#[test]
fn feedback() {
    let algorithm = Algorithms::get(0).unwrap();
    assert!(!algorithm.is_feedback(0));
    assert!(algorithm.is_feedback(5));
}

#[test]
fn routing() {
    // Every operator must have an output and not have duplicates
    for (algorithm_index, algorithm) in Algorithms::all().iter().enumerate() {
        for operator_id in 0..OPERATOR_COUNT {
            let routing = algorithm
                .routing(operator_id as OperatorId)
                .expect("every operator has a routing");
            let unique: HashSet<&Output> = routing.into_iter().collect();
            assert_eq!(
                routing.len(),
                unique.len(),
                "Algorithm index {algorithm_index} contains duplicates"
            );
            assert!(
                !routing.is_empty(),
                "Algorithm index {algorithm_index} does not have an output for operator ID {operator_id}"
            );
        }
    }
}

#[test]
fn first_algorithm_routing() {
    let algorithm = Algorithms::get(0).unwrap();
    assert_eq!(algorithm.routing(0).unwrap(), &vec![Output::Amplifier]);
    assert_eq!(algorithm.routing(5).unwrap(), &vec![Output::Op5, Output::Op6]);
    assert!(algorithm.routing(6).is_none());
    assert!(!algorithm.is_feedback(6));
}

#[test]
fn last_algorithm_routing() {
    let algorithm = Algorithms::get(31).unwrap();
    for operator_id in 0..5 {
        assert!(algorithm.is_carrier(operator_id));
    }
    assert!(!algorithm.is_carrier(5));
    assert!(algorithm.is_feedback(5));
    assert_eq!(algorithm.routing(5).unwrap(), &vec![Output::Amplifier, Output::Op6]);
}

#[test]
fn algorithm_count() {
    assert_eq!(Algorithms::count(), 32);
    assert_eq!(Algorithms::all().len(), 32);
    assert!(Algorithms::get(31).is_some());
    assert!(Algorithms::get(32).is_none());
}

#[test]
fn feedback_only_on_self_loops() {
    // Algorithm 4 (index 3): operator 6 feeds operator 5 and the amplifier.
    let algorithm = Algorithms::get(3).unwrap();
    assert!(!algorithm.is_feedback(5));
    assert!(!algorithm.is_carrier(5));
    // Algorithm 12 (index 11): operator 2 feeds itself.
    let algorithm = Algorithms::get(11).unwrap();
    assert!(algorithm.is_feedback(1));
}

#[test]
fn output_from_operator_id() {
    assert_eq!(Output::from(0), Some(Output::Op1));
    assert_eq!(Output::from(2), Some(Output::Op3));
    assert_eq!(Output::from(5), Some(Output::Op6));
    assert_eq!(Output::from(6), None);
    assert!(Output::Op4.is_operator());
    assert!(!Output::Amplifier.is_operator());
    assert_eq!(Output::Op1.as_str(), "Operator 1");
    assert_eq!(Output::Amplifier.as_str(), "Amplifier");
}
