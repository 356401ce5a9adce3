use design_patterns::adapter::{OrdinaryTarget, SpecificTarget, Target, TargetAdapter};

#[test]
fn ordinary_target_answers_directly() {
    assert_eq!(OrdinaryTarget.request(), "Ordinary request");
}

#[test]
fn specific_target_answers_backwards() {
    assert_eq!(SpecificTarget.specific_request(), ".tseuqer cificepS");
}

#[test]
fn adapter_turns_the_answer_round() {
    let adapter = TargetAdapter::new(SpecificTarget);
    assert_eq!(adapter.request(), "Specific request.");
}
