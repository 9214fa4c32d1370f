use overwatch_rs::state::{binding_step, BindingAction, BindingEvent, BindingPhase};

#[test]
fn awaiting_observation_invokes_the_operator() {
    let (phase, action) = binding_step(BindingPhase::Awaiting, BindingEvent::Observed(7u64));
    assert_eq!(phase, BindingPhase::Reacting);
    assert!(matches!(action, BindingAction::Invoke(7)));
}

#[test]
fn reacting_defers_every_further_observation() {
    let (phase, action) = binding_step(BindingPhase::Reacting, BindingEvent::Observed(8u64));
    assert_eq!(phase, BindingPhase::Reacting);
    assert!(matches!(action, BindingAction::Wait));
    let (phase, action) =
        binding_step::<u64>(BindingPhase::Reacting, BindingEvent::ProducerGone);
    assert_eq!(phase, BindingPhase::Reacting);
    assert!(matches!(action, BindingAction::Wait));
}

#[test]
fn completed_reaction_returns_to_awaiting() {
    let (phase, action) =
        binding_step::<u64>(BindingPhase::Reacting, BindingEvent::ReactionComplete);
    assert_eq!(phase, BindingPhase::Awaiting);
    assert!(matches!(action, BindingAction::Wait));
}

#[test]
fn producer_gone_while_awaiting_stops_cleanly() {
    let (phase, action) = binding_step::<u64>(BindingPhase::Awaiting, BindingEvent::ProducerGone);
    assert_eq!(phase, BindingPhase::Closed);
    assert!(matches!(action, BindingAction::Stop));
}

#[test]
fn closed_binding_stays_stopped() {
    let (phase, action) = binding_step(BindingPhase::Closed, BindingEvent::Observed(1u64));
    assert_eq!(phase, BindingPhase::Closed);
    assert!(matches!(action, BindingAction::Stop));
    let (phase, action) =
        binding_step::<u64>(BindingPhase::Closed, BindingEvent::ReactionComplete);
    assert_eq!(phase, BindingPhase::Closed);
    assert!(matches!(action, BindingAction::Stop));
}
