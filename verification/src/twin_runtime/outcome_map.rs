//! Maps headlamp zone outcomes to domain actions for the actuation path.

use vstd::prelude::*;
use crate::fsm::{DomainAction, DomainActionView};
use crate::vehicle_state::{HeadlampOutcome, HeadlampOutcomeView};

verus! {

/// The domain action for one zone outcome.
pub open spec fn outcome_action(o: HeadlampOutcomeView) -> DomainActionView {
    match o {
        HeadlampOutcomeView::RequestOn => DomainActionView::RequestFrontHeadlampOn,
        HeadlampOutcomeView::RequestOff => DomainActionView::RequestFrontHeadlampOff,
        HeadlampOutcomeView::LogWarning(m) => DomainActionView::LogWarning(m),
    }
}

/// The domain actions for a list of zone outcomes, one each, in order.
pub open spec fn outcome_actions(s: Seq<HeadlampOutcomeView>) -> Seq<DomainActionView> {
    s.map_values(|o: HeadlampOutcomeView| outcome_action(o))
}

/// Maps every zone outcome to its domain action, keeping the order.
pub fn headlamp_outcomes_to_domain_actions(outcomes: Vec<HeadlampOutcome>) -> (actions: Vec<DomainAction>)
    ensures
        actions.deep_view() == outcome_actions(outcomes.deep_view()),
{
    let mut actions: Vec<DomainAction> = Vec::new();
    let n = outcomes.len();
    for i in 0..n
        invariant
            n == outcomes.len(),
            actions.len() == i,
            forall|j: int| 0 <= j < i ==> #[trigger] actions@[j]@ == outcome_action(outcomes@[j]@),
    {
        let a = match &outcomes[i] {
            HeadlampOutcome::RequestOn => DomainAction::RequestFrontHeadlampOn,
            HeadlampOutcome::RequestOff => DomainAction::RequestFrontHeadlampOff,
            HeadlampOutcome::LogWarning(m) => DomainAction::LogWarning(m.clone()),
        };
        actions.push(a);
    }
    assert(actions.deep_view() =~= outcome_actions(outcomes.deep_view()));
    actions
}

} // verus!
