//! The decision engine: a state machine that classifies a scanned unit.
//! An exempt unit is a golden sample and the store is never asked anything.
//! Otherwise the total test count of the scanned identifier decides: below
//! the low threshold the unit is admitted outright, at or above the high
//! threshold it is rejected outright, and in between the worst per-board
//! failure count of the panel settles it against the low threshold. Any
//! fatal failure ends the run with an error classification.
//!
//! The engine itself performs no I/O: the caller reads the next required
//! action off the state, carries it out, and feeds the outcome back in as
//! an event.

use vstd::prelude::*;

use crate::error::FlowError;

verus! {

/// The two policy thresholds. They encode a business rule, not a property
/// of the engine, so they are carried as values rather than baked in.
#[derive(Debug, Clone, Copy, PartialEq, Eq, Structural)]
pub struct Policy {
    /// Below this total test count a unit is admitted without looking at
    /// the panel; a panel whose worst board reaches it is rejected.
    pub low_threshold: i32,
    /// At or above this total test count a unit is rejected outright.
    pub high_threshold: i32,
}

impl Policy {
    /// A sensible two-stage policy keeps the low threshold at or below the
    /// high one, so the outright-admit and outright-reject bands cannot
    /// overlap.
    pub open spec fn wf(self) -> bool {
        self.low_threshold <= self.high_threshold
    }
}

/// The final outcome of one invocation, the program's sole output value.
#[derive(Debug, Clone, Copy, PartialEq, Eq, Structural)]
pub enum Classification {
    /// The unit is on the exemption list; nothing was queried.
    GoldenSample,
    /// The unit may go through another test cycle. `failures` is the worst
    /// per-board failure count when the panel was examined, and absent when
    /// the total count alone already admitted the unit.
    Admitted { failures: Option<i32>, tested: i32 },
    /// The unit may not be tested again. `failures` is absent when the
    /// total count alone already rejected the unit.
    Rejected { failures: Option<i32>, tested: i32 },
    /// The run failed before a verdict was reached.
    Error { error: FlowError },
}

/// Where the engine stands, and with it what the caller must do next:
/// check the exemption list, run the total-count query, run the
/// panel-failure query, or report the finished classification.
#[derive(Debug, Clone, Copy, PartialEq, Eq, Structural)]
pub enum EngineState {
    /// Nothing has happened yet; the caller checks the exemption list.
    Start,
    /// The unit is not exempt; the caller connects and counts every
    /// historical test record of the scanned identifier.
    AwaitingTotal,
    /// The total count was ambiguous; the caller derives the panel
    /// siblings and queries the worst per-board failure count.
    AwaitingPanel { tested: i32 },
    /// The classification is settled; no further event is accepted.
    Finished { outcome: Classification },
}

/// What the caller observed while carrying out the pending action.
#[derive(Debug, Clone, Copy, PartialEq, Eq, Structural)]
pub enum EngineEvent {
    /// The exemption list was consulted.
    ExemptionChecked { exempt: bool },
    /// The total-count query returned this count.
    TotalCounted { tested: i32 },
    /// The panel-failure query returned this worst per-board count.
    PanelCounted { max_failures: i32 },
    /// Connecting, querying, or an earlier step failed for good.
    Failed { error: FlowError },
}

/// Which events a state accepts: each querying state accepts exactly the
/// outcome of its own pending action or a failure, and a finished engine
/// accepts nothing.
pub open spec fn event_fits(state: EngineState, event: EngineEvent) -> bool {
    match (state, event) {
        (EngineState::Finished { .. }, _) => false,
        (_, EngineEvent::Failed { .. }) => true,
        (EngineState::Start, EngineEvent::ExemptionChecked { .. }) => true,
        (EngineState::AwaitingTotal, EngineEvent::TotalCounted { .. }) => true,
        (EngineState::AwaitingPanel { .. }, EngineEvent::PanelCounted { .. }) => true,
        _ => false,
    }
}

/// The transition relation of the engine, the two-stage threshold policy
/// itself.
pub open spec fn spec_step(policy: Policy, state: EngineState, event: EngineEvent) -> EngineState
    recommends
        event_fits(state, event),
{
    match event {
        EngineEvent::Failed { error } => EngineState::Finished {
            outcome: Classification::Error { error },
        },
        EngineEvent::ExemptionChecked { exempt } => if exempt {
            EngineState::Finished { outcome: Classification::GoldenSample }
        } else {
            EngineState::AwaitingTotal
        },
        EngineEvent::TotalCounted { tested } => if tested < policy.low_threshold {
            EngineState::Finished {
                outcome: Classification::Admitted { failures: None, tested },
            }
        } else if tested >= policy.high_threshold {
            EngineState::Finished {
                outcome: Classification::Rejected { failures: None, tested },
            }
        } else {
            EngineState::AwaitingPanel { tested }
        },
        EngineEvent::PanelCounted { max_failures } => {
            let tested = state->AwaitingPanel_tested;
            if max_failures >= policy.low_threshold {
                EngineState::Finished {
                    outcome: Classification::Rejected {
                        failures: Some(max_failures),
                        tested,
                    },
                }
            } else {
                EngineState::Finished {
                    outcome: Classification::Admitted {
                        failures: Some(max_failures),
                        tested,
                    },
                }
            }
        },
    }
}

impl EngineState {
    /// The classification, once the engine has finished.
    pub fn outcome(&self) -> (r: Option<Classification>)
        ensures
            r == (match *self {
                EngineState::Finished { outcome } => Some(outcome),
                _ => None::<Classification>,
            }),
    {
        match self {
            EngineState::Finished { outcome } => Some(*outcome),
            _ => None,
        }
    }
}

/// Advances the engine by one observed event.
pub fn engine_step(policy: &Policy, state: EngineState, event: EngineEvent) -> (next: EngineState)
    requires
        event_fits(state, event),
    ensures
        next == spec_step(*policy, state, event),
{
    match event {
        EngineEvent::Failed { error } => EngineState::Finished {
            outcome: Classification::Error { error },
        },
        EngineEvent::ExemptionChecked { exempt } => if exempt {
            EngineState::Finished { outcome: Classification::GoldenSample }
        } else {
            EngineState::AwaitingTotal
        },
        EngineEvent::TotalCounted { tested } => if tested < policy.low_threshold {
            EngineState::Finished {
                outcome: Classification::Admitted { failures: None, tested },
            }
        } else if tested >= policy.high_threshold {
            EngineState::Finished {
                outcome: Classification::Rejected { failures: None, tested },
            }
        } else {
            EngineState::AwaitingPanel { tested }
        },
        EngineEvent::PanelCounted { max_failures } => {
            let tested = match state {
                EngineState::AwaitingPanel { tested } => tested,
                _ => 0,
            };
            if max_failures >= policy.low_threshold {
                EngineState::Finished {
                    outcome: Classification::Rejected {
                        failures: Some(max_failures),
                        tested,
                    },
                }
            } else {
                EngineState::Finished {
                    outcome: Classification::Admitted {
                        failures: Some(max_failures),
                        tested,
                    },
                }
            }
        },
    }
}

/// An exempt unit is classified a golden sample in one step, and the
/// finished engine accepts no further event — in particular, no querying
/// state is ever reached, so the store is never contacted.
pub proof fn lemma_exempt_short_circuit(policy: Policy, event: EngineEvent)
    ensures
        spec_step(policy, EngineState::Start, EngineEvent::ExemptionChecked { exempt: true })
            == (EngineState::Finished { outcome: Classification::GoldenSample }),
        !event_fits(EngineState::Finished { outcome: Classification::GoldenSample }, event),
{
}

/// A total test count below the low threshold admits the unit at once,
/// with no panel-failure detail: the engine finishes without ever asking
/// for the panel query.
pub proof fn lemma_low_total_admits(policy: Policy, tested: i32)
    requires
        tested < policy.low_threshold,
    ensures
        spec_step(policy, EngineState::AwaitingTotal, EngineEvent::TotalCounted { tested })
            == (EngineState::Finished {
            outcome: Classification::Admitted { failures: None, tested },
        }),
{
}

/// A total test count at or above the high threshold rejects the unit at
/// once, regardless of the panel: the engine finishes without ever asking
/// for the panel query.
pub proof fn lemma_high_total_rejects(policy: Policy, tested: i32)
    requires
        policy.wf(),
        tested >= policy.high_threshold,
    ensures
        spec_step(policy, EngineState::AwaitingTotal, EngineEvent::TotalCounted { tested })
            == (EngineState::Finished {
            outcome: Classification::Rejected { failures: None, tested },
        }),
{
}

/// A total count between the thresholds defers to the panel: the worst
/// per-board failure count rejects the panel exactly when it reaches the
/// low threshold, and both counts are reported either way.
pub proof fn lemma_panel_settles(policy: Policy, tested: i32, max_failures: i32)
    requires
        policy.low_threshold <= tested < policy.high_threshold,
    ensures
        spec_step(policy, EngineState::AwaitingTotal, EngineEvent::TotalCounted { tested })
            == (EngineState::AwaitingPanel { tested }),
        spec_step(
            policy,
            EngineState::AwaitingPanel { tested },
            EngineEvent::PanelCounted { max_failures },
        ) == (EngineState::Finished {
            outcome: if max_failures >= policy.low_threshold {
                Classification::Rejected { failures: Some(max_failures), tested }
            } else {
                Classification::Admitted { failures: Some(max_failures), tested }
            },
        }),
{
}

} // verus!
