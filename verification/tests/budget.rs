use harness_runtime::agent_supervisor::{validate_child_budget, SupervisorError};
use harness_runtime::budget::{
    check_child_budget, merge_budget_defaults, AgentBudget, BudgetError, BudgetField, UsdAmount,
};

fn usd(mantissa: i128, scale: u32) -> Option<UsdAmount> {
    Some(UsdAmount { mantissa, scale })
}

#[test]
fn child_budget_cannot_remove_or_raise_parent_limits() {
    let parent = AgentBudget {
        max_total_tokens: Some(100),
        max_cost_usd: usd(500, 2),
        max_children: Some(2),
        max_depth: Some(3),
        ..Default::default()
    };

    let unlimited_tokens = AgentBudget {
        max_cost_usd: parent.max_cost_usd,
        max_children: parent.max_children,
        max_depth: parent.max_depth,
        ..Default::default()
    };
    match validate_child_budget(&parent, &unlimited_tokens) {
        Err(SupervisorError::BudgetEscalation(field)) => {
            assert_eq!(field.name(), "max_total_tokens")
        }
        other => panic!("expected an escalation, got {other:?}"),
    }

    let tighter = AgentBudget {
        max_total_tokens: Some(80),
        max_cost_usd: usd(400, 2),
        max_children: Some(1),
        max_depth: Some(2),
        ..Default::default()
    };
    assert!(validate_child_budget(&parent, &tighter).is_ok());
}

#[test]
fn costs_compare_by_value() {
    let parent = AgentBudget { max_cost_usd: usd(5, 0), ..Default::default() };
    let equal = AgentBudget { max_cost_usd: usd(500, 2), ..Default::default() };
    let more = AgentBudget { max_cost_usd: usd(501, 2), ..Default::default() };
    let less = AgentBudget { max_cost_usd: usd(4999, 3), ..Default::default() };
    let negative = AgentBudget { max_cost_usd: usd(-1, 28), ..Default::default() };
    assert_eq!(check_child_budget(&parent, &equal), Ok(()));
    assert_eq!(check_child_budget(&parent, &more), Err(BudgetField::MaxCostUsd));
    assert_eq!(check_child_budget(&parent, &less), Ok(()));
    assert_eq!(check_child_budget(&parent, &negative), Ok(()));
    assert_eq!(check_child_budget(&negative, &parent), Err(BudgetField::MaxCostUsd));
}

#[test]
fn extreme_costs_compare_by_value() {
    let most: i128 = 0xFFFF_FFFF_FFFF_FFFF_FFFF_FFFF;
    let large = AgentBudget { max_cost_usd: usd(most, 0), ..Default::default() };
    let small = AgentBudget { max_cost_usd: usd(most, 28), ..Default::default() };
    assert_eq!(check_child_budget(&large, &small), Ok(()));
    assert_eq!(check_child_budget(&small, &large), Err(BudgetField::MaxCostUsd));
    assert_eq!(check_child_budget(&large, &large), Ok(()));
}

#[test]
fn the_first_looser_limit_is_named() {
    let parent = AgentBudget {
        max_input_tokens: Some(1),
        max_output_tokens: Some(1),
        max_total_tokens: Some(1),
        max_cost_usd: usd(1, 0),
        max_requests: Some(1),
        max_tool_calls: Some(1),
        max_children: Some(1),
        max_depth: Some(1),
    };
    let cases = [
        (BudgetField::MaxInputTokens, "max_input_tokens", AgentBudget { max_input_tokens: None, ..parent }),
        (BudgetField::MaxOutputTokens, "max_output_tokens", AgentBudget { max_output_tokens: Some(2), ..parent }),
        (BudgetField::MaxTotalTokens, "max_total_tokens", AgentBudget { max_total_tokens: None, ..parent }),
        (BudgetField::MaxCostUsd, "max_cost_usd", AgentBudget { max_cost_usd: None, ..parent }),
        (BudgetField::MaxRequests, "max_requests", AgentBudget { max_requests: Some(9), ..parent }),
        (BudgetField::MaxToolCalls, "max_tool_calls", AgentBudget { max_tool_calls: None, ..parent }),
        (BudgetField::MaxChildren, "max_children", AgentBudget { max_children: Some(2), ..parent }),
        (BudgetField::MaxDepth, "max_depth", AgentBudget { max_depth: None, ..parent }),
    ];
    for (field, name, child) in cases {
        assert_eq!(check_child_budget(&parent, &child), Err(field));
        assert_eq!(field.name(), name);
    }
    let several = AgentBudget { max_depth: None, max_requests: None, ..parent };
    assert_eq!(check_child_budget(&parent, &several), Err(BudgetField::MaxRequests));
    assert_eq!(check_child_budget(&parent, &parent), Ok(()));
}

#[test]
fn an_unlimited_parent_accepts_every_child() {
    let child = AgentBudget { max_requests: Some(u64::MAX), ..Default::default() };
    assert_eq!(check_child_budget(&AgentBudget::default(), &child), Ok(()));
    assert_eq!(check_child_budget(&AgentBudget::default(), &AgentBudget::default()), Ok(()));
}

#[test]
fn merging_nothing_gives_the_parents_budget() {
    let parent = AgentBudget { max_depth: Some(4), max_cost_usd: usd(1, 2), ..Default::default() };
    assert_eq!(merge_budget_defaults(AgentBudget::default(), &parent), parent);
}

#[test]
fn room_for_children_and_depth_is_counted() {
    let budget = AgentBudget { max_children: Some(2), max_depth: Some(3), ..Default::default() };
    assert_eq!(budget.check_children(1), Ok(()));
    assert_eq!(
        budget.check_children(2),
        Err(BudgetError::TooManyChildren { current: 2, max: 2 })
    );
    assert_eq!(budget.check_depth(2), Ok(()));
    assert_eq!(budget.check_depth(3), Err(BudgetError::DepthExceeded { depth: 3, max: 3 }));
    assert_eq!(AgentBudget::default().check_children(usize::MAX), Ok(()));
    assert_eq!(AgentBudget::default().check_depth(u32::MAX), Ok(()));
}
