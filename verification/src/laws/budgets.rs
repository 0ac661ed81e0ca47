//! Laws of budgets.

use vstd::arithmetic::power::pow;
use vstd::prelude::*;

use crate::budget::{
    check_child_budget, merge_budget_defaults, AgentBudget, BudgetError, BudgetField, UsdAmount,
};

verus! {

/// Whether a limit is looser than the parent's limit on the same resource.
pub open spec fn looser(parent: Option<u64>, child: Option<u64>) -> bool {
    parent is Some && (child is None || child->0 > parent->0)
}

/// [`looser`] for small limits.
pub open spec fn looser_small(parent: Option<u32>, child: Option<u32>) -> bool {
    parent is Some && (child is None || child->0 > parent->0)
}

/// [`looser`] for amounts of money.
pub open spec fn looser_money(parent: Option<UsdAmount>, child: Option<UsdAmount>) -> bool {
    parent is Some && (child is None || child->0.mantissa * pow(10, parent->0.scale as nat)
        > parent->0.mantissa * pow(10, child->0.scale as nat))
}

/// Whether some limit of a child's budget is looser than its parent's.
pub open spec fn escalates(parent: AgentBudget, child: AgentBudget) -> bool {
    ||| looser(parent.max_input_tokens, child.max_input_tokens)
    ||| looser(parent.max_output_tokens, child.max_output_tokens)
    ||| looser(parent.max_total_tokens, child.max_total_tokens)
    ||| looser_money(parent.max_cost_usd, child.max_cost_usd)
    ||| looser(parent.max_requests, child.max_requests)
    ||| looser(parent.max_tool_calls, child.max_tool_calls)
    ||| looser_small(parent.max_children, child.max_children)
    ||| looser_small(parent.max_depth, child.max_depth)
}

/// A child's budget is accepted exactly when none of its limits is looser
/// than the parent's; otherwise the first one that is looser is named, in the
/// order in which a budget lists its limits.
pub proof fn the_first_looser_limit_is_named(
    parent: &AgentBudget,
    child: &AgentBudget,
    r: Result<(), BudgetField>,
)
    requires
        parent.valid(),
        child.valid(),
        call_ensures(check_child_budget, (parent, child), r),
    ensures
        ({
            let l0 = looser(parent.max_input_tokens, child.max_input_tokens);
            let l1 = looser(parent.max_output_tokens, child.max_output_tokens);
            let l2 = looser(parent.max_total_tokens, child.max_total_tokens);
            let l3 = looser_money(parent.max_cost_usd, child.max_cost_usd);
            let l4 = looser(parent.max_requests, child.max_requests);
            let l5 = looser(parent.max_tool_calls, child.max_tool_calls);
            let l6 = looser_small(parent.max_children, child.max_children);
            let l7 = looser_small(parent.max_depth, child.max_depth);
            &&& r is Ok <==> !l0 && !l1 && !l2 && !l3 && !l4 && !l5 && !l6 && !l7
            &&& r == Err::<(), BudgetField>(BudgetField::MaxInputTokens) <==> l0
            &&& r == Err::<(), BudgetField>(BudgetField::MaxOutputTokens) <==> !l0 && l1
            &&& r == Err::<(), BudgetField>(BudgetField::MaxTotalTokens) <==> !l0 && !l1 && l2
            &&& r == Err::<(), BudgetField>(BudgetField::MaxCostUsd) <==> !l0 && !l1 && !l2 && l3
            &&& r == Err::<(), BudgetField>(BudgetField::MaxRequests) <==> !l0 && !l1 && !l2 && !l3
                && l4
            &&& r == Err::<(), BudgetField>(BudgetField::MaxToolCalls) <==> !l0 && !l1 && !l2 && !l3
                && !l4 && l5
            &&& r == Err::<(), BudgetField>(BudgetField::MaxChildren) <==> !l0 && !l1 && !l2 && !l3
                && !l4 && !l5 && l6
            &&& r == Err::<(), BudgetField>(BudgetField::MaxDepth) <==> !l0 && !l1 && !l2 && !l3
                && !l4 && !l5 && !l6 && l7
        }),
{
    assert(BudgetField::MaxInputTokens.kept(*parent, *child) <==> !looser(
        parent.max_input_tokens,
        child.max_input_tokens,
    ));
    assert(BudgetField::MaxOutputTokens.kept(*parent, *child) <==> !looser(
        parent.max_output_tokens,
        child.max_output_tokens,
    ));
    assert(BudgetField::MaxTotalTokens.kept(*parent, *child) <==> !looser(
        parent.max_total_tokens,
        child.max_total_tokens,
    ));
    assert(BudgetField::MaxCostUsd.kept(*parent, *child) <==> !looser_money(
        parent.max_cost_usd,
        child.max_cost_usd,
    ));
    assert(BudgetField::MaxRequests.kept(*parent, *child) <==> !looser(
        parent.max_requests,
        child.max_requests,
    ));
    assert(BudgetField::MaxToolCalls.kept(*parent, *child) <==> !looser(
        parent.max_tool_calls,
        child.max_tool_calls,
    ));
    assert(BudgetField::MaxChildren.kept(*parent, *child) <==> !looser_small(
        parent.max_children,
        child.max_children,
    ));
    assert(BudgetField::MaxDepth.kept(*parent, *child) <==> !looser_small(
        parent.max_depth,
        child.max_depth,
    ));
}

/// A parent without limits accepts every budget, and its own.
pub proof fn a_parent_without_limits_accepts_everything(
    parent: AgentBudget,
    child: &AgentBudget,
    r: Result<(), BudgetField>,
)
    requires
        call_ensures(AgentBudget::default, (), parent),
        child.valid(),
        call_ensures(check_child_budget, (&parent, child), r),
    ensures
        r is Ok,
{
    the_first_looser_limit_is_named(&parent, child, r);
}

/// Another child is accepted exactly while there are fewer children than the
/// limit, or no limit. A refusal says how many there are and what the limit
/// is.
pub proof fn children_stay_below_the_limit(
    budget: &AgentBudget,
    current: usize,
    r: Result<(), BudgetError>,
)
    requires
        call_ensures(AgentBudget::check_children, (budget, current), r),
    ensures
        r is Ok <==> budget.max_children is None || current < budget.max_children->0,
        r matches Err(error) ==> error == (BudgetError::TooManyChildren {
            current,
            max: budget.max_children->0,
        }),
{
}

/// A child one level below is accepted exactly while its parent's depth is
/// below the limit, or there is no limit. A refusal says at which depth the
/// parent is and what the limit is.
pub proof fn depth_stays_below_the_limit(
    budget: &AgentBudget,
    depth: u32,
    r: Result<(), BudgetError>,
)
    requires
        call_ensures(AgentBudget::check_depth, (budget, depth), r),
    ensures
        r is Ok <==> budget.max_depth is None || depth < budget.max_depth->0,
        r matches Err(error) ==> error == (BudgetError::DepthExceeded {
            depth,
            max: budget.max_depth->0,
        }),
{
}

/// Whether `filled` has every limit of `set`, and `fallback`'s own where
/// `set` leaves one open.
pub open spec fn fills_in(set: AgentBudget, fallback: AgentBudget, filled: AgentBudget) -> bool {
    &&& filled.max_input_tokens == set.max_input_tokens || set.max_input_tokens is None
        && filled.max_input_tokens == fallback.max_input_tokens
    &&& filled.max_output_tokens == set.max_output_tokens || set.max_output_tokens is None
        && filled.max_output_tokens == fallback.max_output_tokens
    &&& filled.max_total_tokens == set.max_total_tokens || set.max_total_tokens is None
        && filled.max_total_tokens == fallback.max_total_tokens
    &&& filled.max_cost_usd == set.max_cost_usd || set.max_cost_usd is None && filled.max_cost_usd
        == fallback.max_cost_usd
    &&& filled.max_requests == set.max_requests || set.max_requests is None && filled.max_requests
        == fallback.max_requests
    &&& filled.max_tool_calls == set.max_tool_calls || set.max_tool_calls is None
        && filled.max_tool_calls == fallback.max_tool_calls
    &&& filled.max_children == set.max_children || set.max_children is None && filled.max_children
        == fallback.max_children
    &&& filled.max_depth == set.max_depth || set.max_depth is None && filled.max_depth
        == fallback.max_depth
    &&& filled.max_input_tokens is None ==> fallback.max_input_tokens is None
    &&& filled.max_output_tokens is None ==> fallback.max_output_tokens is None
    &&& filled.max_total_tokens is None ==> fallback.max_total_tokens is None
    &&& filled.max_cost_usd is None ==> fallback.max_cost_usd is None
    &&& filled.max_requests is None ==> fallback.max_requests is None
    &&& filled.max_tool_calls is None ==> fallback.max_tool_calls is None
    &&& filled.max_children is None ==> fallback.max_children is None
    &&& filled.max_depth is None ==> fallback.max_depth is None
}

/// Filling in never drops a limit, of the request or of the parent, and never
/// changes one that the request sets; filling in a second time changes
/// nothing.
pub proof fn filling_in_keeps_every_limit(
    set: AgentBudget,
    fallback: &AgentBudget,
    filled: AgentBudget,
    again: AgentBudget,
)
    requires
        call_ensures(merge_budget_defaults, (set, fallback), filled),
        call_ensures(merge_budget_defaults, (filled, fallback), again),
    ensures
        fills_in(set, *fallback, filled),
        again == filled,
{
}

/// Each limit goes by the name of the field that holds it.
pub proof fn every_limit_has_its_own_name(field: BudgetField, name: &'static str)
    requires
        call_ensures(BudgetField::name, (field,), name),
    ensures
        field == BudgetField::MaxInputTokens <==> name@ == "max_input_tokens"@,
        field == BudgetField::MaxOutputTokens <==> name@ == "max_output_tokens"@,
        field == BudgetField::MaxTotalTokens <==> name@ == "max_total_tokens"@,
        field == BudgetField::MaxCostUsd <==> name@ == "max_cost_usd"@,
        field == BudgetField::MaxRequests <==> name@ == "max_requests"@,
        field == BudgetField::MaxToolCalls <==> name@ == "max_tool_calls"@,
        field == BudgetField::MaxChildren <==> name@ == "max_children"@,
        field == BudgetField::MaxDepth <==> name@ == "max_depth"@,
{
    reveal_strlit("max_input_tokens");
    reveal_strlit("max_output_tokens");
    reveal_strlit("max_total_tokens");
    reveal_strlit("max_cost_usd");
    reveal_strlit("max_requests");
    reveal_strlit("max_tool_calls");
    reveal_strlit("max_children");
    reveal_strlit("max_depth");
    assert("max_input_tokens"@.len() == 16);
    assert("max_output_tokens"@.len() == 17);
    assert("max_total_tokens"@.len() == 16);
    assert("max_cost_usd"@.len() == 12);
    assert("max_requests"@.len() == 12);
    assert("max_tool_calls"@.len() == 14);
    assert("max_children"@.len() == 12);
    assert("max_depth"@.len() == 9);
    assert("max_input_tokens"@[4] == 'i');
    assert("max_total_tokens"@[4] == 't');
    assert("max_cost_usd"@[5] == 'o');
    assert("max_requests"@[5] == 'e');
    assert("max_children"@[5] == 'h');
}

} // verus!
