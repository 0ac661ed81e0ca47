//! Per-agent budgets and the rules by which a child's budget relates to its
//! parent's.

use vstd::arithmetic::power::pow;
use vstd::prelude::*;

verus! {

/// An amount of US dollars: `mantissa / 10^scale`.
#[derive(Clone, Copy, Debug, PartialEq, Eq, Structural)]
pub struct UsdAmount {
    pub mantissa: i128,
    pub scale: u32,
}

impl UsdAmount {
    /// Whether the amount fits a 96-bit decimal with at most 28 decimal
    /// places.
    pub open spec fn valid(self) -> bool {
        &&& -0xFFFF_FFFF_FFFF_FFFF_FFFF_FFFF <= self.mantissa <= 0xFFFF_FFFF_FFFF_FFFF_FFFF_FFFF
        &&& self.scale <= 28
    }

    /// Whether `self` is at most `other`.
    pub open spec fn at_most(self, other: UsdAmount) -> bool {
        self.mantissa * pow(10, other.scale as nat) <= other.mantissa * pow(10, self.scale as nat)
    }
}

/// Compares two amounts with `<=` of `rust_decimal::Decimal`, made by
/// `Decimal::from_i128_with_scale`, which panics outside the stated range.
/// `Decimal` compares by numeric value.
#[verifier::external_body]
fn decimal_at_most(a: UsdAmount, b: UsdAmount) -> (r: bool)
    requires
        a.valid(),
        b.valid(),
    ensures
        r == a.at_most(b),
{
    let left = rust_decimal::Decimal::from_i128_with_scale(a.mantissa, a.scale);
    let right = rust_decimal::Decimal::from_i128_with_scale(b.mantissa, b.scale);
    left <= right
}

/// The order of amounts is transitive.
pub proof fn at_most_is_transitive(a: UsdAmount, b: UsdAmount, c: UsdAmount)
    requires
        a.at_most(b),
        b.at_most(c),
    ensures
        a.at_most(c),
{
    let pa = pow(10, a.scale as nat);
    let pb = pow(10, b.scale as nat);
    let pc = pow(10, c.scale as nat);
    vstd::arithmetic::power::lemma_pow_positive(10, a.scale as nat);
    vstd::arithmetic::power::lemma_pow_positive(10, b.scale as nat);
    vstd::arithmetic::power::lemma_pow_positive(10, c.scale as nat);
    chain(a.mantissa as int, b.mantissa as int, c.mantissa as int, pa, pb, pc);
}

proof fn chain(a: int, b: int, c: int, pa: int, pb: int, pc: int)
    requires
        pa > 0,
        pb > 0,
        pc > 0,
        a * pb <= b * pa,
        b * pc <= c * pb,
    ensures
        a * pc <= c * pa,
{
    assert((a * pc) * pb == (a * pb) * pc) by (nonlinear_arith);
    assert((a * pb) * pc <= (b * pa) * pc) by (nonlinear_arith)
        requires
            a * pb <= b * pa,
            pc > 0,
    ;
    assert((b * pa) * pc == (b * pc) * pa) by (nonlinear_arith);
    assert((b * pc) * pa <= (c * pb) * pa) by (nonlinear_arith)
        requires
            b * pc <= c * pb,
            pa > 0,
    ;
    assert((c * pb) * pa == (c * pa) * pb) by (nonlinear_arith);
    assert(a * pc <= c * pa) by (nonlinear_arith)
        requires
            (a * pc) * pb <= (c * pa) * pb,
            pb > 0,
    ;
}

/// Limits on what an agent may consume; `None` means no limit.
#[derive(Clone, Copy, Debug, PartialEq, Eq, Structural)]
pub struct AgentBudget {
    pub max_input_tokens: Option<u64>,
    pub max_output_tokens: Option<u64>,
    pub max_total_tokens: Option<u64>,
    pub max_cost_usd: Option<UsdAmount>,
    pub max_requests: Option<u64>,
    pub max_tool_calls: Option<u64>,
    pub max_children: Option<u32>,
    pub max_depth: Option<u32>,
}

/// Whether a child limit is no looser than the parent's limit on the same
/// resource: where the parent has a limit the child has one too, and it is at
/// most the parent's.
pub open spec fn no_looser_u64(parent: Option<u64>, child: Option<u64>) -> bool {
    match (parent, child) {
        (Some(p), Some(c)) => c <= p,
        (Some(_), None) => false,
        (None, _) => true,
    }
}

/// [`no_looser_u64`] for 32-bit limits.
pub open spec fn no_looser_u32(parent: Option<u32>, child: Option<u32>) -> bool {
    match (parent, child) {
        (Some(p), Some(c)) => c <= p,
        (Some(_), None) => false,
        (None, _) => true,
    }
}

/// [`no_looser_u64`] for cost limits.
pub open spec fn no_looser_usd(parent: Option<UsdAmount>, child: Option<UsdAmount>) -> bool {
    match (parent, child) {
        (Some(p), Some(c)) => c.at_most(p),
        (Some(_), None) => false,
        (None, _) => true,
    }
}

/// The limits of a budget, in the order in which they are checked.
#[derive(Clone, Copy, Debug, PartialEq, Eq, Structural)]
pub enum BudgetField {
    MaxInputTokens,
    MaxOutputTokens,
    MaxTotalTokens,
    MaxCostUsd,
    MaxRequests,
    MaxToolCalls,
    MaxChildren,
    MaxDepth,
}

impl BudgetField {
    /// Position in the order in which the limits are checked.
    pub open spec fn rank(self) -> int {
        match self {
            BudgetField::MaxInputTokens => 0,
            BudgetField::MaxOutputTokens => 1,
            BudgetField::MaxTotalTokens => 2,
            BudgetField::MaxCostUsd => 3,
            BudgetField::MaxRequests => 4,
            BudgetField::MaxToolCalls => 5,
            BudgetField::MaxChildren => 6,
            BudgetField::MaxDepth => 7,
        }
    }

    /// Whether the child's limit is no looser than the parent's.
    pub open spec fn kept(self, parent: AgentBudget, child: AgentBudget) -> bool {
        match self {
            BudgetField::MaxInputTokens => no_looser_u64(
                parent.max_input_tokens,
                child.max_input_tokens,
            ),
            BudgetField::MaxOutputTokens => no_looser_u64(
                parent.max_output_tokens,
                child.max_output_tokens,
            ),
            BudgetField::MaxTotalTokens => no_looser_u64(
                parent.max_total_tokens,
                child.max_total_tokens,
            ),
            BudgetField::MaxCostUsd => no_looser_usd(parent.max_cost_usd, child.max_cost_usd),
            BudgetField::MaxRequests => no_looser_u64(parent.max_requests, child.max_requests),
            BudgetField::MaxToolCalls => no_looser_u64(
                parent.max_tool_calls,
                child.max_tool_calls,
            ),
            BudgetField::MaxChildren => no_looser_u32(parent.max_children, child.max_children),
            BudgetField::MaxDepth => no_looser_u32(parent.max_depth, child.max_depth),
        }
    }

    /// The field's name.
    pub open spec fn name_view(self) -> Seq<char> {
        match self {
            BudgetField::MaxInputTokens => "max_input_tokens"@,
            BudgetField::MaxOutputTokens => "max_output_tokens"@,
            BudgetField::MaxTotalTokens => "max_total_tokens"@,
            BudgetField::MaxCostUsd => "max_cost_usd"@,
            BudgetField::MaxRequests => "max_requests"@,
            BudgetField::MaxToolCalls => "max_tool_calls"@,
            BudgetField::MaxChildren => "max_children"@,
            BudgetField::MaxDepth => "max_depth"@,
        }
    }

    /// The field's name.
    pub fn name(self) -> (r: &'static str)
        ensures
            r@ == self.name_view(),
    {
        match self {
            BudgetField::MaxInputTokens => "max_input_tokens",
            BudgetField::MaxOutputTokens => "max_output_tokens",
            BudgetField::MaxTotalTokens => "max_total_tokens",
            BudgetField::MaxCostUsd => "max_cost_usd",
            BudgetField::MaxRequests => "max_requests",
            BudgetField::MaxToolCalls => "max_tool_calls",
            BudgetField::MaxChildren => "max_children",
            BudgetField::MaxDepth => "max_depth",
        }
    }
}

impl AgentBudget {
    /// Whether the cost limit, if any, is an amount that can be compared.
    pub open spec fn valid(self) -> bool {
        self.max_cost_usd matches Some(amount) ==> amount.valid()
    }

    /// Whether no limit of `self` is looser than `parent`'s.
    pub open spec fn within(self, parent: AgentBudget) -> bool {
        forall|field: BudgetField| #[trigger] field.kept(parent, self)
    }

    /// Whether `field` is the first limit of `self` that is looser than
    /// `parent`'s.
    pub open spec fn first_looser(self, parent: AgentBudget, field: BudgetField) -> bool {
        &&& !field.kept(parent, self)
        &&& forall|earlier: BudgetField|
            earlier.rank() < field.rank() ==> #[trigger] earlier.kept(parent, self)
    }
}

impl Default for AgentBudget {
    /// No limits.
    fn default() -> (r: Self)
        ensures
            r == unlimited(),
    {
        AgentBudget {
            max_input_tokens: None,
            max_output_tokens: None,
            max_total_tokens: None,
            max_cost_usd: None,
            max_requests: None,
            max_tool_calls: None,
            max_children: None,
            max_depth: None,
        }
    }
}

/// The budget without any limit.
pub open spec fn unlimited() -> AgentBudget {
    AgentBudget {
        max_input_tokens: None,
        max_output_tokens: None,
        max_total_tokens: None,
        max_cost_usd: None,
        max_requests: None,
        max_tool_calls: None,
        max_children: None,
        max_depth: None,
    }
}

fn keeps_u64(parent: Option<u64>, child: Option<u64>) -> (r: bool)
    ensures
        r == no_looser_u64(parent, child),
{
    match (parent, child) {
        (Some(p), Some(c)) => c <= p,
        (Some(_), None) => false,
        (None, _) => true,
    }
}

fn keeps_u32(parent: Option<u32>, child: Option<u32>) -> (r: bool)
    ensures
        r == no_looser_u32(parent, child),
{
    match (parent, child) {
        (Some(p), Some(c)) => c <= p,
        (Some(_), None) => false,
        (None, _) => true,
    }
}

fn keeps_usd(parent: Option<UsdAmount>, child: Option<UsdAmount>) -> (r: bool)
    requires
        parent matches Some(p) ==> p.valid(),
        child matches Some(c) ==> c.valid(),
    ensures
        r == no_looser_usd(parent, child),
{
    match (parent, child) {
        (Some(p), Some(c)) => decimal_at_most(c, p),
        (Some(_), None) => false,
        (None, _) => true,
    }
}

/// Checks that no limit of a child's budget is looser than its parent's;
/// otherwise names the first one that is.
pub fn check_child_budget(parent: &AgentBudget, child: &AgentBudget) -> (r: Result<
    (),
    BudgetField,
>)
    requires
        parent.valid(),
        child.valid(),
    ensures
        match r {
            Ok(_) => child.within(*parent),
            Err(field) => child.first_looser(*parent, field),
        },
{
    if !keeps_u64(parent.max_input_tokens, child.max_input_tokens) {
        return Err(BudgetField::MaxInputTokens);
    }
    if !keeps_u64(parent.max_output_tokens, child.max_output_tokens) {
        return Err(BudgetField::MaxOutputTokens);
    }
    if !keeps_u64(parent.max_total_tokens, child.max_total_tokens) {
        return Err(BudgetField::MaxTotalTokens);
    }
    if !keeps_usd(parent.max_cost_usd, child.max_cost_usd) {
        return Err(BudgetField::MaxCostUsd);
    }
    if !keeps_u64(parent.max_requests, child.max_requests) {
        return Err(BudgetField::MaxRequests);
    }
    if !keeps_u64(parent.max_tool_calls, child.max_tool_calls) {
        return Err(BudgetField::MaxToolCalls);
    }
    if !keeps_u32(parent.max_children, child.max_children) {
        return Err(BudgetField::MaxChildren);
    }
    if !keeps_u32(parent.max_depth, child.max_depth) {
        return Err(BudgetField::MaxDepth);
    }
    Ok(())
}

/// Why a parent may not have another child.
#[derive(Clone, Copy, Debug, PartialEq, Eq, Structural)]
pub enum BudgetError {
    /// The parent already has as many children as its budget allows.
    TooManyChildren { current: usize, max: u32 },
    /// The parent sits at the greatest depth that its budget allows.
    DepthExceeded { depth: u32, max: u32 },
}

impl AgentBudget {
    /// What the budget answers to a parent with `current` children at `depth`
    /// that asks for one more child.
    pub open spec fn another_child(self, current: nat, depth: u32) -> Option<BudgetError> {
        if self.max_children is Some && current >= self.max_children->0 {
            Some(BudgetError::TooManyChildren { current: current as usize, max: self.max_children->0 })
        } else if self.max_depth is Some && depth >= self.max_depth->0 {
            Some(BudgetError::DepthExceeded { depth, max: self.max_depth->0 })
        } else {
            None
        }
    }

    /// Checks that a parent with `current` children may have one more.
    pub fn check_children(&self, current: usize) -> (r: Result<(), BudgetError>)
        ensures
            r == match self.max_children {
                Some(max) if current >= max => Err(BudgetError::TooManyChildren { current, max }),
                _ => Ok(()),
            },
    {
        match self.max_children {
            Some(max) => {
                if current >= max as usize {
                    Err(BudgetError::TooManyChildren { current, max })
                } else {
                    Ok(())
                }
            },
            None => Ok(()),
        }
    }

    /// Checks that a parent at `depth` may have a child one level below.
    pub fn check_depth(&self, depth: u32) -> (r: Result<(), BudgetError>)
        ensures
            r == match self.max_depth {
                Some(max) if depth >= max => Err(BudgetError::DepthExceeded { depth, max }),
                _ => Ok(()),
            },
    {
        match self.max_depth {
            Some(max) => {
                if depth >= max {
                    Err(BudgetError::DepthExceeded { depth, max })
                } else {
                    Ok(())
                }
            },
            None => Ok(()),
        }
    }
}

/// Fills every limit that `requested` leaves open with the parent's own.
pub open spec fn merged(requested: AgentBudget, parent: AgentBudget) -> AgentBudget {
    AgentBudget {
        max_input_tokens: if requested.max_input_tokens is Some {
            requested.max_input_tokens
        } else {
            parent.max_input_tokens
        },
        max_output_tokens: if requested.max_output_tokens is Some {
            requested.max_output_tokens
        } else {
            parent.max_output_tokens
        },
        max_total_tokens: if requested.max_total_tokens is Some {
            requested.max_total_tokens
        } else {
            parent.max_total_tokens
        },
        max_cost_usd: if requested.max_cost_usd is Some {
            requested.max_cost_usd
        } else {
            parent.max_cost_usd
        },
        max_requests: if requested.max_requests is Some {
            requested.max_requests
        } else {
            parent.max_requests
        },
        max_tool_calls: if requested.max_tool_calls is Some {
            requested.max_tool_calls
        } else {
            parent.max_tool_calls
        },
        max_children: if requested.max_children is Some {
            requested.max_children
        } else {
            parent.max_children
        },
        max_depth: if requested.max_depth is Some {
            requested.max_depth
        } else {
            parent.max_depth
        },
    }
}

fn or_u64(requested: Option<u64>, fallback: Option<u64>) -> (r: Option<u64>)
    ensures
        r == if requested is Some {
            requested
        } else {
            fallback
        },
{
    match requested {
        Some(limit) => Some(limit),
        None => fallback,
    }
}

fn or_u32(requested: Option<u32>, fallback: Option<u32>) -> (r: Option<u32>)
    ensures
        r == if requested is Some {
            requested
        } else {
            fallback
        },
{
    match requested {
        Some(limit) => Some(limit),
        None => fallback,
    }
}

/// Fills every limit that `requested` leaves open with the parent's own.
pub fn merge_budget_defaults(requested: AgentBudget, parent: &AgentBudget) -> (r: AgentBudget)
    ensures
        r == merged(requested, *parent),
{
    AgentBudget {
        max_input_tokens: or_u64(requested.max_input_tokens, parent.max_input_tokens),
        max_output_tokens: or_u64(requested.max_output_tokens, parent.max_output_tokens),
        max_total_tokens: or_u64(requested.max_total_tokens, parent.max_total_tokens),
        max_cost_usd: match requested.max_cost_usd {
            Some(limit) => Some(limit),
            None => parent.max_cost_usd,
        },
        max_requests: or_u64(requested.max_requests, parent.max_requests),
        max_tool_calls: or_u64(requested.max_tool_calls, parent.max_tool_calls),
        max_children: or_u32(requested.max_children, parent.max_children),
        max_depth: or_u32(requested.max_depth, parent.max_depth),
    }
}

/// A budget is within itself, so inheriting the parent's limits is always
/// accepted; and so is a request without any override.
pub proof fn inheriting_the_parent_budget_is_accepted(parent: AgentBudget)
    ensures
        parent.within(parent),
        merged(unlimited(), parent) == parent,
        merged(unlimited(), parent).within(parent),
{
    assert(merged(unlimited(), parent) == parent);
    assert forall|field: BudgetField| #[trigger] field.kept(parent, parent) by {}
}

/// A merged request escalates only through a limit that it sets itself: every
/// limit it leaves open is accepted.
pub proof fn only_explicit_overrides_can_escalate(
    requested: AgentBudget,
    parent: AgentBudget,
    field: BudgetField,
)
    requires
        field.kept(requested, unlimited()),
    ensures
        field.kept(parent, merged(requested, parent)),
{
}

/// Limits only tighten down the tree: a budget accepted under a budget that
/// was itself accepted is within the topmost one.
pub proof fn budgets_tighten_down_the_tree(
    root: AgentBudget,
    child: AgentBudget,
    grandchild: AgentBudget,
)
    requires
        child.within(root),
        grandchild.within(child),
    ensures
        grandchild.within(root),
{
    assert forall|field: BudgetField| #[trigger] field.kept(root, grandchild) by {
        assert(field.kept(root, child));
        assert(field.kept(child, grandchild));
        if field == BudgetField::MaxCostUsd && root.max_cost_usd is Some {
            at_most_is_transitive(
                grandchild.max_cost_usd->0,
                child.max_cost_usd->0,
                root.max_cost_usd->0,
            );
        }
    }
}

/// A budget that is not within the parent's has a first looser limit.
pub proof fn a_looser_budget_has_a_first_looser_limit(parent: AgentBudget, child: AgentBudget)
    requires
        !child.within(parent),
    ensures
        exists|field: BudgetField| child.first_looser(parent, field),
{
    let f = choose|f: BudgetField| !(#[trigger] f.kept(parent, child));
    if !BudgetField::MaxInputTokens.kept(parent, child) {
        assert(child.first_looser(parent, BudgetField::MaxInputTokens));
    } else if !BudgetField::MaxOutputTokens.kept(parent, child) {
        assert(child.first_looser(parent, BudgetField::MaxOutputTokens));
    } else if !BudgetField::MaxTotalTokens.kept(parent, child) {
        assert(child.first_looser(parent, BudgetField::MaxTotalTokens));
    } else if !BudgetField::MaxCostUsd.kept(parent, child) {
        assert(child.first_looser(parent, BudgetField::MaxCostUsd));
    } else if !BudgetField::MaxRequests.kept(parent, child) {
        assert(child.first_looser(parent, BudgetField::MaxRequests));
    } else if !BudgetField::MaxToolCalls.kept(parent, child) {
        assert(child.first_looser(parent, BudgetField::MaxToolCalls));
    } else if !BudgetField::MaxChildren.kept(parent, child) {
        assert(child.first_looser(parent, BudgetField::MaxChildren));
    } else {
        assert(f == BudgetField::MaxDepth);
        assert(child.first_looser(parent, BudgetField::MaxDepth));
    }
}

/// At most one limit is the first looser one, and there is one exactly when
/// the budget is not within the parent's.
pub proof fn the_first_looser_limit_is_unique(
    parent: AgentBudget,
    child: AgentBudget,
    a: BudgetField,
    b: BudgetField,
)
    requires
        child.first_looser(parent, a),
        child.first_looser(parent, b),
    ensures
        a == b,
        !child.within(parent),
{
    assert(!a.kept(parent, child));
    assert(!b.kept(parent, child));
    if a.rank() < b.rank() {
        assert(a.kept(parent, child));
    } else if b.rank() < a.rank() {
        assert(b.kept(parent, child));
    }
}

} // verus!
