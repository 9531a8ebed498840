//! Local billing data and the model that holds it.
//!
//! Rift runs offline with no billing backend: the model starts and stays
//! without pricing information, and the billing and upgrade screens read it
//! through the queries below.

use vstd::prelude::*;

verus! {

/// A purchasable add-on credits denomination and its price.
#[derive(Debug, Clone, PartialEq, Eq)]
pub struct AddonCreditsOption {
    pub credits: i32,
    pub price_usd_cents: i32,
}

/// The per-request overage price.
#[derive(Debug, Clone)]
pub struct OveragesPricing {
    pub price_per_request_usd_cents: i32,
}

/// The set of subscription plans.
#[derive(Debug, Clone, PartialEq, Eq)]
pub enum StripeSubscriptionPlan {
    Business,
    Lightspeed,
    Pro,
    Team,
    Turbo,
    Build,
    BuildBusiness,
    BuildMax,
    Other(String),
}

/// Pricing for a single subscription plan.
#[derive(Debug, Clone)]
pub struct PlanPricing {
    pub plan: StripeSubscriptionPlan,
    pub monthly_plan_price_per_month_usd_cents: i32,
    pub yearly_plan_price_per_month_usd_cents: i32,
    pub request_limit: Option<i32>,
    pub codebase_limit: i32,
    pub codebase_context_file_limit: i32,
    pub max_team_size: Option<i32>,
}

/// Top-level pricing information.
#[derive(Debug, Clone)]
pub struct PricingInfo {
    pub plans: Vec<PlanPricing>,
    pub overages: OveragesPricing,
    pub addon_credits_options: Vec<AddonCreditsOption>,
}

/// The position of a plan's variant in the list of variants.
pub open spec fn plan_tag(p: StripeSubscriptionPlan) -> int {
    match p {
        StripeSubscriptionPlan::Business => 0,
        StripeSubscriptionPlan::Lightspeed => 1,
        StripeSubscriptionPlan::Pro => 2,
        StripeSubscriptionPlan::Team => 3,
        StripeSubscriptionPlan::Turbo => 4,
        StripeSubscriptionPlan::Build => 5,
        StripeSubscriptionPlan::BuildBusiness => 6,
        StripeSubscriptionPlan::BuildMax => 7,
        StripeSubscriptionPlan::Other(_) => 8,
    }
}

/// Two plans are the same plan: the same variant, and for `Other` the same
/// name.
pub open spec fn same_plan(a: StripeSubscriptionPlan, b: StripeSubscriptionPlan) -> bool {
    match a {
        StripeSubscriptionPlan::Other(x) => b matches StripeSubscriptionPlan::Other(y) && x@ == y@,
        _ => a == b,
    }
}

fn plan_tag_of(p: &StripeSubscriptionPlan) -> (r: u8)
    ensures
        r == plan_tag(*p),
{
    match p {
        StripeSubscriptionPlan::Business => 0,
        StripeSubscriptionPlan::Lightspeed => 1,
        StripeSubscriptionPlan::Pro => 2,
        StripeSubscriptionPlan::Team => 3,
        StripeSubscriptionPlan::Turbo => 4,
        StripeSubscriptionPlan::Build => 5,
        StripeSubscriptionPlan::BuildBusiness => 6,
        StripeSubscriptionPlan::BuildMax => 7,
        StripeSubscriptionPlan::Other(_) => 8,
    }
}

fn plans_equal(a: &StripeSubscriptionPlan, b: &StripeSubscriptionPlan) -> (r: bool)
    ensures
        r == same_plan(*a, *b),
{
    match a {
        StripeSubscriptionPlan::Other(x) => match b {
            StripeSubscriptionPlan::Other(y) => *x == *y,
            _ => false,
        },
        _ => plan_tag_of(a) == plan_tag_of(b),
    }
}

/// The position of the first plan in `plans` that is `plan`, if any.
pub open spec fn first_plan_index(plans: Seq<PlanPricing>, plan: StripeSubscriptionPlan) -> Option<
    int,
>
    decreases plans.len(),
{
    if plans.len() == 0 {
        None
    } else {
        match first_plan_index(plans.drop_last(), plan) {
            Some(i) => Some(i),
            None => if same_plan(plans.last().plan, plan) {
                Some(plans.len() - 1)
            } else {
                None
            },
        }
    }
}

/// The global model holding the latest-known pricing information.
#[derive(Debug)]
pub struct PricingInfoModel {
    pricing_info: Option<PricingInfo>,
}

impl PricingInfoModel {
    /// The pricing information held.
    pub closed spec fn spec_pricing_info(&self) -> Option<PricingInfo> {
        self.pricing_info
    }

    /// A model without pricing information.
    pub fn new() -> (r: Self)
        ensures
            r.spec_pricing_info() is None,
    {
        PricingInfoModel { pricing_info: None }
    }

    /// The current overage pricing, if pricing is known.
    pub fn overage_pricing(&self) -> (r: Option<&OveragesPricing>)
        ensures
            r == (match self.spec_pricing_info() {
                Some(info) => Some(&info.overages),
                None => None::<&OveragesPricing>,
            }),
    {
        match &self.pricing_info {
            Some(info) => Some(&info.overages),
            None => None,
        }
    }

    /// The pricing of `plan`: the first listed entry for that plan.
    pub fn plan_pricing(&self, plan: &StripeSubscriptionPlan) -> (r: Option<&PlanPricing>)
        ensures
            r == (match self.spec_pricing_info() {
                Some(info) => match first_plan_index(info.plans@, *plan) {
                    Some(i) => Some(&info.plans@[i]),
                    None => None::<&PlanPricing>,
                },
                None => None::<&PlanPricing>,
            }),
            r matches Some(p) ==> same_plan(p.plan, *plan),
    {
        proof {
            if let Some(info) = self.spec_pricing_info() {
                lemma_first_plan_index_matches(info.plans@, *plan);
            }
        }
        let info = match &self.pricing_info {
            Some(info) => info,
            None => return None,
        };
        let n = info.plans.len();
        let mut i: usize = 0;
        while i < n
            invariant
                0 <= i <= n,
                n == info.plans@.len(),
                self.spec_pricing_info() == Some(*info),
                first_plan_index(info.plans@.take(i as int), *plan) is None,
            decreases n - i,
        {
            proof {
                assert(info.plans@.take(i + 1).drop_last() =~= info.plans@.take(i as int));
            }
            if plans_equal(&info.plans[i].plan, plan) {
                proof {
                    assert(info.plans@.take(i + 1).last() == info.plans@[i as int]);
                    assert(first_plan_index(info.plans@.take(i + 1), *plan) == Some(i as int));
                    lemma_first_plan_index_prefix(info.plans@, *plan, i + 1);
                }
                return Some(&info.plans[i]);
            }
            i = i + 1;
        }
        proof {
            assert(info.plans@.take(n as int) =~= info.plans@);
        }
        None
    }

    /// The add-on credit denominations on offer, if pricing is known.
    pub fn addon_credits_options(&self) -> (r: Option<&[AddonCreditsOption]>)
        ensures
            match self.spec_pricing_info() {
                Some(info) => r matches Some(s) && s@ == info.addon_credits_options@,
                None => r is None,
            },
    {
        match &self.pricing_info {
            Some(info) => Some(info.addon_credits_options.as_slice()),
            None => None,
        }
    }
}

proof fn lemma_first_plan_index_matches(plans: Seq<PlanPricing>, plan: StripeSubscriptionPlan)
    ensures
        first_plan_index(plans, plan) matches Some(i) ==> 0 <= i < plans.len() && same_plan(
            plans[i].plan,
            plan,
        ),
    decreases plans.len(),
{
    if plans.len() > 0 {
        lemma_first_plan_index_matches(plans.drop_last(), plan);
    }
}

/// Once the first match lies within a prefix, the whole list has it there.
proof fn lemma_first_plan_index_prefix(plans: Seq<PlanPricing>, plan: StripeSubscriptionPlan, k: int)
    requires
        0 <= k <= plans.len(),
        first_plan_index(plans.take(k), plan) is Some,
    ensures
        first_plan_index(plans, plan) == first_plan_index(plans.take(k), plan),
    decreases plans.len() - k,
{
    if k < plans.len() {
        assert(plans.take(k + 1).drop_last() =~= plans.take(k));
        lemma_first_plan_index_prefix(plans, plan, k + 1);
    } else {
        assert(plans.take(k) =~= plans);
    }
}

impl Default for PricingInfoModel {
    fn default() -> (r: Self)
        ensures
            r.spec_pricing_info() is None,
    {
        Self::new()
    }
}

} // verus!
