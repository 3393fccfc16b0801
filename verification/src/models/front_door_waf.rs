//! Azure Front Door web application firewall policies.

use vstd::prelude::*;

use super::{step_costs_wf, answers_wf, azure_query, component, component_spec, one_dec, pricing_failure, pricing_failure_error, usd, zero_dec, Step, StepView};
use crate::cost::{component_views, ComponentView, CostComponent};
use crate::decimal::{checked_mul, decimal_product, is_positive, Decimal};
use crate::money::{BillingPeriod, Money};
use crate::pricing::{PriceQuery, PricingError, QueryView, UnitPrice};
use crate::resource::{Cloud, ResourceKind};
use crate::state::{lookup, ResourceView, TfResource, TfValue, ValueView};
use crate::text::owned;

verus! {

/// The cost model of `azurerm_cdn_frontdoor_firewall_policy`.
pub struct FrontDoorWafModel;

/// How many `block_name` blocks a resource has: one for a single block, the
/// list's length (as a `u32`) for several, none otherwise.
pub open spec fn block_count(r: ResourceView, block_name: Seq<char>) -> Decimal {
    match lookup(r.attributes, block_name) {
        Some(ValueView::Object(_)) => one_dec(),
        Some(ValueView::List(items)) => Decimal { mantissa: (items.len() as u32) as i128, scale: 0, negative: false },
        _ => zero_dec(),
    }
}

/// The number of `block_name` blocks of a resource.
pub fn count_blocks(resource: &TfResource, block_name: &str) -> (d: Decimal)
    ensures
        d == block_count(resource@, block_name@),
        d.wf(),
{
    let v = resource.get(block_name);
    proof {
        if let Some(x) = v {
            crate::state::lemma_value_view(*x);
        }
    }
    match v {
        Some(TfValue::Object(_)) => Decimal::one(),
        Some(TfValue::List(items)) => {
            proof {
                crate::state::lemma_list_view(items@);
            }
            Decimal::from_u32(#[verifier::truncate] (items.len() as u32))
        },
        _ => Decimal::zero(),
    }
}

/// The query for a Front Door meter.
pub open spec fn waf_query(meter: Seq<char>) -> QueryView {
    azure_query("Azure Front Door Service"@, ""@, seq![("productName"@, "Azure Front Door Service"@), ("meterName"@, meter)])
}

fn waf_price_query(meter: &str) -> (q: PriceQuery)
    ensures
        q@ == waf_query(meter@),
{
    let q = PriceQuery::azure("Azure Front Door Service", "").filter("productName", "Azure Front Door Service").filter("meterName", meter);
    assert(q@.filters =~= waf_query(meter@).filters);
    q
}

/// A priced line for `count` blocks at the answer's price.
pub open spec fn block_line(name: Seq<char>, count: Decimal, unit_name: Seq<char>, p: UnitPrice) -> Option<ComponentView> {
    match decimal_product(p.price.amount, count) {
        Some(c) => Some(component_spec(name, BillingPeriod::Month, count, unit_name, p.price, usd(c))),
        None => None,
    }
}

/// A policy costs the monthly policy price, plus the per-rule price for its
/// custom rules and the per-rule-set price for its managed rule sets.
pub open spec fn front_door_waf_step(r: ResourceView, answers: Seq<Result<UnitPrice, PricingError>>) -> StepView {
    let custom = block_count(r, "custom_rule"@);
    let managed = block_count(r, "managed_rule"@);
    if answers.len() == 0 {
        StepView::Query(waf_query("Standard Policy"@))
    } else {
        match answers[0] {
            Err(e) => StepView::Done(Err(pricing_failure("failed to get WAF policy price"@, e))),
            Ok(pp) => {
                let policy = component_spec("WAF policy"@, BillingPeriod::Month, one_dec(), "months"@, pp.price, pp.price);
                // the custom rules, asked at position 1 when there are any
                let after_custom: Option<Result<(Seq<ComponentView>, int), StepView>> = if custom.num() <= 0 {
                    Some(Ok((seq![policy], 1int)))
                } else if answers.len() == 1 {
                    Some(Err(StepView::Query(waf_query("Standard Rule"@))))
                } else {
                    match answers[1] {
                        Err(e) => Some(Err(StepView::Done(Err(pricing_failure("failed to get WAF custom rule price"@, e))))),
                        Ok(rp) => match block_line("Custom rules"@, custom, "rules"@, rp) {
                            None => None,
                            Some(line) => Some(Ok((seq![policy, line], 2int))),
                        },
                    }
                };
                match after_custom {
                    None => StepView::Overflow,
                    Some(Err(s)) => s,
                    Some(Ok((lines, k))) => if managed.num() <= 0 {
                        StepView::Done(Ok(lines))
                    } else if answers.len() == k {
                        StepView::Query(waf_query("Standard Default Ruleset"@))
                    } else {
                        match answers[k] {
                            Err(e) => StepView::Done(Err(pricing_failure("failed to get WAF managed ruleset price"@, e))),
                            Ok(mp) => match block_line("Managed rule sets"@, managed, "rule sets"@, mp) {
                                None => StepView::Overflow,
                                Some(line) => StepView::Done(Ok(lines.push(line))),
                            },
                        }
                    },
                }
            },
        }
    }
}

impl FrontDoorWafModel {
    /// The resource kind this model prices.
    pub fn kind(&self) -> (k: ResourceKind)
        ensures
            k.cloud == Cloud::Azure,
            k.tf_type.0@ == "azurerm_cdn_frontdoor_firewall_policy"@,
    {
        ResourceKind::new(Cloud::Azure, "azurerm_cdn_frontdoor_firewall_policy")
    }

    /// The next step of the estimate, given the answers so far.
    pub fn estimate_step(&self, resource: &TfResource, answers: &Vec<Result<UnitPrice, PricingError>>) -> (s: Step)
        requires
            answers_wf(answers@),
        ensures
            s@ == front_door_waf_step(resource@, answers@),
            step_costs_wf(s@),
    {
        if answers.len() == 0 {
            return Step::Query(waf_price_query("Standard Policy"));
        }
        let pp = match &answers[0] {
            Err(e) => return Step::Done(Err(pricing_failure_error(owned("failed to get WAF policy price"), e))),
            Ok(p) => *p,
        };
        let mut components: Vec<CostComponent> = Vec::new();
        components.push(component(owned("WAF policy"), BillingPeriod::Month, Decimal::one(), "months", pp.price, pp.price));
        let ghost policy = component_spec("WAF policy"@, BillingPeriod::Month, one_dec(), "months"@, pp.price, pp.price);
        assert(component_views(components@) =~= seq![policy]);
        let ghost mut lines: Seq<ComponentView> = seq![policy];
        let mut k: usize = 1;
        let custom = count_blocks(resource, "custom_rule");
        if is_positive(&custom) {
            if answers.len() == 1 {
                return Step::Query(waf_price_query("Standard Rule"));
            }
            let rp = match &answers[1] {
                Err(e) => return Step::Done(Err(pricing_failure_error(owned("failed to get WAF custom rule price"), e))),
                Ok(p) => *p,
            };
            assert(rp.price.wf());
            let cost = match checked_mul(rp.price.amount, custom) {
                None => return Step::Overflow,
                Some(c) => c,
            };
            let ghost before = components@;
            components.push(component(owned("Custom rules"), BillingPeriod::Month, custom, "rules", rp.price, Money::usd(cost)));
            assert(component_views(components@) =~= component_views(before).push(components@[1]@));
            proof {
                lines = seq![policy, components@[1]@];
                assert(block_line("Custom rules"@, custom, "rules"@, rp) == Some(components@[1]@));
            }
            k = 2;
        }
        let managed = count_blocks(resource, "managed_rule");
        if is_positive(&managed) {
            if answers.len() == k {
                return Step::Query(waf_price_query("Standard Default Ruleset"));
            }
            let mp = match &answers[k] {
                Err(e) => return Step::Done(Err(pricing_failure_error(owned("failed to get WAF managed ruleset price"), e))),
                Ok(p) => *p,
            };
            assert(mp.price.wf());
            let cost = match checked_mul(mp.price.amount, managed) {
                None => return Step::Overflow,
                Some(c) => c,
            };
            let ghost before = components@;
            components.push(component(owned("Managed rule sets"), BillingPeriod::Month, managed, "rule sets", mp.price, Money::usd(cost)));
            assert(component_views(components@) =~= component_views(before).push(components@[components@.len() - 1]@));
            assert(block_line("Managed rule sets"@, managed, "rule sets"@, mp) == Some(components@[components@.len() - 1]@));
            assert(component_views(components@) =~= lines.push(components@[components@.len() - 1]@));
            return Step::Done(Ok(components));
        }
        assert(component_views(components@) =~= lines);
        Step::Done(Ok(components))
    }
}

} // verus!
