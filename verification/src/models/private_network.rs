//! Private endpoints and private DNS zones.

use vstd::prelude::*;

use super::{step_costs_wf, 
    answers_wf, azure_query, component, component_spec, done_one, done_two, month_hours, one_dec, pricing_failure,
    pricing_failure_error, usage_metric, usage_view, usage_wf, usd, Step, StepView,
};
use crate::cost::ComponentView;
use crate::decimal::{checked_mul, decimal_product, Decimal};
use crate::money::{BillingPeriod, Money};
use crate::pricing::{PriceQuery, PricingError, QueryView, UnitPrice};
use crate::resource::{Cloud, ResourceKind};
use crate::text::owned;
use crate::usage::UsageEntry;

verus! {

/// The cost model of `azurerm_private_endpoint`.
pub struct PrivateEndpointModel;

/// The cost model of `azurerm_private_dns_zone`.
pub struct PrivateDnsZoneModel;

/// The query for a Private Link meter.
pub open spec fn private_link_query(meter: Seq<char>) -> QueryView {
    azure_query("Virtual Network"@, "Global"@, seq![("productName"@, "Virtual Network Private Link"@), ("meterName"@, meter)])
}

fn private_link_price_query(meter: &str) -> (q: PriceQuery)
    ensures
        q@ == private_link_query(meter@),
{
    let q = PriceQuery::azure("Virtual Network", "Global")
        .filter("productName", "Virtual Network Private Link")
        .filter("meterName", meter);
    assert(q@.filters =~= private_link_query(meter@).filters);
    q
}

/// The query for a private DNS meter.
pub open spec fn private_dns_query(meter: Seq<char>) -> QueryView {
    azure_query("Azure DNS"@, ""@, seq![("productName"@, "Azure DNS"@), ("skuName"@, "Private"@), ("meterName"@, meter)])
}

fn private_dns_price_query(meter: &str) -> (q: PriceQuery)
    ensures
        q@ == private_dns_query(meter@),
{
    let q = PriceQuery::azure("Azure DNS", "")
        .filter("productName", "Azure DNS")
        .filter("skuName", "Private")
        .filter("meterName", meter);
    assert(q@.filters =~= private_dns_query(meter@).filters);
    q
}

/// A line for a usage quantity at the answer's price.
pub open spec fn usage_line(name: Seq<char>, unit: BillingPeriod, quantity: Decimal, quantity_unit: Seq<char>, p: UnitPrice) -> Option<ComponentView> {
    match decimal_product(p.price.amount, quantity) {
        Some(c) => Some(component_spec(name, unit, quantity, quantity_unit, p.price, usd(c))),
        None => None,
    }
}

/// An endpoint costs 730 hours at the hourly endpoint price, plus, when the
/// usage gives `inbound_data_gb`, that many GB at the ingress price.
pub open spec fn private_endpoint_step(
    u: Option<Seq<(Seq<char>, Decimal)>>,
    answers: Seq<Result<UnitPrice, PricingError>>,
) -> StepView {
    if answers.len() == 0 {
        StepView::Query(private_link_query("Standard Private Endpoint"@))
    } else {
        match answers[0] {
            Err(e) => StepView::Done(Err(pricing_failure("failed to get Private Endpoint price"@, e))),
            Ok(p) => match usage_line("Private Endpoint"@, BillingPeriod::Hour, month_hours(), "hours"@, p) {
                None => StepView::Overflow,
                Some(endpoint) => match usage_metric(u, "inbound_data_gb"@) {
                    None => StepView::Done(Ok(seq![endpoint])),
                    Some(gb) => if answers.len() == 1 {
                        StepView::Query(private_link_query("Standard Data Processed - Ingress"@))
                    } else {
                        match answers[1] {
                            Err(e) => StepView::Done(Err(pricing_failure("failed to get Private Endpoint data processing price"@, e))),
                            Ok(dp) => match usage_line("Inbound data processing"@, BillingPeriod::GBMonth, gb, "GB/month"@, dp) {
                                None => StepView::Overflow,
                                Some(data) => StepView::Done(Ok(seq![endpoint, data])),
                            },
                        }
                    },
                },
            },
        }
    }
}

/// A zone costs one month at the zone price, plus, when the usage gives
/// `dns_queries_millions`, that many millions of queries at the query price.
pub open spec fn private_dns_zone_step(
    u: Option<Seq<(Seq<char>, Decimal)>>,
    answers: Seq<Result<UnitPrice, PricingError>>,
) -> StepView {
    if answers.len() == 0 {
        StepView::Query(private_dns_query("Private Zone"@))
    } else {
        match answers[0] {
            Err(e) => StepView::Done(Err(pricing_failure("failed to get Private DNS Zone price"@, e))),
            Ok(p) => {
                let zone = component_spec("Hosted zone"@, BillingPeriod::Month, one_dec(), "months"@, p.price, p.price);
                match usage_metric(u, "dns_queries_millions"@) {
                    None => StepView::Done(Ok(seq![zone])),
                    Some(m) => if answers.len() == 1 {
                        StepView::Query(private_dns_query("Private Queries"@))
                    } else {
                        match answers[1] {
                            Err(e) => StepView::Done(Err(pricing_failure("failed to get Private DNS query price"@, e))),
                            Ok(qp) => match usage_line("DNS queries (per million)"@, BillingPeriod::Month, m, "millions"@, qp) {
                                None => StepView::Overflow,
                                Some(queries) => StepView::Done(Ok(seq![zone, queries])),
                            },
                        }
                    },
                }
            },
        }
    }
}

impl PrivateEndpointModel {
    /// The resource kind this model prices.
    pub fn kind(&self) -> (k: ResourceKind)
        ensures
            k.cloud == Cloud::Azure,
            k.tf_type.0@ == "azurerm_private_endpoint"@,
    {
        ResourceKind::new(Cloud::Azure, "azurerm_private_endpoint")
    }

    /// The next step of the estimate, given the answers so far.
    pub fn estimate_step(&self, usage: Option<&UsageEntry>, answers: &Vec<Result<UnitPrice, PricingError>>) -> (s: Step)
        requires
            answers_wf(answers@),
            usage_wf(usage),
        ensures
            s@ == private_endpoint_step(usage_view(usage), answers@),
            step_costs_wf(s@),
    {
        if answers.len() == 0 {
            return Step::Query(private_link_price_query("Standard Private Endpoint"));
        }
        let p = match &answers[0] {
            Err(e) => return Step::Done(Err(pricing_failure_error(owned("failed to get Private Endpoint price"), e))),
            Ok(p) => *p,
        };
        assert(p.price.wf());
        let hours = BillingPeriod::hours_per_month();
        let cost = match checked_mul(p.price.amount, hours) {
            None => return Step::Overflow,
            Some(c) => c,
        };
        let endpoint = component(owned("Private Endpoint"), BillingPeriod::Hour, hours, "hours", p.price, Money::usd(cost));
        let inbound = match usage {
            Some(u) => u.get_metric("inbound_data_gb"),
            None => None,
        };
        let gb = match inbound {
            None => return done_one(endpoint),
            Some(g) => g,
        };
        if answers.len() == 1 {
            return Step::Query(private_link_price_query("Standard Data Processed - Ingress"));
        }
        let dp = match &answers[1] {
            Err(e) => return Step::Done(Err(pricing_failure_error(owned("failed to get Private Endpoint data processing price"), e))),
            Ok(p) => *p,
        };
        assert(dp.price.wf());
        proof {
            if let Some(u) = usage {
                crate::usage::lemma_metric_value_wf(crate::usage::metrics_view(u.metrics@), "inbound_data_gb"@);
            }
        }
        let data_cost = match checked_mul(dp.price.amount, gb) {
            None => return Step::Overflow,
            Some(c) => c,
        };
        done_two(endpoint, component(owned("Inbound data processing"), BillingPeriod::GBMonth, gb, "GB/month", dp.price, Money::usd(data_cost)))
    }
}

impl PrivateDnsZoneModel {
    /// The resource kind this model prices.
    pub fn kind(&self) -> (k: ResourceKind)
        ensures
            k.cloud == Cloud::Azure,
            k.tf_type.0@ == "azurerm_private_dns_zone"@,
    {
        ResourceKind::new(Cloud::Azure, "azurerm_private_dns_zone")
    }

    /// The next step of the estimate, given the answers so far.
    pub fn estimate_step(&self, usage: Option<&UsageEntry>, answers: &Vec<Result<UnitPrice, PricingError>>) -> (s: Step)
        requires
            answers_wf(answers@),
            usage_wf(usage),
        ensures
            s@ == private_dns_zone_step(usage_view(usage), answers@),
            step_costs_wf(s@),
    {
        if answers.len() == 0 {
            return Step::Query(private_dns_price_query("Private Zone"));
        }
        let p = match &answers[0] {
            Err(e) => return Step::Done(Err(pricing_failure_error(owned("failed to get Private DNS Zone price"), e))),
            Ok(p) => *p,
        };
        let zone = component(owned("Hosted zone"), BillingPeriod::Month, Decimal::one(), "months", p.price, p.price);
        let queries = match usage {
            Some(u) => u.get_metric("dns_queries_millions"),
            None => None,
        };
        let m = match queries {
            None => return done_one(zone),
            Some(m) => m,
        };
        if answers.len() == 1 {
            return Step::Query(private_dns_price_query("Private Queries"));
        }
        let qp = match &answers[1] {
            Err(e) => return Step::Done(Err(pricing_failure_error(owned("failed to get Private DNS query price"), e))),
            Ok(p) => *p,
        };
        assert(qp.price.wf());
        proof {
            if let Some(u) = usage {
                crate::usage::lemma_metric_value_wf(crate::usage::metrics_view(u.metrics@), "dns_queries_millions"@);
            }
        }
        let cost = match checked_mul(qp.price.amount, m) {
            None => return Step::Overflow,
            Some(c) => c,
        };
        done_two(zone, component(owned("DNS queries (per million)"), BillingPeriod::Month, m, "millions", qp.price, Money::usd(cost)))
    }
}

} // verus!
