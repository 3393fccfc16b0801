//! Network Watcher flow logs.

use vstd::prelude::*;

use super::{step_costs_wf, 
    answers_wf, azure_query, component_in_unit, component_spec, done_one, done_two, pricing_failure,
    pricing_failure_error, usage_metric, usage_view, usage_wf, usd, zero_dec, zero_usd, Step, StepView,
};
use crate::decimal::{checked_mul, decimal_product, Decimal};
use crate::money::{period_label, BillingPeriod, Money};
use crate::pricing::{PriceQuery, PricingError, QueryView, UnitPrice};
use crate::resource::{Cloud, ResourceKind};
use crate::state::{attr_get, lookup, string_of_view, ResourceView, TfResource, TfValue, ValueView};
use crate::text::owned;
use crate::usage::UsageEntry;

verus! {

/// The cost model of `azurerm_network_watcher_flow_log`.
pub struct NetworkWatcherFlowLogModel;

/// Whether a flow log has a `traffic_analytics` block whose `enabled` is `true`.
pub open spec fn traffic_analytics_enabled(r: ResourceView) -> bool {
    match lookup(r.attributes, "traffic_analytics"@) {
        Some(ValueView::Object(m)) => lookup(m, "enabled"@) == Some(ValueView::Bool(true)),
        _ => false,
    }
}

/// Whether the flow log has Traffic Analytics enabled.
pub fn is_traffic_analytics_enabled(resource: &TfResource) -> (b: bool)
    ensures
        b == traffic_analytics_enabled(resource@),
{
    let v = resource.get("traffic_analytics");
    proof {
        if let Some(x) = v {
            crate::state::lemma_value_view(*x);
        }
    }
    match v {
        Some(TfValue::Object(m)) => {
            let e = attr_get(m, "enabled");
            proof {
                if let Some(x) = e {
                    crate::state::lemma_value_view(*x);
                }
            }
            match e {
                Some(x) => match x.as_bool() {
                    Some(b) => b,
                    None => false,
                },
                None => false,
            }
        },
        _ => false,
    }
}

/// The query for a Network Watcher meter in a region.
pub open spec fn network_watcher_query(region: Seq<char>, meter: Seq<char>) -> QueryView {
    azure_query(
        "Network Watcher"@,
        region,
        seq![("productName"@, "Network Watcher"@), ("skuName"@, "Standard"@), ("meterName"@, meter)],
    )
}

fn network_watcher_price_query(region: &str, meter: &str) -> (q: PriceQuery)
    ensures
        q@ == network_watcher_query(region@, meter@),
{
    let q = PriceQuery::azure("Network Watcher", region)
        .filter("productName", "Network Watcher")
        .filter("skuName", "Standard")
        .filter("meterName", meter);
    assert(q@.filters =~= network_watcher_query(region@, meter@).filters);
    q
}

/// A line priced per GB of the usage's `flow_log_gb`.
pub open spec fn per_gb_line(name: Seq<char>, gb: Decimal, p: UnitPrice) -> Option<crate::cost::ComponentView> {
    match decimal_product(p.price.amount, gb) {
        Some(c) => Some(component_spec(name, BillingPeriod::GBMonth, gb, period_label(BillingPeriod::GBMonth), p.price, usd(c))),
        None => None,
    }
}

/// A usage-based line without a price.
pub open spec fn unpriced_line(name: Seq<char>) -> crate::cost::ComponentView {
    component_spec(name, BillingPeriod::GBMonth, zero_dec(), period_label(BillingPeriod::GBMonth), zero_usd(), zero_usd())
}

/// Without a `flow_log_gb` usage figure a flow log is reported as usage-based
/// lines without a price; with it, the collected GB cost the collection price,
/// and, when Traffic Analytics is enabled, the processing price too (in the
/// flow log's location, by default `eastus`).
pub open spec fn network_watcher_step(
    r: ResourceView,
    u: Option<Seq<(Seq<char>, Decimal)>>,
    answers: Seq<Result<UnitPrice, PricingError>>,
) -> StepView {
    let region = match string_of_view(lookup(r.attributes, "location"@)) {
        Some(g) => g,
        None => "eastus"@,
    };
    let ta = traffic_analytics_enabled(r);
    match usage_metric(u, "flow_log_gb"@) {
        None => if ta {
            StepView::Done(Ok(seq![
                unpriced_line("Flow log collection (usage-based)"@),
                unpriced_line("Traffic Analytics (usage-based)"@),
            ]))
        } else {
            StepView::Done(Ok(seq![unpriced_line("Flow log collection (usage-based)"@)]))
        },
        Some(gb) => if answers.len() == 0 {
            StepView::Query(network_watcher_query(region, "Standard Network Logs Collected"@))
        } else {
            match answers[0] {
                Err(e) => StepView::Done(Err(pricing_failure("failed to get flow log collection price"@, e))),
                Ok(cp) => match per_gb_line("Flow log collection"@, gb, cp) {
                    None => StepView::Overflow,
                    Some(coll) => if !ta {
                        StepView::Done(Ok(seq![coll]))
                    } else if answers.len() == 1 {
                        StepView::Query(network_watcher_query(region, "Standard Traffic Analytics Processing"@))
                    } else {
                        match answers[1] {
                            Err(e) => StepView::Done(Err(pricing_failure("failed to get Traffic Analytics price"@, e))),
                            Ok(tp) => match per_gb_line("Traffic Analytics"@, gb, tp) {
                                None => StepView::Overflow,
                                Some(line) => StepView::Done(Ok(seq![coll, line])),
                            },
                        }
                    },
                },
            }
        },
    }
}

impl NetworkWatcherFlowLogModel {
    /// The resource kind this model prices.
    pub fn kind(&self) -> (k: ResourceKind)
        ensures
            k.cloud == Cloud::Azure,
            k.tf_type.0@ == "azurerm_network_watcher_flow_log"@,
    {
        ResourceKind::new(Cloud::Azure, "azurerm_network_watcher_flow_log")
    }

    /// The next step of the estimate, given the answers so far.
    pub fn estimate_step(
        &self,
        resource: &TfResource,
        usage: Option<&UsageEntry>,
        answers: &Vec<Result<UnitPrice, PricingError>>,
    ) -> (s: Step)
        requires
            answers_wf(answers@),
            usage_wf(usage),
        ensures
            s@ == network_watcher_step(resource@, usage_view(usage), answers@),
            step_costs_wf(s@),
    {
        let region = match resource.get_string("location") {
            Some(g) => g,
            None => "eastus",
        };
        let ta = is_traffic_analytics_enabled(resource);
        let flow_log_gb = match usage {
            Some(u) => u.get_metric("flow_log_gb"),
            None => None,
        };
        let gb = match flow_log_gb {
            Some(g) => g,
            None => {
                let coll = component_in_unit(
                    owned("Flow log collection (usage-based)"),
                    BillingPeriod::GBMonth,
                    Decimal::zero(),
                    Money::zero(),
                    Money::zero(),
                );
                if ta {
                    let line = component_in_unit(
                        owned("Traffic Analytics (usage-based)"),
                        BillingPeriod::GBMonth,
                        Decimal::zero(),
                        Money::zero(),
                        Money::zero(),
                    );
                    return done_two(coll, line);
                }
                return done_one(coll);
            },
        };
        if answers.len() == 0 {
            return Step::Query(network_watcher_price_query(region, "Standard Network Logs Collected"));
        }
        proof {
            if let Some(u) = usage {
                crate::usage::lemma_metric_value_wf(crate::usage::metrics_view(u.metrics@), "flow_log_gb"@);
            }
        }
        let cp = match &answers[0] {
            Err(e) => return Step::Done(Err(pricing_failure_error(owned("failed to get flow log collection price"), e))),
            Ok(p) => *p,
        };
        assert(cp.price.wf());
        let cc = match checked_mul(cp.price.amount, gb) {
            None => return Step::Overflow,
            Some(c) => c,
        };
        let coll = component_in_unit(owned("Flow log collection"), BillingPeriod::GBMonth, gb, cp.price, Money::usd(cc));
        if !ta {
            return done_one(coll);
        }
        if answers.len() == 1 {
            return Step::Query(network_watcher_price_query(region, "Standard Traffic Analytics Processing"));
        }
        let tp = match &answers[1] {
            Err(e) => return Step::Done(Err(pricing_failure_error(owned("failed to get Traffic Analytics price"), e))),
            Ok(p) => *p,
        };
        assert(tp.price.wf());
        let tc = match checked_mul(tp.price.amount, gb) {
            None => return Step::Overflow,
            Some(c) => c,
        };
        let line = component_in_unit(owned("Traffic Analytics"), BillingPeriod::GBMonth, gb, tp.price, Money::usd(tc));
        done_two(coll, line)
    }
}

} // verus!
