//! Azure Monitor alert rules.

use vstd::prelude::*;

use super::{step_costs_wf, answers_wf, azure_query, component, component_in_unit, component_spec, dec, done_one, one_dec, usd, Step, StepView};
use crate::decimal::Decimal;
use crate::money::{period_label, BillingPeriod, Money};
use crate::pricing::{PriceQuery, PricingError, QueryView, UnitPrice};
use crate::resource::{Cloud, ResourceKind};
use crate::state::{lookup, string_of_view, ResourceView, TfResource};
use crate::text::{concat3, str_eq};

verus! {

/// The cost model of `azurerm_monitor_scheduled_query_rules_alert_v2`.
pub struct MonitorQueryAlertModel;

/// The cost model of `azurerm_monitor_metric_alert`.
pub struct MonitorMetricAlertModel;

/// The meter of a log alert evaluated at a frequency; unknown frequencies
/// are priced as 5 minutes.
pub open spec fn frequency_meter(freq: Seq<char>) -> Seq<char> {
    if freq == "PT1M"@ {
        "Alerts System Log Monitored at 1 Minute Frequency"@
    } else if freq == "PT5M"@ {
        "Alerts System Log Monitored at 5 Minute Frequency"@
    } else if freq == "PT10M"@ {
        "Alerts System Log Monitored at 10 Minute Frequency"@
    } else if freq == "PT15M"@ || freq == "PT30M"@ {
        "Alerts System Log Monitored at 15 Minute Frequency"@
    } else {
        "Alerts System Log Monitored at 5 Minute Frequency"@
    }
}

/// The meter name of a log alert's evaluation frequency.
pub fn meter_name_for_frequency(freq: &str) -> (m: &'static str)
    ensures
        m@ == frequency_meter(freq@),
{
    if str_eq(freq, "PT1M") {
        "Alerts System Log Monitored at 1 Minute Frequency"
    } else if str_eq(freq, "PT5M") {
        "Alerts System Log Monitored at 5 Minute Frequency"
    } else if str_eq(freq, "PT10M") {
        "Alerts System Log Monitored at 10 Minute Frequency"
    } else if str_eq(freq, "PT15M") || str_eq(freq, "PT30M") {
        "Alerts System Log Monitored at 15 Minute Frequency"
    } else {
        "Alerts System Log Monitored at 5 Minute Frequency"
    }
}

/// The monthly price of a log alert used when the price lookup fails.
pub open spec fn frequency_fallback(freq: Seq<char>) -> Decimal {
    if freq == "PT1M"@ || freq == "PT5M"@ {
        dec(150, 2)
    } else if freq == "PT10M"@ {
        dec(100, 2)
    } else if freq == "PT15M"@ || freq == "PT30M"@ {
        dec(50, 2)
    } else {
        dec(150, 2)
    }
}

fn fallback_for_frequency(freq: &str) -> (d: Decimal)
    ensures
        d == frequency_fallback(freq@),
        d.wf(),
{
    if str_eq(freq, "PT1M") || str_eq(freq, "PT5M") {
        Decimal::new(150, 2)
    } else if str_eq(freq, "PT10M") {
        Decimal::new(100, 2)
    } else if str_eq(freq, "PT15M") || str_eq(freq, "PT30M") {
        Decimal::new(50, 2)
    } else {
        Decimal::new(150, 2)
    }
}

/// The price query of an alert meter.
pub open spec fn alert_query(meter: Seq<char>) -> QueryView {
    azure_query("Azure Monitor"@, ""@, seq![("productName"@, "Azure Monitor"@), ("skuName"@, "Alerts"@), ("meterName"@, meter)])
}

fn alert_price_query(meter: &str) -> (q: PriceQuery)
    ensures
        q@ == alert_query(meter@),
{
    let q = PriceQuery::azure("Azure Monitor", "")
        .filter("productName", "Azure Monitor")
        .filter("skuName", "Alerts")
        .filter("meterName", meter);
    assert(q@.filters =~= alert_query(meter@).filters);
    q
}

/// A log alert costs one month at the price of its evaluation frequency's
/// meter (every 5 minutes by default), or at the fallback price of that
/// frequency when the lookup fails.
pub open spec fn query_alert_step(r: ResourceView, answers: Seq<Result<UnitPrice, PricingError>>) -> StepView {
    let freq = match string_of_view(lookup(r.attributes, "evaluation_frequency"@)) {
        Some(f) => f,
        None => "PT5M"@,
    };
    let name = "Log alert rule ("@ + freq + ")"@;
    if answers.len() == 0 {
        StepView::Query(alert_query(frequency_meter(freq)))
    } else {
        let price = match answers[0] {
            Ok(p) => p.price,
            Err(_) => usd(frequency_fallback(freq)),
        };
        StepView::Done(Ok(seq![component_spec(name, BillingPeriod::Month, one_dec(), "months"@, price, price)]))
    }
}

/// The meter and the line name of a metric alert.
pub open spec fn metric_alert_kind(dynamic: bool) -> (Seq<char>, Seq<char>) {
    if dynamic {
        ("Alerts Dynamic Threshold"@, "Metric alert (dynamic threshold)"@)
    } else {
        ("Alerts Metric Monitored"@, "Metric alert (static threshold)"@)
    }
}

/// A metric alert costs one month at the price of its meter (dynamic when it
/// has `dynamic_criteria`), or at 1.00 USD (dynamic) or 0.10 USD (static)
/// when the lookup fails.
pub open spec fn metric_alert_step(r: ResourceView, answers: Seq<Result<UnitPrice, PricingError>>) -> StepView {
    let dynamic = lookup(r.attributes, "dynamic_criteria"@) is Some;
    let (meter, label) = metric_alert_kind(dynamic);
    if answers.len() == 0 {
        StepView::Query(alert_query(meter))
    } else {
        let price = match answers[0] {
            Ok(p) => p.price,
            Err(_) => usd(if dynamic { one_dec() } else { dec(10, 2) }),
        };
        StepView::Done(Ok(seq![component_spec(label, BillingPeriod::Month, one_dec(), period_label(BillingPeriod::Month), price, price)]))
    }
}

impl MonitorQueryAlertModel {
    /// The resource kind this model prices.
    pub fn kind(&self) -> (k: ResourceKind)
        ensures
            k.cloud == Cloud::Azure,
            k.tf_type.0@ == "azurerm_monitor_scheduled_query_rules_alert_v2"@,
    {
        ResourceKind::new(Cloud::Azure, "azurerm_monitor_scheduled_query_rules_alert_v2")
    }

    /// The next step of the estimate, given the answers so far.
    pub fn estimate_step(&self, resource: &TfResource, answers: &Vec<Result<UnitPrice, PricingError>>) -> (s: Step)
        requires
            answers_wf(answers@),
        ensures
            s@ == query_alert_step(resource@, answers@),
            step_costs_wf(s@),
    {
        let freq = match resource.get_string("evaluation_frequency") {
            Some(f) => f,
            None => "PT5M",
        };
        if answers.len() == 0 {
            return Step::Query(alert_price_query(meter_name_for_frequency(freq)));
        }
        let price = match &answers[0] {
            Ok(p) => p.price,
            Err(_) => Money::usd(fallback_for_frequency(freq)),
        };
        done_one(component(concat3("Log alert rule (", freq, ")"), BillingPeriod::Month, Decimal::one(), "months", price, price))
    }
}

impl MonitorMetricAlertModel {
    /// The resource kind this model prices.
    pub fn kind(&self) -> (k: ResourceKind)
        ensures
            k.cloud == Cloud::Azure,
            k.tf_type.0@ == "azurerm_monitor_metric_alert"@,
    {
        ResourceKind::new(Cloud::Azure, "azurerm_monitor_metric_alert")
    }

    /// The next step of the estimate, given the answers so far.
    pub fn estimate_step(&self, resource: &TfResource, answers: &Vec<Result<UnitPrice, PricingError>>) -> (s: Step)
        requires
            answers_wf(answers@),
        ensures
            s@ == metric_alert_step(resource@, answers@),
            step_costs_wf(s@),
    {
        let dynamic = resource.get("dynamic_criteria").is_some();
        let (meter, label) = if dynamic {
            ("Alerts Dynamic Threshold", "Metric alert (dynamic threshold)")
        } else {
            ("Alerts Metric Monitored", "Metric alert (static threshold)")
        };
        if answers.len() == 0 {
            return Step::Query(alert_price_query(meter));
        }
        let price = match &answers[0] {
            Ok(p) => p.price,
            Err(_) => Money::usd(if dynamic { Decimal::one() } else { Decimal::new(10, 2) }),
        };
        done_one(component_in_unit(crate::text::owned(label), BillingPeriod::Month, Decimal::one(), price, price))
    }
}

} // verus!
