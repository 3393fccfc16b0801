//! Azure Managed Redis caches.

use vstd::prelude::*;

use super::{step_costs_wf, answers_wf, component, component_spec, done_one, invalid_field, missing_field, month_hours, pricing_failure, pricing_failure_error, usd, Step, StepView};
use crate::decimal::{checked_mul, decimal_product};
use crate::error::ErrorView;
use crate::money::{BillingPeriod, Money};
use crate::pricing::{PriceFilter, PriceQuery, PricingError, QueryView, UnitPrice};
use crate::resource::{address_text, Cloud, ResourceKind};
use crate::state::{lookup, string_of_view, ResourceView, TfResource};
use crate::text::{concat, concat3, owned, split_once, split_once_spec, str_eq};

verus! {

/// The cost model of `azurerm_managed_redis`.
pub struct ManagedRedisModel;

/// The product tier of a SKU tier prefix.
pub open spec fn redis_tier(prefix: Seq<char>) -> Option<Seq<char>> {
    if prefix == "Balanced"@ {
        Some("Balanced"@)
    } else if prefix == "Memory"@ {
        Some("Memory Optimized"@)
    } else if prefix == "Compute"@ {
        Some("Compute Optimized"@)
    } else if prefix == "Flash"@ {
        Some("Flash Optimized"@)
    } else {
        None
    }
}

/// The price query of a cache size of a tier in a region.
pub open spec fn redis_query(tier: Seq<char>, size: Seq<char>, region: Seq<char>) -> QueryView {
    QueryView {
        cloud: Cloud::Azure,
        service: "Redis Cache"@,
        region,
        filters: seq![
            ("productName"@, "Azure Managed Redis - "@ + tier),
            ("skuName"@, size),
            ("meterName"@, size + " Cache Instance"@),
        ],
    }
}

/// A cache's `sku_name` is `Tier_Size`; it costs 730 hours at the hourly price
/// of that size of that tier in its location (by default `swedencentral`).
pub open spec fn managed_redis_step(r: ResourceView, answers: Seq<Result<UnitPrice, PricingError>>) -> StepView {
    match string_of_view(lookup(r.attributes, "sku_name"@)) {
        None => StepView::Done(Err(ErrorView::MissingField { resource: address_text(r.address), field: "sku_name"@ })),
        Some(sku) => {
            let region = match string_of_view(lookup(r.attributes, "location"@)) {
                Some(g) => g,
                None => "swedencentral"@,
            };
            match split_once_spec(sku, '_') {
                None => StepView::Done(Err(ErrorView::InvalidField {
                    resource: address_text(r.address),
                    field: "sku_name"@,
                    reason: "expected format Tier_Size, got "@ + sku,
                })),
                Some((prefix, size)) => match redis_tier(prefix) {
                    None => StepView::Done(Err(ErrorView::InvalidField {
                        resource: address_text(r.address),
                        field: "sku_name"@,
                        reason: "unknown tier: "@ + prefix,
                    })),
                    Some(tier) => if answers.len() == 0 {
                        StepView::Query(redis_query(tier, size, region))
                    } else {
                        match answers[0] {
                            Err(e) => StepView::Done(Err(pricing_failure("failed to get price for managed redis "@ + sku, e))),
                            Ok(p) => match decimal_product(p.price.amount, month_hours()) {
                                None => StepView::Overflow,
                                Some(c) => StepView::Done(Ok(seq![component_spec(
                                    "Redis cache ("@ + sku + ")"@,
                                    BillingPeriod::Hour,
                                    month_hours(),
                                    "hours"@,
                                    p.price,
                                    usd(c),
                                )])),
                            },
                        }
                    },
                },
            }
        },
    }
}

impl ManagedRedisModel {
    /// The resource kind this model prices.
    pub fn kind(&self) -> (k: ResourceKind)
        ensures
            k.cloud == Cloud::Azure,
            k.tf_type.0@ == "azurerm_managed_redis"@,
    {
        ResourceKind::new(Cloud::Azure, "azurerm_managed_redis")
    }

    fn tier(prefix: &str) -> (r: Option<&'static str>)
        ensures
            r matches Some(t) ==> redis_tier(prefix@) == Some(t@),
            r is None ==> redis_tier(prefix@) is None,
    {
        if str_eq(prefix, "Balanced") {
            Some("Balanced")
        } else if str_eq(prefix, "Memory") {
            Some("Memory Optimized")
        } else if str_eq(prefix, "Compute") {
            Some("Compute Optimized")
        } else if str_eq(prefix, "Flash") {
            Some("Flash Optimized")
        } else {
            None
        }
    }

    /// The next step of the estimate, given the answers so far.
    pub fn estimate_step(&self, resource: &TfResource, answers: &Vec<Result<UnitPrice, PricingError>>) -> (s: Step)
        requires
            answers_wf(answers@),
        ensures
            s@ == managed_redis_step(resource@, answers@),
            step_costs_wf(s@),
    {
        let sku = match resource.get_string("sku_name") {
            Some(v) => v,
            None => return Step::Done(Err(missing_field(resource, "sku_name"))),
        };
        let region = match resource.get_string("location") {
            Some(g) => g,
            None => "swedencentral",
        };
        let (prefix, size) = match split_once(sku, '_') {
            Some(p) => p,
            None => {
                return Step::Done(Err(invalid_field(resource, "sku_name", concat("expected format Tier_Size, got ", sku))));
            },
        };
        let tier = match ManagedRedisModel::tier(prefix.as_str()) {
            Some(t) => t,
            None => return Step::Done(Err(invalid_field(resource, "sku_name", concat("unknown tier: ", prefix.as_str())))),
        };
        if answers.len() == 0 {
            let q = PriceQuery {
                cloud: Cloud::Azure,
                service: owned("Redis Cache"),
                region: owned(region),
                filters: vec![
                    PriceFilter { field: owned("productName"), value: concat("Azure Managed Redis - ", tier) },
                    PriceFilter { field: owned("skuName"), value: size.clone() },
                    PriceFilter { field: owned("meterName"), value: concat(size.as_str(), " Cache Instance") },
                ],
            };
            assert(q@.filters =~= redis_query(tier@, size@, region@).filters);
            return Step::Query(q);
        }
        match &answers[0] {
            Err(e) => Step::Done(Err(pricing_failure_error(concat("failed to get price for managed redis ", sku), e))),
            Ok(p) => {
                assert(answers@[0] matches Ok(q) ==> q.price.wf());
                let hours = BillingPeriod::hours_per_month();
                match checked_mul(p.price.amount, hours) {
                    None => Step::Overflow,
                    Some(c) => done_one(component(concat3("Redis cache (", sku, ")"), BillingPeriod::Hour, hours, "hours", p.price, Money::usd(c))),
                }
            },
        }
    }
}

} // verus!
