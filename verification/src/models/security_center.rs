//! Microsoft Defender for Cloud plans.

use vstd::prelude::*;

use super::{step_costs_wf, answers_wf, azure_query, component, component_spec, done_one, missing_field, one_dec, usage_metric, usage_view, usage_wf, usd, zero_usd, Step, StepView};
use crate::decimal::{checked_mul, decimal_product, Decimal};
use crate::error::ErrorView;
use crate::money::{BillingPeriod, Money};
use crate::pricing::{PriceQuery, PricingError, UnitPrice};
use crate::resource::{address_text, Cloud, ResourceKind};
use crate::state::{lookup, string_of_view, ResourceView, TfResource};
use crate::text::{concat, concat3, str_eq};
use crate::usage::UsageEntry;

verus! {

/// The cost model of `azurerm_security_center_subscription_pricing`.
pub struct SecurityCenterPricingModel;

/// The Defender plan of a resource type: its service, product and meter names.
pub open spec fn defender_plan(rt: Seq<char>) -> Option<(Seq<char>, Seq<char>, Seq<char>)> {
    let svc = "Microsoft Defender for Cloud"@;
    if rt == "VirtualMachines"@ {
        Some((svc, "Microsoft Defender for Servers"@, "Standard Node"@))
    } else if rt == "StorageAccounts"@ {
        Some((svc, "Microsoft Defender for Storage"@, "Standard Node"@))
    } else if rt == "AppServices"@ {
        Some((svc, "Microsoft Defender for App Service"@, "Standard Node"@))
    } else if rt == "SqlServers"@ {
        Some((svc, "Microsoft Defender for SQL"@, "Standard Node"@))
    } else if rt == "KeyVaults"@ {
        Some((svc, "Microsoft Defender for Key Vault"@, "Per node Std Node"@))
    } else if rt == "Arm"@ {
        Some((svc, "Microsoft Defender for Resource Manager"@, "Standard API Calls"@))
    } else if rt == "Dns"@ {
        Some((svc, "Microsoft Defender for DNS"@, "Standard Queries"@))
    } else if rt == "Containers"@ {
        Some((svc, "Microsoft Defender for Containers"@, "Standard vCore vCore Pack"@))
    } else if rt == "OpenSourceRelationalDatabases"@ {
        Some((svc, "Microsoft Defender for PostgreSQL"@, "Standard Node"@))
    } else {
        None
    }
}

/// A plan on the Free tier costs nothing; a plan of an unknown resource type
/// is reported without a price; otherwise the plan's price per resource times
/// the usage's `resource_count` (1 by default), or without a price when the
/// lookup fails.
pub open spec fn security_center_step(
    r: ResourceView,
    u: Option<Seq<(Seq<char>, Decimal)>>,
    answers: Seq<Result<UnitPrice, PricingError>>,
) -> StepView {
    let tier = match string_of_view(lookup(r.attributes, "tier"@)) {
        Some(t) => t,
        None => "Free"@,
    };
    if tier == "Free"@ {
        StepView::Done(Ok(Seq::empty()))
    } else {
        match string_of_view(lookup(r.attributes, "resource_type"@)) {
            None => StepView::Done(Err(ErrorView::MissingField { resource: address_text(r.address), field: "resource_type"@ })),
            Some(rt) => match defender_plan(rt) {
                None => StepView::Done(Ok(seq![component_spec(
                    "Defender for "@ + rt + " (price unavailable)"@,
                    BillingPeriod::Month,
                    one_dec(),
                    "months"@,
                    zero_usd(),
                    zero_usd(),
                )])),
                Some((svc, product, meter)) => {
                    let quantity = match usage_metric(u, "resource_count"@) {
                        Some(q) => q,
                        None => one_dec(),
                    };
                    if answers.len() == 0 {
                        StepView::Query(azure_query(svc, ""@, seq![("productName"@, product), ("meterName"@, meter)]))
                    } else {
                        match answers[0] {
                            Ok(p) => match decimal_product(p.price.amount, quantity) {
                                None => StepView::Overflow,
                                Some(c) => StepView::Done(Ok(seq![component_spec(
                                    "Defender for "@ + rt,
                                    BillingPeriod::Month,
                                    quantity,
                                    "months"@,
                                    p.price,
                                    usd(c),
                                )])),
                            },
                            Err(_) => StepView::Done(Ok(seq![component_spec(
                                "Defender for "@ + rt + " (price unavailable)"@,
                                BillingPeriod::Month,
                                quantity,
                                "months"@,
                                zero_usd(),
                                zero_usd(),
                            )])),
                        }
                    }
                },
            },
        }
    }
}

/// A priced Defender plan is billed per resource: with `n` resources in the
/// usage (`resource_count`) and a price answer `p`, its one component has
/// quantity `n` and costs `p` times `n` a month.
pub proof fn lemma_defender_billed_per_resource(
    r: ResourceView,
    u: Option<Seq<(Seq<char>, Decimal)>>,
    answers: Seq<Result<UnitPrice, PricingError>>,
    n: Decimal,
    p: UnitPrice,
    cost: Decimal,
)
    requires
        string_of_view(lookup(r.attributes, "tier"@)) matches Some(t) && t != "Free"@,
        string_of_view(lookup(r.attributes, "resource_type"@)) matches Some(rt) && defender_plan(rt) is Some,
        usage_metric(u, "resource_count"@) == Some(n),
        answers.len() > 0,
        answers[0] == Ok::<UnitPrice, PricingError>(p),
        decimal_product(p.price.amount, n) == Some(cost),
    ensures
        security_center_step(r, u, answers) matches StepView::Done(Ok(cs)) && cs.len() == 1 && cs[0].quantity == n
            && cs[0].unit_price == p.price && cs[0].monthly_cost == usd(cost),
{
}

/// Without a `resource_count` in the usage, a priced Defender plan is billed
/// for one resource.
pub proof fn lemma_defender_defaults_to_one_resource(
    r: ResourceView,
    u: Option<Seq<(Seq<char>, Decimal)>>,
    answers: Seq<Result<UnitPrice, PricingError>>,
    p: UnitPrice,
    cost: Decimal,
)
    requires
        string_of_view(lookup(r.attributes, "tier"@)) matches Some(t) && t != "Free"@,
        string_of_view(lookup(r.attributes, "resource_type"@)) matches Some(rt) && defender_plan(rt) is Some,
        usage_metric(u, "resource_count"@) is None,
        answers.len() > 0,
        answers[0] == Ok::<UnitPrice, PricingError>(p),
        decimal_product(p.price.amount, Decimal { mantissa: 1, scale: 0, negative: false }) == Some(cost),
    ensures
        security_center_step(r, u, answers) matches StepView::Done(Ok(cs)) && cs.len() == 1
            && cs[0].quantity == (Decimal { mantissa: 1, scale: 0, negative: false }) && cs[0].monthly_cost == usd(cost),
{
}

impl SecurityCenterPricingModel {
    /// The resource kind this model prices.
    pub fn kind(&self) -> (k: ResourceKind)
        ensures
            k.cloud == Cloud::Azure,
            k.tf_type.0@ == "azurerm_security_center_subscription_pricing"@,
    {
        ResourceKind::new(Cloud::Azure, "azurerm_security_center_subscription_pricing")
    }

    /// The Defender plan of a resource type.
    fn plan(rt: &str) -> (r: Option<(&'static str, &'static str, &'static str)>)
        ensures
            r matches Some(x) ==> defender_plan(rt@) == Some((x.0@, x.1@, x.2@)),
            r is None ==> defender_plan(rt@) is None,
    {
        let svc = "Microsoft Defender for Cloud";
        if str_eq(rt, "VirtualMachines") {
            Some((svc, "Microsoft Defender for Servers", "Standard Node"))
        } else if str_eq(rt, "StorageAccounts") {
            Some((svc, "Microsoft Defender for Storage", "Standard Node"))
        } else if str_eq(rt, "AppServices") {
            Some((svc, "Microsoft Defender for App Service", "Standard Node"))
        } else if str_eq(rt, "SqlServers") {
            Some((svc, "Microsoft Defender for SQL", "Standard Node"))
        } else if str_eq(rt, "KeyVaults") {
            Some((svc, "Microsoft Defender for Key Vault", "Per node Std Node"))
        } else if str_eq(rt, "Arm") {
            Some((svc, "Microsoft Defender for Resource Manager", "Standard API Calls"))
        } else if str_eq(rt, "Dns") {
            Some((svc, "Microsoft Defender for DNS", "Standard Queries"))
        } else if str_eq(rt, "Containers") {
            Some((svc, "Microsoft Defender for Containers", "Standard vCore vCore Pack"))
        } else if str_eq(rt, "OpenSourceRelationalDatabases") {
            Some((svc, "Microsoft Defender for PostgreSQL", "Standard Node"))
        } else {
            None
        }
    }

    /// The next step of the estimate, given the answers so far.
    pub fn estimate_step(
        &self,
        resource: &TfResource,
        usage: Option<&UsageEntry>,
        answers: &Vec<Result<UnitPrice, PricingError>>,
    ) -> (s: Step)
        requires
            answers_wf(answers@),
            usage_wf(usage),
        ensures
            s@ == security_center_step(resource@, usage_view(usage), answers@),
            step_costs_wf(s@),
    {
        let tier = match resource.get_string("tier") {
            Some(t) => t,
            None => "Free",
        };
        if str_eq(tier, "Free") {
            let v: Vec<crate::cost::CostComponent> = Vec::new();
            assert(crate::cost::component_views(v@) =~= Seq::empty());
            return Step::Done(Ok(v));
        }
        let rt = match resource.get_string("resource_type") {
            Some(t) => t,
            None => return Step::Done(Err(missing_field(resource, "resource_type"))),
        };
        let (svc, product, meter) = match SecurityCenterPricingModel::plan(rt) {
            Some(x) => x,
            None => {
                return done_one(component(
                    concat3("Defender for ", rt, " (price unavailable)"),
                    BillingPeriod::Month,
                    Decimal::one(),
                    "months",
                    Money::zero(),
                    Money::zero(),
                ));
            },
        };
        let quantity = match usage {
            Some(u) => match u.get_metric("resource_count") {
                Some(q) => q,
                None => Decimal::one(),
            },
            None => Decimal::one(),
        };
        if answers.len() == 0 {
            let q = PriceQuery::azure(svc, "").filter("productName", product).filter("meterName", meter);
            assert(q@.filters =~= seq![("productName"@, product@), ("meterName"@, meter@)]);
            return Step::Query(q);
        }
        proof {
            if let Some(u) = usage {
                crate::usage::lemma_metric_value_wf(crate::usage::metrics_view(u.metrics@), "resource_count"@);
            }
        }
        match &answers[0] {
            Ok(p) => {
                assert(answers@[0] matches Ok(q) ==> q.price.wf());
                match checked_mul(p.price.amount, quantity) {
                    None => Step::Overflow,
                    Some(c) => done_one(component(
                        concat("Defender for ", rt),
                        BillingPeriod::Month,
                        quantity,
                        "months",
                        p.price,
                        Money::usd(c),
                    )),
                }
            },
            Err(_) => done_one(component(
                concat3("Defender for ", rt, " (price unavailable)"),
                BillingPeriod::Month,
                quantity,
                "months",
                Money::zero(),
                Money::zero(),
            )),
        }
    }
}

} // verus!
