//! Azure OpenAI (Cognitive Services) deployments.

use vstd::prelude::*;

use super::{step_costs_wf, 
    answers_wf, azure_query, component_in_unit, component_spec, done_one, month_hours, nested_number_wf, one_dec, usd,
    zero_dec, zero_usd, Step, StepView,
};
use crate::decimal::{checked_mul, decimal_product, Decimal};
use crate::error::{ErrorView, PreciousError};
use crate::money::{period_label, BillingPeriod, Money};
use crate::pricing::{PriceQuery, PricingError, QueryView, UnitPrice};
use crate::resource::{Cloud, ResourceKind};
use crate::state::{nested, number_of_view, string_of_view, ResourceView, TfResource};
use crate::text::{concat3, owned, str_eq};

verus! {

/// The cost model of `azurerm_cognitive_deployment`.
pub struct CognitiveDeploymentModel;

/// The key path of the deployment's SKU name.
pub open spec fn sku_name_path() -> Seq<Seq<char>> {
    seq!["sku"@, "name"@]
}

/// The key path of the deployment's provisioned capacity.
pub open spec fn capacity_path() -> Seq<Seq<char>> {
    seq!["sku"@, "capacity"@]
}

/// The key path of the deployed model's name.
pub open spec fn model_name_path() -> Seq<Seq<char>> {
    seq!["model"@, "name"@]
}

/// Whether a deployment's capacity, if it is a number, holds well-formed decimals.
pub open spec fn capacity_wf(r: ResourceView) -> bool {
    nested_number_wf(r.attributes, capacity_path())
}

/// The price query of provisioned throughput.
pub open spec fn ptu_query() -> QueryView {
    azure_query("Cognitive Services"@, ""@, seq![("productName"@, "Azure OpenAI"@), ("skuName"@, "Provisioned Managed"@)])
}

/// A deployment that is not provisioned-managed is reported as usage-based
/// without a price. A provisioned one costs its capacity (1 PTU by default)
/// for 730 hours at the hourly PTU price; when the price lookup fails it is
/// reported without a price.
pub open spec fn cognitive_step(r: ResourceView, answers: Seq<Result<UnitPrice, PricingError>>) -> StepView {
    let sku = match string_of_view(nested(r.attributes, sku_name_path())) {
        Some(s) => s,
        None => "Standard"@,
    };
    if sku != "ProvisionedManaged"@ && sku != "Provisioned-Managed"@ {
        StepView::Done(Ok(seq![component_spec(
            "Deployment ("@ + sku + ", usage-based)"@,
            BillingPeriod::Month,
            zero_dec(),
            period_label(BillingPeriod::Month),
            zero_usd(),
            zero_usd(),
        )]))
    } else {
        let (capacity, text) = match number_of_view(nested(r.attributes, capacity_path())) {
            Some(n) => (n.decimal, n.text),
            None => (Ok(one_dec()), "1"@),
        };
        let model = match string_of_view(nested(r.attributes, model_name_path())) {
            Some(m) => m,
            None => "gpt-4o"@,
        };
        match capacity {
            Err(m) => StepView::Done(Err(ErrorView::PricingError("invalid PTU capacity '"@ + text + "': "@ + m))),
            Ok(cap) => if answers.len() == 0 {
                StepView::Query(ptu_query())
            } else {
                match answers[0] {
                    Ok(p) => match decimal_product(p.price.amount, cap) {
                        None => StepView::Overflow,
                        Some(per_hour) => match decimal_product(per_hour, month_hours()) {
                            None => StepView::Overflow,
                            Some(monthly) => match decimal_product(cap, month_hours()) {
                                None => StepView::Overflow,
                                Some(hours) => StepView::Done(Ok(seq![component_spec(
                                    "Provisioned Throughput ("@ + model + ", "@ + text + " PTUs)"@,
                                    BillingPeriod::Hour,
                                    hours,
                                    period_label(BillingPeriod::Hour),
                                    p.price,
                                    usd(monthly),
                                )])),
                            },
                        },
                    },
                    Err(_) => StepView::Done(Ok(seq![component_spec(
                        "Provisioned Throughput ("@ + model + ", "@ + text + " PTUs, price unavailable)"@,
                        BillingPeriod::Month,
                        cap,
                        period_label(BillingPeriod::Month),
                        zero_usd(),
                        zero_usd(),
                    )])),
                }
            },
        }
    }
}

impl CognitiveDeploymentModel {
    /// The resource kind this model prices.
    pub fn kind(&self) -> (k: ResourceKind)
        ensures
            k.cloud == Cloud::Azure,
            k.tf_type.0@ == "azurerm_cognitive_deployment"@,
    {
        ResourceKind::new(Cloud::Azure, "azurerm_cognitive_deployment")
    }

    /// The next step of the estimate, given the answers so far.
    pub fn estimate_step(&self, resource: &TfResource, answers: &Vec<Result<UnitPrice, PricingError>>) -> (s: Step)
        requires
            answers_wf(answers@),
            capacity_wf(resource@),
        ensures
            s@ == cognitive_step(resource@, answers@),
            step_costs_wf(s@),
    {
        let sku_path = ["sku", "name"];
        assert(crate::state::path_view(sku_path@) =~= sku_name_path());
        let sku_name = match resource.get_nested_str(&sku_path) {
            Some(s) => s,
            None => "Standard",
        };
        if !str_eq(sku_name, "ProvisionedManaged") && !str_eq(sku_name, "Provisioned-Managed") {
            return done_one(component_in_unit(
                concat3("Deployment (", sku_name, ", usage-based)"),
                BillingPeriod::Month,
                Decimal::zero(),
                Money::zero(),
                Money::zero(),
            ));
        }
        let cap_path = ["sku", "capacity"];
        assert(crate::state::path_view(cap_path@) =~= capacity_path());
        let (capacity, text) = match resource.get_nested_number(&cap_path) {
            Some(n) => (
                match &n.decimal {
                    Ok(d) => Ok(*d),
                    Err(m) => Err(m.clone()),
                },
                n.text.clone(),
            ),
            None => (Ok(Decimal::one()), owned("1")),
        };
        let model_path = ["model", "name"];
        assert(crate::state::path_view(model_path@) =~= model_name_path());
        let model = match resource.get_nested_str(&model_path) {
            Some(m) => m,
            None => "gpt-4o",
        };
        let cap = match capacity {
            Err(m) => {
                let mut msg = concat3("invalid PTU capacity '", text.as_str(), "': ");
                msg.append(m.as_str());
                return Step::Done(Err(PreciousError::PricingError(msg)));
            },
            Ok(c) => c,
        };
        if answers.len() == 0 {
            let q = PriceQuery::azure("Cognitive Services", "")
                .filter("productName", "Azure OpenAI")
                .filter("skuName", "Provisioned Managed");
            assert(q@.filters =~= ptu_query().filters);
            return Step::Query(q);
        }
        let mut name = concat3("Provisioned Throughput (", model, ", ");
        name.append(text.as_str());
        match &answers[0] {
            Ok(p) => {
                assert(answers@[0] matches Ok(q) ==> q.price.wf());
                let hours_per_month = BillingPeriod::hours_per_month();
                let per_hour = match checked_mul(p.price.amount, cap) {
                    None => return Step::Overflow,
                    Some(c) => c,
                };
                let monthly = match checked_mul(per_hour, hours_per_month) {
                    None => return Step::Overflow,
                    Some(c) => c,
                };
                let hours = match checked_mul(cap, hours_per_month) {
                    None => return Step::Overflow,
                    Some(c) => c,
                };
                name.append(" PTUs)");
                done_one(component_in_unit(name, BillingPeriod::Hour, hours, p.price, Money::usd(monthly)))
            },
            Err(_) => {
                name.append(" PTUs, price unavailable)");
                done_one(component_in_unit(name, BillingPeriod::Month, cap, Money::zero(), Money::zero()))
            },
        }
    }
}

} // verus!
