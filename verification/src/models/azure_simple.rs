//! Azure resources priced from fixed list prices: Front Door profiles,
//! container registries and Log Analytics workspaces.

use vstd::prelude::*;

use super::{step_costs_wf, component, component_in_unit, component_spec, dec, done_one, invalid_field, missing_field, one_dec, usd, zero_dec, zero_usd, Step, StepView};
use crate::decimal::Decimal;
use crate::error::ErrorView;
use crate::money::{period_label, BillingPeriod, Money};
use crate::resource::{address_text, Cloud, ResourceKind};
use crate::state::{lookup, string_of_view, ResourceView, TfResource};
use crate::text::{concat, concat3, is_prefix, owned, starts_with, str_eq};

verus! {

/// The cost model of `azurerm_cdn_frontdoor_profile`.
pub struct FrontDoorProfileModel;

/// A Front Door profile costs its tier's monthly base fee: $35 for Standard
/// SKUs, $330 for Premium ones; other SKUs are refused.
pub open spec fn front_door_profile_step(r: ResourceView) -> StepView {
    match string_of_view(lookup(r.attributes, "sku_name"@)) {
        None => StepView::Done(Err(ErrorView::MissingField { resource: address_text(r.address), field: "sku_name"@ })),
        Some(sku) => {
            if is_prefix("Standard"@, sku) {
                StepView::Done(Ok(seq![component_spec("Front Door profile ("@ + "Standard"@ + ")"@, BillingPeriod::Month, one_dec(), "months"@, usd(dec(3500, 2)), usd(dec(3500, 2)))]))
            } else if is_prefix("Premium"@, sku) {
                StepView::Done(Ok(seq![component_spec("Front Door profile ("@ + "Premium"@ + ")"@, BillingPeriod::Month, one_dec(), "months"@, usd(dec(33000, 2)), usd(dec(33000, 2)))]))
            } else {
                StepView::Done(Err(ErrorView::InvalidField {
                    resource: address_text(r.address),
                    field: "sku_name"@,
                    reason: "unknown Front Door SKU: "@ + sku,
                }))
            }
        },
    }
}

impl FrontDoorProfileModel {
    /// The resource kind this model prices.
    pub fn kind(&self) -> (k: ResourceKind)
        ensures
            k.cloud == Cloud::Azure,
            k.tf_type.0@ == "azurerm_cdn_frontdoor_profile"@,
    {
        ResourceKind::new(Cloud::Azure, "azurerm_cdn_frontdoor_profile")
    }

    /// The estimate (no price query is needed).
    pub fn estimate_step(&self, resource: &TfResource) -> (s: Step)
        ensures
            s@ == front_door_profile_step(resource@),
            step_costs_wf(s@),
    {
        let sku = match resource.get_string("sku_name") {
            Some(v) => v,
            None => return Step::Done(Err(missing_field(resource, "sku_name"))),
        };
        let (tier, amount) = if starts_with(sku, "Standard") {
            ("Standard", Decimal::new(3500, 2))
        } else if starts_with(sku, "Premium") {
            ("Premium", Decimal::new(33000, 2))
        } else {
            return Step::Done(Err(invalid_field(resource, "sku_name", concat("unknown Front Door SKU: ", sku))));
        };
        let price = Money::usd(amount);
        done_one(component(concat3("Front Door profile (", tier, ")"), BillingPeriod::Month, Decimal::one(), "months", price, price))
    }
}

/// The cost model of `azurerm_container_registry`.
pub struct ContainerRegistryModel;

/// The monthly fee of a registry SKU.
pub open spec fn registry_fee(sku: Seq<char>) -> Option<Decimal> {
    if sku == "Basic"@ {
        Some(dec(500, 2))
    } else if sku == "Standard"@ {
        Some(dec(2000, 2))
    } else if sku == "Premium"@ {
        Some(dec(5000, 2))
    } else {
        None
    }
}

/// A registry costs its SKU's monthly fee ($5 Basic, $20 Standard, $50
/// Premium); other SKUs are refused.
pub open spec fn container_registry_step(r: ResourceView) -> StepView {
    match string_of_view(lookup(r.attributes, "sku"@)) {
        None => StepView::Done(Err(ErrorView::MissingField { resource: address_text(r.address), field: "sku"@ })),
        Some(sku) => match registry_fee(sku) {
            Some(fee) => StepView::Done(Ok(seq![component_spec(
                "Registry unit ("@ + sku + ")"@,
                BillingPeriod::Month,
                one_dec(),
                period_label(BillingPeriod::Month),
                usd(fee),
                usd(fee),
            )])),
            None => StepView::Done(Err(ErrorView::InvalidField {
                resource: address_text(r.address),
                field: "sku"@,
                reason: "unknown container registry SKU: "@ + sku,
            })),
        },
    }
}

/// A registry of a known SKU has one component, one unit a month at its list
/// fee: $5.00 for Basic, $20.00 for Standard, $50.00 for Premium.
pub proof fn lemma_registry_fees(r: ResourceView, sku: Seq<char>)
    requires
        string_of_view(lookup(r.attributes, "sku"@)) == Some(sku),
    ensures
        sku == "Basic"@ ==> (container_registry_step(r) matches StepView::Done(Ok(cs)) && cs.len() == 1
            && cs[0].quantity == (Decimal { mantissa: 1, scale: 0, negative: false })
            && cs[0].monthly_cost == usd(Decimal { mantissa: 500, scale: 2, negative: false })
            && cs[0].unit_price == cs[0].monthly_cost),
        sku == "Standard"@ ==> (container_registry_step(r) matches StepView::Done(Ok(cs)) && cs.len() == 1
            && cs[0].quantity == (Decimal { mantissa: 1, scale: 0, negative: false })
            && cs[0].monthly_cost == usd(Decimal { mantissa: 2000, scale: 2, negative: false })
            && cs[0].unit_price == cs[0].monthly_cost),
        sku == "Premium"@ ==> (container_registry_step(r) matches StepView::Done(Ok(cs)) && cs.len() == 1
            && cs[0].quantity == (Decimal { mantissa: 1, scale: 0, negative: false })
            && cs[0].monthly_cost == usd(Decimal { mantissa: 5000, scale: 2, negative: false })
            && cs[0].unit_price == cs[0].monthly_cost),
        sku != "Basic"@ && sku != "Standard"@ && sku != "Premium"@ ==> (container_registry_step(r) matches StepView::Done(
            Err(ErrorView::InvalidField { .. }),
        )),
{
    reveal_strlit("Basic");
    reveal_strlit("Standard");
    reveal_strlit("Premium");
}

impl ContainerRegistryModel {
    /// The resource kind this model prices.
    pub fn kind(&self) -> (k: ResourceKind)
        ensures
            k.cloud == Cloud::Azure,
            k.tf_type.0@ == "azurerm_container_registry"@,
    {
        ResourceKind::new(Cloud::Azure, "azurerm_container_registry")
    }

    /// The estimate (no price query is needed).
    pub fn estimate_step(&self, resource: &TfResource) -> (s: Step)
        ensures
            s@ == container_registry_step(resource@),
            step_costs_wf(s@),
    {
        let sku = match resource.get_string("sku") {
            Some(v) => v,
            None => return Step::Done(Err(missing_field(resource, "sku"))),
        };
        let amount = if str_eq(sku, "Basic") {
            Decimal::new(500, 2)
        } else if str_eq(sku, "Standard") {
            Decimal::new(2000, 2)
        } else if str_eq(sku, "Premium") {
            Decimal::new(5000, 2)
        } else {
            return Step::Done(Err(invalid_field(resource, "sku", concat("unknown container registry SKU: ", sku))));
        };
        let price = Money::usd(amount);
        done_one(component_in_unit(concat3("Registry unit (", sku, ")"), BillingPeriod::Month, Decimal::one(), price, price))
    }
}

/// The cost model of `azurerm_log_analytics_workspace`.
pub struct LogAnalyticsWorkspaceModel;

/// A workspace is pay-as-you-go ingestion at $2.76 per GB, with no ingestion
/// assumed.
pub open spec fn log_analytics_step() -> StepView {
    StepView::Done(Ok(seq![component_spec(
        "Data ingestion (pay-as-you-go)"@,
        BillingPeriod::GBMonth,
        zero_dec(),
        "GB/month"@,
        usd(dec(276, 2)),
        zero_usd(),
    )]))
}

impl LogAnalyticsWorkspaceModel {
    /// The resource kind this model prices.
    pub fn kind(&self) -> (k: ResourceKind)
        ensures
            k.cloud == Cloud::Azure,
            k.tf_type.0@ == "azurerm_log_analytics_workspace"@,
    {
        ResourceKind::new(Cloud::Azure, "azurerm_log_analytics_workspace")
    }

    /// The estimate (no price query is needed).
    pub fn estimate_step(&self) -> (s: Step)
        ensures
            s@ == log_analytics_step(),
            step_costs_wf(s@),
    {
        done_one(component(
            owned("Data ingestion (pay-as-you-go)"),
            BillingPeriod::GBMonth,
            Decimal::zero(),
            "GB/month",
            Money::usd(Decimal::new(276, 2)),
            Money::zero(),
        ))
    }
}

} // verus!
