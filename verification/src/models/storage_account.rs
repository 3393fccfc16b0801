//! Azure storage accounts.

use vstd::prelude::*;

use super::{step_costs_wf, answers_wf, azure_query, component, component_spec, done_one, missing_field, pricing_failure, pricing_failure_error, zero_dec, zero_usd, Step, StepView};
use crate::decimal::Decimal;
use crate::error::ErrorView;
use crate::money::{BillingPeriod, Money};
use crate::pricing::{PriceQuery, PricingError, QueryView, UnitPrice};
use crate::resource::{address_text, Cloud, ResourceKind};
use crate::state::{lookup, string_of_view, ResourceView, TfResource};
use crate::text::{concat, concat3, str_eq};

verus! {

/// The cost model of `azurerm_storage_account`.
pub struct StorageAccountModel;

/// The pricing product of an account kind and tier.
pub open spec fn storage_product(kind: Seq<char>, tier: Seq<char>) -> Seq<char> {
    if kind == "BlobStorage"@ {
        "Blob Storage"@
    } else if kind == "BlockBlobStorage"@ {
        "Premium Block Blob"@
    } else if kind == "FileStorage"@ {
        "Files v2"@
    } else if kind == "Storage"@ {
        "General Block Blob"@
    } else if tier == "Premium"@ {
        "Premium Block Blob"@
    } else {
        "General Block Blob v2"@
    }
}

/// The tier word of the pricing SKU: `Premium` for premium accounts, else the
/// access tier (`Cool`, `Cold`, or `Hot` for anything else).
pub open spec fn tier_label(account_tier: Seq<char>, access_tier: Seq<char>) -> Seq<char> {
    if account_tier == "Premium"@ {
        "Premium"@
    } else if access_tier == "Cool"@ {
        "Cool"@
    } else if access_tier == "Cold"@ {
        "Cold"@
    } else {
        "Hot"@
    }
}

/// The string attribute `key`, or `default`.
pub open spec fn string_or(r: ResourceView, key: Seq<char>, default: Seq<char>) -> Seq<char> {
    match string_of_view(lookup(r.attributes, key)) {
        Some(s) => s,
        None => default,
    }
}

/// The price query of an account's stored data.
pub open spec fn storage_query(region: Seq<char>, sku: Seq<char>, product: Seq<char>) -> QueryView {
    azure_query("Storage"@, region, seq![
        ("skuName"@, sku),
        ("meterName"@, sku + " Data Stored"@),
        ("productName"@, product),
        ("priceType"@, "Consumption"@),
    ])
}

/// An account is reported with the per-GB price of its tier and replication
/// in its location, at no quantity (storage depends on usage).
pub open spec fn storage_account_step(r: ResourceView, answers: Seq<Result<UnitPrice, PricingError>>) -> StepView {
    let account_tier = string_or(r, "account_tier"@, "Standard"@);
    let replication = string_or(r, "account_replication_type"@, "LRS"@);
    let kind = string_or(r, "account_kind"@, "StorageV2"@);
    let access = string_or(r, "access_tier"@, "Hot"@);
    match string_of_view(lookup(r.attributes, "location"@)) {
        None => StepView::Done(Err(ErrorView::MissingField { resource: address_text(r.address), field: "location"@ })),
        Some(region) => {
            let label = tier_label(account_tier, access);
            let sku = label + " "@ + replication;
            if answers.len() == 0 {
                StepView::Query(storage_query(region, sku, storage_product(kind, account_tier)))
            } else {
                match answers[0] {
                    Err(e) => StepView::Done(Err(pricing_failure("failed to get storage price for "@ + sku, e))),
                    Ok(p) => StepView::Done(Ok(seq![component_spec(
                        "Data storage ("@ + kind + ", "@ + sku + ")"@,
                        BillingPeriod::GBMonth,
                        zero_dec(),
                        "GB/month"@,
                        p.price,
                        zero_usd(),
                    )])),
                }
            }
        },
    }
}

impl StorageAccountModel {
    /// The pricing `productName` of a Terraform `account_kind` and `account_tier`.
    pub fn product_name(account_kind: &str, account_tier: &str) -> (p: &'static str)
        ensures
            p@ == storage_product(account_kind@, account_tier@),
    {
        if str_eq(account_kind, "BlobStorage") {
            "Blob Storage"
        } else if str_eq(account_kind, "BlockBlobStorage") {
            "Premium Block Blob"
        } else if str_eq(account_kind, "FileStorage") {
            "Files v2"
        } else if str_eq(account_kind, "Storage") {
            "General Block Blob"
        } else if str_eq(account_tier, "Premium") {
            "Premium Block Blob"
        } else {
            "General Block Blob v2"
        }
    }

    /// The access tier word used in pricing SKU and meter names; premium
    /// accounts use `Premium` rather than Hot or Cool.
    pub fn access_tier_label(account_tier: &str, access_tier: &str) -> (l: &'static str)
        ensures
            l@ == tier_label(account_tier@, access_tier@),
    {
        if str_eq(account_tier, "Premium") {
            "Premium"
        } else if str_eq(access_tier, "Cool") {
            "Cool"
        } else if str_eq(access_tier, "Cold") {
            "Cold"
        } else {
            "Hot"
        }
    }

    /// The resource kind this model prices.
    pub fn kind(&self) -> (k: ResourceKind)
        ensures
            k.cloud == Cloud::Azure,
            k.tf_type.0@ == "azurerm_storage_account"@,
    {
        ResourceKind::new(Cloud::Azure, "azurerm_storage_account")
    }

    /// The next step of the estimate, given the answers so far.
    pub fn estimate_step(&self, resource: &TfResource, answers: &Vec<Result<UnitPrice, PricingError>>) -> (s: Step)
        requires
            answers_wf(answers@),
        ensures
            s@ == storage_account_step(resource@, answers@),
            step_costs_wf(s@),
    {
        let account_tier = match resource.get_string("account_tier") {
            Some(s) => s,
            None => "Standard",
        };
        let replication = match resource.get_string("account_replication_type") {
            Some(s) => s,
            None => "LRS",
        };
        let kind = match resource.get_string("account_kind") {
            Some(s) => s,
            None => "StorageV2",
        };
        let access = match resource.get_string("access_tier") {
            Some(s) => s,
            None => "Hot",
        };
        let region = match resource.get_string("location") {
            Some(s) => s,
            None => return Step::Done(Err(missing_field(resource, "location"))),
        };
        let label = StorageAccountModel::access_tier_label(account_tier, access);
        let product = StorageAccountModel::product_name(kind, account_tier);
        let sku = concat3(label, " ", replication);
        if answers.len() == 0 {
            let meter = concat(sku.as_str(), " Data Stored");
            let q = PriceQuery::azure("Storage", region)
                .filter("skuName", sku.as_str())
                .filter("meterName", meter.as_str())
                .filter("productName", product)
                .filter("priceType", "Consumption");
            assert(q@.filters =~= storage_query(region@, sku@, product@).filters);
            return Step::Query(q);
        }
        match &answers[0] {
            Err(e) => Step::Done(Err(pricing_failure_error(concat("failed to get storage price for ", sku.as_str()), e))),
            Ok(p) => {
                let mut name = concat3("Data storage (", kind, ", ");
                name.append(sku.as_str());
                name.append(")");
                done_one(component(name, BillingPeriod::GBMonth, Decimal::zero(), "GB/month", p.price, Money::zero()))
            },
        }
    }
}

} // verus!
