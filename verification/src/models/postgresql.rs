//! Azure Database for PostgreSQL flexible servers.

use vstd::prelude::*;

use super::{step_costs_wf, answers_wf, azure_query, component, component_spec, dec, done_two, missing_field, month_hours, pricing_failure, pricing_failure_error, usd, Step, StepView};
use crate::decimal::{checked_mul, decimal_product, Decimal};
use crate::error::{ErrorView, PreciousError};
use crate::money::{BillingPeriod, Money};
use crate::pricing::{PriceQuery, PricingError, UnitPrice};
use crate::resource::{address_text, Cloud, ResourceKind};
use crate::state::{lookup, number_of_view, string_of_view, ResourceView, TfResource};
use crate::text::{chars_of, concat, concat3, nat_digits, owned, push_char, split_once, split_once_spec, str_eq, u32_to_string};

verus! {

/// The cost model of `azurerm_postgresql_flexible_server`.
pub struct PostgresqlFlexibleServerModel;

/// What a `sku_name` such as `GP_Standard_D4s_v3` says: the tier, the VM
/// series and the number of vCores.
#[derive(Debug)]
pub struct SkuInfo {
    pub tier: &'static str,
    pub series: String,
    pub vcores: u32,
}

/// Whether a character is an ASCII digit.
pub open spec fn is_digit(c: char) -> bool {
    '0' <= c <= '9'
}

/// The first position at or after `i` that holds a digit (or the end).
pub open spec fn skip_non_digits(s: Seq<char>, i: int) -> int
    decreases s.len() - i,
{
    if i < 0 || i >= s.len() || is_digit(s[i]) {
        i
    } else {
        skip_non_digits(s, i + 1)
    }
}

/// The first position at or after `i` that does not hold a digit (or the end).
pub open spec fn skip_digits(s: Seq<char>, i: int) -> int
    decreases s.len() - i,
{
    if i < 0 || i >= s.len() || !is_digit(s[i]) {
        i
    } else {
        skip_digits(s, i + 1)
    }
}

/// The number a run of digits spells.
pub open spec fn digits_value(d: Seq<char>) -> nat
    decreases d.len(),
{
    if d.len() == 0 {
        0
    } else {
        digits_value(d.drop_last()) * 10 + (d.last() as nat - 48) as nat
    }
}

/// `s` without its underscores.
pub open spec fn without_underscores(s: Seq<char>) -> Seq<char>
    decreases s.len(),
{
    if s.len() == 0 {
        s
    } else if s.last() == '_' {
        without_underscores(s.drop_last())
    } else {
        without_underscores(s.drop_last()).push(s.last())
    }
}

/// The pricing tier of a SKU prefix.
pub open spec fn sku_tier(prefix: Seq<char>) -> Option<Seq<char>> {
    if prefix == "GP"@ {
        Some("General Purpose"@)
    } else if prefix == "MO"@ {
        Some("Memory Optimized"@)
    } else if prefix == "B"@ {
        Some("Burstable"@)
    } else {
        None
    }
}

/// The tier, series and vCores of a `sku_name`: the tier from the text before
/// the first `_`; from the text after the second `_`, the vCores are the first
/// run of digits and the series is the rest without underscores.
pub open spec fn sku_parse(sku: Seq<char>) -> Result<(Seq<char>, Seq<char>, nat), Seq<char>> {
    match split_once_spec(sku, '_') {
        None => Err("invalid sku_name format: "@ + sku),
        Some((prefix, rest)) => match split_once_spec(rest, '_') {
            None => Err("invalid sku_name format: "@ + sku),
            Some((_, vm)) => match sku_tier(prefix) {
                None => Err("unknown sku tier prefix: "@ + prefix),
                Some(tier) => {
                    let i = skip_non_digits(vm, 0);
                    let j = skip_digits(vm, i);
                    let digits = vm.subrange(i, j);
                    if digits.len() == 0 || digits_value(digits) > u32::MAX {
                        Err("failed to extract vCores from sku_name: "@ + sku)
                    } else {
                        Ok((tier, without_underscores(vm.subrange(0, i) + vm.subrange(j, vm.len() as int)), digits_value(digits)))
                    }
                },
            },
        },
    }
}

fn tier_of(prefix: &str) -> (r: Option<&'static str>)
    ensures
        r matches Some(t) ==> sku_tier(prefix@) == Some(t@),
        r is None ==> sku_tier(prefix@) is None,
{
    if str_eq(prefix, "GP") {
        Some("General Purpose")
    } else if str_eq(prefix, "MO") {
        Some("Memory Optimized")
    } else if str_eq(prefix, "B") {
        Some("Burstable")
    } else {
        None
    }
}

/// Reads the tier, series and vCores of a `sku_name` such as
/// `GP_Standard_D4s_v3` (General Purpose, Dsv3 series, 4 vCores).
pub fn parse_sku_name(sku_name: &str) -> (r: Result<SkuInfo, PreciousError>)
    ensures
        match (r, sku_parse(sku_name@)) {
            (Ok(info), Ok((tier, series, vcores))) => info.tier@ == tier && info.series@ == series && info.vcores == vcores,
            (Err(e), Err(m)) => e@ == ErrorView::PricingError(m),
            _ => false,
        },
{
    let (prefix, rest) = match split_once(sku_name, '_') {
        Some(p) => p,
        None => return Err(PreciousError::PricingError(concat("invalid sku_name format: ", sku_name))),
    };
    let vm_text = match split_once(rest.as_str(), '_') {
        Some(p) => p.1,
        None => return Err(PreciousError::PricingError(concat("invalid sku_name format: ", sku_name))),
    };
    let tier = match tier_of(prefix.as_str()) {
        Some(t) => t,
        None => return Err(PreciousError::PricingError(concat("unknown sku tier prefix: ", prefix.as_str()))),
    };
    let vm = chars_of(vm_text.as_str());
    let n = vm.len();
    let mut i: usize = 0;
    while i < n && !('0' <= vm[i] && vm[i] <= '9')
        invariant
            n == vm@.len(),
            i <= n,
            skip_non_digits(vm@, 0) == skip_non_digits(vm@, i as int),
        decreases n - i,
    {
        i = i + 1;
    }
    let mut j: usize = i;
    let mut value: u64 = 0;
    let mut overflow = false;
    while j < n && '0' <= vm[j] && vm[j] <= '9'
        invariant
            n == vm@.len(),
            i <= j <= n,
            skip_non_digits(vm@, 0) == i,
            skip_digits(vm@, i as int) == skip_digits(vm@, j as int),
            !overflow ==> value == digits_value(vm@.subrange(i as int, j as int)) && value <= u32::MAX,
            overflow ==> digits_value(vm@.subrange(i as int, j as int)) > u32::MAX,
        decreases n - j,
    {
        let d = (vm[j] as u32 - 48) as u64;
        let ghost before = vm@.subrange(i as int, j as int);
        let ghost after = vm@.subrange(i as int, j + 1);
        assert(after.drop_last() =~= before);
        assert(after.last() == vm@[j as int]);
        if !overflow {
            let next = value * 10 + d;
            if next > 4294967295 {
                overflow = true;
            } else {
                value = next;
            }
        } else {
            proof {
                assert(digits_value(after) >= digits_value(before) * 10);
            }
        }
        j = j + 1;
    }
    if j == i || overflow {
        return Err(PreciousError::PricingError(concat("failed to extract vCores from sku_name: ", sku_name)));
    }
    let mut series = String::new();
    let mut k: usize = 0;
    let ghost kept = vm@.subrange(0, i as int) + vm@.subrange(j as int, n as int);
    while k < n
        invariant
            n == vm@.len(),
            i <= j <= n,
            k <= n,
            kept == vm@.subrange(0, i as int) + vm@.subrange(j as int, n as int),
            k <= i ==> series@ == without_underscores(vm@.subrange(0, k as int)),
            k > i && k < j ==> series@ == without_underscores(vm@.subrange(0, i as int)),
            k >= j && j > i ==> series@ == without_underscores(kept.subrange(0, i + (k - j))),
            j > i,
        decreases n - k,
    {
        let c = vm[k];
        if k < i {
            let ghost pre = vm@.subrange(0, k + 1);
            assert(pre.drop_last() =~= vm@.subrange(0, k as int));
            if c != '_' {
                push_char(&mut series, c);
            }
        } else if k >= j {
            let ghost pre = kept.subrange(0, i + (k - j) + 1);
            assert(pre.drop_last() =~= kept.subrange(0, i + (k - j)));
            assert(pre.last() == vm@[k as int]);
            if c != '_' {
                push_char(&mut series, c);
            }
        }
        k = k + 1;
        proof {
            if k == i && i == j {
            }
            if k == j {
                assert(kept.subrange(0, i as int) =~= vm@.subrange(0, i as int));
            }
        }
    }
    assert(kept.subrange(0, i + (n - j)) =~= kept);
    Ok(SkuInfo { tier, series, vcores: value as u32 })
}

/// A server costs 730 hours at the hourly price of its vCores in its tier and
/// series, plus its storage (`storage_mb` / 1024 GB, 32 GB by default) at the
/// per-GB price, both in its location.
pub open spec fn postgresql_step(r: ResourceView, answers: Seq<Result<UnitPrice, PricingError>>) -> StepView {
    match string_of_view(lookup(r.attributes, "sku_name"@)) {
        None => StepView::Done(Err(ErrorView::MissingField { resource: address_text(r.address), field: "sku_name"@ })),
        Some(sku) => match string_of_view(lookup(r.attributes, "location"@)) {
            None => StepView::Done(Err(ErrorView::MissingField { resource: address_text(r.address), field: "location"@ })),
            Some(region) => match sku_parse(sku) {
                Err(m) => StepView::Done(Err(ErrorView::PricingError(m))),
                Ok((tier, series, vcores)) => {
                    let compute_q = azure_query("Azure Database for PostgreSQL"@, region, seq![
                        ("productName"@, "Azure Database for PostgreSQL Flexible Server "@ + tier + " - "@ + series + " Series Compute"@),
                        ("skuName"@, nat_digits(vcores) + " vCore"@),
                        ("priceType"@, "Consumption"@),
                    ]);
                    let storage_q = azure_query("Azure Database for PostgreSQL"@, region, seq![
                        ("productName"@, "Az DB for PostgreSQL Flexible Server Storage"@),
                        ("meterName"@, "Storage Data Stored"@),
                        ("priceType"@, "Consumption"@),
                    ]);
                    let storage_gb = match number_of_view(lookup(r.attributes, "storage_mb"@)) {
                        Some(n) => match n.retained_div_1024 {
                            Some(g) => g,
                            None => dec(32, 0),
                        },
                        None => dec(32, 0),
                    };
                    if answers.len() == 0 {
                        StepView::Query(compute_q)
                    } else {
                        match answers[0] {
                            Err(e) => StepView::Done(Err(pricing_failure("failed to get compute price for "@ + sku, e))),
                            Ok(cp) => match decimal_product(cp.price.amount, month_hours()) {
                                None => StepView::Overflow,
                                Some(compute_cost) => if answers.len() == 1 {
                                    StepView::Query(storage_q)
                                } else {
                                    match answers[1] {
                                        Err(e) => StepView::Done(Err(pricing_failure("failed to get storage price for "@ + sku, e))),
                                        Ok(sp) => match decimal_product(sp.price.amount, storage_gb) {
                                            None => StepView::Overflow,
                                            Some(storage_cost) => StepView::Done(Ok(seq![
                                                component_spec("Compute ("@ + sku + ")"@, BillingPeriod::Hour, month_hours(), "hours"@, cp.price, usd(compute_cost)),
                                                component_spec("Storage"@, BillingPeriod::GBMonth, storage_gb, "GB/month"@, sp.price, usd(storage_cost)),
                                            ])),
                                        },
                                    }
                                },
                            },
                        }
                    }
                },
            },
        },
    }
}

impl PostgresqlFlexibleServerModel {
    /// The resource kind this model prices.
    pub fn kind(&self) -> (k: ResourceKind)
        ensures
            k.cloud == Cloud::Azure,
            k.tf_type.0@ == "azurerm_postgresql_flexible_server"@,
    {
        ResourceKind::new(Cloud::Azure, "azurerm_postgresql_flexible_server")
    }

    /// The next step of the estimate, given the answers so far.
    pub fn estimate_step(&self, resource: &TfResource, answers: &Vec<Result<UnitPrice, PricingError>>) -> (s: Step)
        requires
            answers_wf(answers@),
            crate::models::numbers_wf(resource@.attributes),
        ensures
            s@ == postgresql_step(resource@, answers@),
            step_costs_wf(s@),
    {
        let sku_name = match resource.get_string("sku_name") {
            Some(v) => v,
            None => return Step::Done(Err(missing_field(resource, "sku_name"))),
        };
        let region = match resource.get_string("location") {
            Some(v) => v,
            None => return Step::Done(Err(missing_field(resource, "location"))),
        };
        let sku = match parse_sku_name(sku_name) {
            Ok(s) => s,
            Err(e) => return Step::Done(Err(e)),
        };
        if answers.len() == 0 {
            let mut product = concat3("Azure Database for PostgreSQL Flexible Server ", sku.tier, " - ");
            product.append(sku.series.as_str());
            product.append(" Series Compute");
            let vcores = u32_to_string(sku.vcores);
            let sku_filter = concat(vcores.as_str(), " vCore");
            let q = PriceQuery::azure("Azure Database for PostgreSQL", region)
                .filter("productName", product.as_str())
                .filter("skuName", sku_filter.as_str())
                .filter("priceType", "Consumption");
            assert(q@.filters =~= seq![
                ("productName"@, product@),
                ("skuName"@, sku_filter@),
                ("priceType"@, "Consumption"@),
            ]);
            return Step::Query(q);
        }
        let compute_price = match &answers[0] {
            Err(e) => return Step::Done(Err(pricing_failure_error(concat("failed to get compute price for ", sku_name), e))),
            Ok(p) => *p,
        };
        assert(compute_price.price.wf());
        let hours = BillingPeriod::hours_per_month();
        let compute_cost = match checked_mul(compute_price.price.amount, hours) {
            None => return Step::Overflow,
            Some(c) => c,
        };
        let storage_gb = match resource.get_number("storage_mb") {
            Some(n) => match n.retained_div_1024 {
                Some(g) => g,
                None => Decimal::from_u32(32),
            },
            None => Decimal::from_u32(32),
        };
        if answers.len() == 1 {
            let q = PriceQuery::azure("Azure Database for PostgreSQL", region)
                .filter("productName", "Az DB for PostgreSQL Flexible Server Storage")
                .filter("meterName", "Storage Data Stored")
                .filter("priceType", "Consumption");
            assert(q@.filters =~= seq![
                ("productName"@, "Az DB for PostgreSQL Flexible Server Storage"@),
                ("meterName"@, "Storage Data Stored"@),
                ("priceType"@, "Consumption"@),
            ]);
            return Step::Query(q);
        }
        let storage_price = match &answers[1] {
            Err(e) => return Step::Done(Err(pricing_failure_error(concat("failed to get storage price for ", sku_name), e))),
            Ok(p) => *p,
        };
        assert(storage_price.price.wf());
        proof {
            crate::models::lemma_number_lookup_wf(resource@.attributes, "storage_mb"@);
        }
        let storage_cost = match checked_mul(storage_price.price.amount, storage_gb) {
            None => return Step::Overflow,
            Some(c) => c,
        };
        done_two(
            component(concat3("Compute (", sku_name, ")"), BillingPeriod::Hour, hours, "hours", compute_price.price, Money::usd(compute_cost)),
            component(owned("Storage"), BillingPeriod::GBMonth, storage_gb, "GB/month", storage_price.price, Money::usd(storage_cost)),
        )
    }
}

} // verus!
