//! Azure Container Apps, priced at fixed consumption rates.

use vstd::prelude::*;

use super::{step_costs_wf, component_in_unit, component_spec, dec, done_two, nested_number_wf, one_dec, usd, Step, StepView};
use crate::cost::ComponentView;
use crate::decimal::{checked_div, checked_mul, decimal_parse, decimal_product, decimal_quotient, parse_decimal, Decimal};
use crate::error::{ErrorView, PreciousError};
use crate::money::{period_label, BillingPeriod, Money};
use crate::resource::{address_text, Cloud, ResourceKind};
use crate::state::{nested, number_of_view, string_of_view, ResourceView, TfResource};
use crate::text::{concat3, is_suffix, owned, strip_suffix};

verus! {

/// The cost model of `azurerm_container_app`.
pub struct ContainerAppModel;

/// The monthly price of one vCPU, 63.072 USD.
pub open spec fn vcpu_monthly_rate() -> Decimal {
    dec(63072, 3)
}

/// The monthly price of one GiB of memory, 7.884 USD.
pub open spec fn memory_gib_monthly_rate() -> Decimal {
    dec(7884, 3)
}

/// The error for a memory text whose number does not parse.
pub open spec fn invalid_memory(raw: Seq<char>, e: Seq<char>) -> ErrorView {
    ErrorView::PricingError("invalid memory value '"@ + raw + "': "@ + e)
}

/// The GiB of a memory text: a number followed by `Gi`, or by `Mi` for
/// mebibytes (divided by 1024); any other unit is an error. `None` where the
/// division overflows.
pub open spec fn memory_gib(raw: Seq<char>) -> Option<Result<Decimal, ErrorView>> {
    if is_suffix("Gi"@, raw) {
        match decimal_parse(raw.subrange(0, raw.len() - 2)) {
            Ok(d) => Some(Ok(d)),
            Err(e) => Some(Err(invalid_memory(raw, e))),
        }
    } else if is_suffix("Mi"@, raw) {
        match decimal_parse(raw.subrange(0, raw.len() - 2)) {
            Err(e) => Some(Err(invalid_memory(raw, e))),
            Ok(mib) => match decimal_quotient(mib, dec(1024, 0)) {
                Some(g) => Some(Ok(g)),
                None => None,
            },
        }
    } else {
        Some(Err(ErrorView::PricingError("unsupported memory unit in '"@ + raw + "', expected Gi or Mi suffix"@)))
    }
}

/// Parses a container memory size such as `0.5Gi` or `512Mi` into GiB.
pub fn parse_memory_gib(raw: &str) -> (r: Option<Result<Decimal, PreciousError>>)
    ensures
        match (r, memory_gib(raw@)) {
            (Some(Ok(d)), Some(Ok(e))) => d == e && d.wf(),
            (Some(Err(x)), Some(Err(y))) => x@ == y,
            (None, None) => true,
            _ => false,
        },
{
    proof {
        reveal_strlit("Gi");
        reveal_strlit("Mi");
    }
    match strip_suffix(raw, "Gi") {
        Some(gi) => {
            return match parse_decimal(gi.as_str()) {
                Ok(d) => Some(Ok(d)),
                Err(e) => {
                    let mut m = concat3("invalid memory value '", raw, "': ");
                    m.append(e.as_str());
                    Some(Err(PreciousError::PricingError(m)))
                },
            };
        },
        None => {},
    }
    match strip_suffix(raw, "Mi") {
        Some(mi) => {
            let mib = match parse_decimal(mi.as_str()) {
                Ok(d) => d,
                Err(e) => {
                    let mut m = concat3("invalid memory value '", raw, "': ");
                    m.append(e.as_str());
                    return Some(Err(PreciousError::PricingError(m)));
                },
            };
            match checked_div(mib, Decimal::from_u32(1024)) {
                Some(g) => Some(Ok(g)),
                None => None,
            }
        },
        None => Some(Err(PreciousError::PricingError(concat3(
            "unsupported memory unit in '",
            raw,
            "', expected Gi or Mi suffix",
        )))),
    }
}

/// The key path of the container's vCPUs.
pub open spec fn cpu_path() -> Seq<Seq<char>> {
    seq!["template"@, "container"@, "cpu"@]
}

/// The key path of the container's memory.
pub open spec fn memory_path() -> Seq<Seq<char>> {
    seq!["template"@, "container"@, "memory"@]
}

/// The key path of the app's minimum replica count.
pub open spec fn min_replicas_path() -> Seq<Seq<char>> {
    seq!["template"@, "min_replicas"@]
}

/// A monthly line: `quantity` per replica, at a fixed monthly rate.
pub open spec fn rate_line(name: Seq<char>, rate: Decimal, amount: Decimal, replicas: Decimal) -> Option<ComponentView> {
    match decimal_product(rate, amount) {
        None => None,
        Some(per_replica) => match decimal_product(per_replica, replicas) {
            None => None,
            Some(monthly) => match decimal_product(amount, replicas) {
                None => None,
                Some(q) => Some(component_spec(name, BillingPeriod::Month, q, period_label(BillingPeriod::Month), usd(rate), usd(monthly))),
            },
        },
    }
}

/// An app costs its container's vCPUs and GiB of memory, times its minimum
/// replica count (1 by default, or when it does not convert), at the fixed
/// monthly rates.
pub open spec fn container_app_step(r: ResourceView) -> StepView {
    match number_of_view(nested(r.attributes, cpu_path())) {
        None => StepView::Done(Err(ErrorView::MissingField { resource: address_text(r.address), field: "template.container.cpu"@ })),
        Some(cpu_raw) => match cpu_raw.decimal {
            Err(e) => StepView::Done(Err(ErrorView::PricingError("invalid cpu value '"@ + cpu_raw.text + "': "@ + e))),
            Ok(cpu) => match string_of_view(nested(r.attributes, memory_path())) {
                None => StepView::Done(Err(ErrorView::MissingField { resource: address_text(r.address), field: "template.container.memory"@ })),
                Some(raw) => match memory_gib(raw) {
                    None => StepView::Overflow,
                    Some(Err(e)) => StepView::Done(Err(e)),
                    Some(Ok(mem)) => {
                        let replicas = match number_of_view(nested(r.attributes, min_replicas_path())) {
                            Some(n) => match n.decimal {
                                Ok(d) => d,
                                Err(_) => one_dec(),
                            },
                            None => one_dec(),
                        };
                        match (rate_line("vCPU"@, vcpu_monthly_rate(), cpu, replicas), rate_line("Memory"@, memory_gib_monthly_rate(), mem, replicas)) {
                            (Some(a), Some(b)) => StepView::Done(Ok(seq![a, b])),
                            _ => StepView::Overflow,
                        }
                    },
                },
            },
        },
    }
}

/// A monthly line at a fixed rate.
fn rate_component(name: &str, rate: Decimal, amount: Decimal, replicas: Decimal) -> (r: Option<crate::cost::CostComponent>)
    requires
        rate.wf(),
        amount.wf(),
        replicas.wf(),
    ensures
        match (r, rate_line(name@, rate, amount, replicas)) {
            (Some(c), Some(v)) => c@ == v,
            (None, None) => true,
            _ => false,
        },
        r matches Some(c) ==> crate::cost::component_wf(c@),
{
    let per_replica = match checked_mul(rate, amount) {
        None => return None,
        Some(c) => c,
    };
    let monthly = match checked_mul(per_replica, replicas) {
        None => return None,
        Some(c) => c,
    };
    let q = match checked_mul(amount, replicas) {
        None => return None,
        Some(c) => c,
    };
    Some(component_in_unit(owned(name), BillingPeriod::Month, q, Money::usd(rate), Money::usd(monthly)))
}

impl ContainerAppModel {
    /// The resource kind this model prices.
    pub fn kind(&self) -> (k: ResourceKind)
        ensures
            k.cloud == Cloud::Azure,
            k.tf_type.0@ == "azurerm_container_app"@,
    {
        ResourceKind::new(Cloud::Azure, "azurerm_container_app")
    }

    /// The estimate of an app; no price lookup is needed.
    pub fn estimate_step(&self, resource: &TfResource) -> (s: Step)
        requires
            nested_number_wf(resource@.attributes, cpu_path()),
            nested_number_wf(resource@.attributes, min_replicas_path()),
        ensures
            s@ == container_app_step(resource@),
            step_costs_wf(s@),
    {
        let cpu_p = ["template", "container", "cpu"];
        assert(crate::state::path_view(cpu_p@) =~= cpu_path());
        let cpu_raw = match resource.get_nested_number(&cpu_p) {
            Some(n) => n,
            None => {
                return Step::Done(Err(PreciousError::MissingField {
                    resource: resource.address.to_string(),
                    field: owned("template.container.cpu"),
                }));
            },
        };
        let cpu = match &cpu_raw.decimal {
            Ok(d) => *d,
            Err(e) => {
                let mut m = concat3("invalid cpu value '", cpu_raw.text.as_str(), "': ");
                m.append(e.as_str());
                return Step::Done(Err(PreciousError::PricingError(m)));
            },
        };
        let mem_p = ["template", "container", "memory"];
        assert(crate::state::path_view(mem_p@) =~= memory_path());
        let memory_str = match resource.get_nested_str(&mem_p) {
            Some(s) => s,
            None => {
                return Step::Done(Err(PreciousError::MissingField {
                    resource: resource.address.to_string(),
                    field: owned("template.container.memory"),
                }));
            },
        };
        let memory = match parse_memory_gib(memory_str) {
            None => return Step::Overflow,
            Some(Err(e)) => return Step::Done(Err(e)),
            Some(Ok(g)) => g,
        };
        let rep_p = ["template", "min_replicas"];
        assert(crate::state::path_view(rep_p@) =~= min_replicas_path());
        let replicas = match resource.get_nested_number(&rep_p) {
            Some(n) => match &n.decimal {
                Ok(d) => *d,
                Err(_) => Decimal::one(),
            },
            None => Decimal::one(),
        };
        let vcpu = match rate_component("vCPU", Decimal::new(63072, 3), cpu, replicas) {
            None => return Step::Overflow,
            Some(c) => c,
        };
        let mem = match rate_component("Memory", Decimal::new(7884, 3), memory, replicas) {
            None => return Step::Overflow,
            Some(c) => c,
        };
        done_two(vcpu, mem)
    }
}

} // verus!
