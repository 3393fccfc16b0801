//! The cost models of the supported resource types.
//!
//! A model may need prices from a pricing service. It is written as a step
//! function: given the resource, its usage and the answers to the price
//! queries it has asked so far, it either asks the next query or finishes with
//! the resource's cost components (or an error). The caller performs each
//! query and hands the answer back.

use vstd::prelude::*;

use crate::cost::{component_views, ComponentView, CostComponent};
use crate::decimal::Decimal;
use crate::error::{ErrorView, PreciousError};
use crate::money::{period_label, BillingPeriod, Money};
use crate::pricing::{PriceQuery, PricingError, QueryView, UnitPrice};
use crate::state::TfResource;
use crate::usage::{metrics_view, metrics_wf, UsageEntry};

pub mod aws_instance;
pub mod azure_simple;
pub mod security_center;
pub mod managed_redis;
pub mod postgresql;
pub mod planetscale;
pub mod front_door_waf;
pub mod network_watcher;
pub mod cognitive;
pub mod container_app;
pub mod monitor;
pub mod private_network;
pub mod storage_account;

verus! {

/// What a cost model does next.
#[derive(Debug)]
pub enum Step {
    /// Ask the pricing service this query and call again with its answer.
    Query(PriceQuery),
    /// The estimate is finished.
    Done(Result<Vec<CostComponent>, PreciousError>),
    /// A decimal computation overflowed; the estimate cannot go on (where
    /// decimal arithmetic panics).
    Overflow,
}

/// A step as plain values.
pub ghost enum StepView {
    Query(QueryView),
    Done(Result<Seq<ComponentView>, ErrorView>),
    Overflow,
}

impl View for Step {
    type V = StepView;

    open spec fn view(&self) -> StepView {
        match self {
            Step::Query(q) => StepView::Query(q@),
            Step::Done(Ok(cs)) => StepView::Done(Ok(component_views(cs@))),
            Step::Done(Err(e)) => StepView::Done(Err(e@)),
            Step::Overflow => StepView::Overflow,
        }
    }
}

/// Whether every decimal of the components of a finished estimate is well formed.
pub open spec fn step_costs_wf(s: StepView) -> bool {
    s matches StepView::Done(Ok(cs)) ==> forall|i: int| 0 <= i < cs.len() ==> crate::cost::component_wf(#[trigger] cs[i])
}

/// The usage metrics of a resource, if it has an entry.
pub open spec fn usage_view(u: Option<&UsageEntry>) -> Option<Seq<(Seq<char>, Decimal)>> {
    match u {
        Some(e) => Some(metrics_view(e.metrics@)),
        None => None,
    }
}

/// The metric `name` of a resource's usage.
pub open spec fn usage_metric(u: Option<Seq<(Seq<char>, Decimal)>>, name: Seq<char>) -> Option<Decimal> {
    match u {
        Some(m) => crate::usage::metric_value(m, name),
        None => None,
    }
}

/// Whether the usage metrics are well formed.
pub open spec fn usage_wf(u: Option<&UsageEntry>) -> bool {
    match u {
        Some(e) => metrics_wf(metrics_view(e.metrics@)),
        None => true,
    }
}

/// Whether every price in the answers is well formed.
pub open spec fn answers_wf(a: Seq<Result<UnitPrice, PricingError>>) -> bool {
    forall|i: int| 0 <= i < a.len() ==> ((#[trigger] a[i]) matches Ok(p) ==> p.price.wf())
}

/// Whether every number among a resource's top-level attributes holds
/// well-formed decimals.
pub open spec fn numbers_wf(attrs: Seq<(Seq<char>, crate::state::ValueView)>) -> bool {
    forall|i: int| 0 <= i < attrs.len() ==> ((#[trigger] attrs[i]).1 matches crate::state::ValueView::Number(n) ==> number_view_wf(n))
}

/// Whether the decimals a number holds are well formed.
pub open spec fn number_view_wf(n: crate::state::NumberView) -> bool {
    &&& (n.decimal matches Ok(d) ==> d.wf())
    &&& (n.retained_div_1024 matches Some(d) ==> d.wf())
}

/// Whether the number at a key path, if there is one, holds well-formed decimals.
pub open spec fn nested_number_wf(attrs: Seq<(Seq<char>, crate::state::ValueView)>, path: Seq<Seq<char>>) -> bool {
    crate::state::number_of_view(crate::state::nested(attrs, path)) matches Some(n) ==> number_view_wf(n)
}

/// A number looked up among attributes whose numbers are well formed is well formed.
pub proof fn lemma_number_lookup_wf(attrs: Seq<(Seq<char>, crate::state::ValueView)>, k: Seq<char>)
    requires
        numbers_wf(attrs),
    ensures
        crate::state::number_of_view(crate::state::lookup(attrs, k)) matches Some(n) ==> number_view_wf(n),
{
    crate::state::lemma_find_attr(attrs, k);
}

/// A component as plain values.
pub open spec fn component_spec(
    name: Seq<char>,
    unit: BillingPeriod,
    quantity: Decimal,
    quantity_unit: Seq<char>,
    unit_price: Money,
    monthly_cost: Money,
) -> ComponentView {
    ComponentView {
        name,
        unit,
        quantity,
        quantity_unit,
        unit_price,
        monthly_cost,
        quantity_max: None,
        monthly_cost_max: None,
    }
}

/// A component with no range.
pub fn component(
    name: String,
    unit: BillingPeriod,
    quantity: Decimal,
    quantity_unit: &str,
    unit_price: Money,
    monthly_cost: Money,
) -> (c: CostComponent)
    ensures
        c@ == component_spec(name@, unit, quantity, quantity_unit@, unit_price, monthly_cost),
{
    CostComponent {
        name,
        unit,
        quantity,
        quantity_unit: crate::text::owned(quantity_unit),
        unit_price,
        monthly_cost,
        quantity_max: None,
        monthly_cost_max: None,
    }
}

/// A component whose quantity is counted in its unit's name.
pub fn component_in_unit(
    name: String,
    unit: BillingPeriod,
    quantity: Decimal,
    unit_price: Money,
    monthly_cost: Money,
) -> (c: CostComponent)
    ensures
        c@ == component_spec(name@, unit, quantity, period_label(unit), unit_price, monthly_cost),
{
    component(name, unit, quantity, unit.label(), unit_price, monthly_cost)
}

/// The error for a failed price lookup: `<context>: <pricing error>`.
pub open spec fn pricing_failure(context: Seq<char>, e: PricingError) -> ErrorView {
    ErrorView::PricingError(context + ": "@ + crate::pricing::pricing_message(e))
}

/// The error for a failed price lookup.
pub fn pricing_failure_error(context: String, e: &PricingError) -> (r: PreciousError)
    ensures
        r@ == pricing_failure(context@, *e),
{
    let mut m = context;
    m.append(": ");
    let t = e.message();
    m.append(t.as_str());
    PreciousError::PricingError(m)
}

/// The error for a missing attribute.
pub fn missing_field(resource: &TfResource, field: &str) -> (r: PreciousError)
    ensures
        r@ == (ErrorView::MissingField { resource: crate::resource::address_text(resource@.address), field: field@ }),
{
    PreciousError::MissingField { resource: resource.address.to_string(), field: crate::text::owned(field) }
}

/// The error for an attribute with an unusable value.
pub fn invalid_field(resource: &TfResource, field: &str, reason: String) -> (r: PreciousError)
    ensures
        r@ == (ErrorView::InvalidField { resource: crate::resource::address_text(resource@.address), field: field@, reason: reason@ }),
{
    PreciousError::InvalidField { resource: resource.address.to_string(), field: crate::text::owned(field), reason }
}

/// An Azure price query as plain values.
pub open spec fn azure_query(service: Seq<char>, region: Seq<char>, filters: Seq<(Seq<char>, Seq<char>)>) -> QueryView {
    QueryView { cloud: crate::resource::Cloud::Azure, service, region, filters }
}

/// Zero US dollars.
pub open spec fn zero_usd() -> Money {
    Money { currency: crate::money::Currency::USD, amount: zero_dec() }
}

/// `amount` US dollars.
pub open spec fn usd(amount: Decimal) -> Money {
    Money { currency: crate::money::Currency::USD, amount }
}

/// The decimal 0.
pub open spec fn zero_dec() -> Decimal {
    Decimal { mantissa: 0, scale: 0, negative: false }
}

/// The decimal 1.
pub open spec fn one_dec() -> Decimal {
    Decimal { mantissa: 1, scale: 0, negative: false }
}

/// The decimal `m / 10^s` for a non-negative `m`.
pub open spec fn dec(m: int, s: nat) -> Decimal {
    Decimal { mantissa: m as i128, scale: s as u32, negative: false }
}

/// The 730 hours of a month.
pub open spec fn month_hours() -> Decimal {
    dec(730, 0)
}

/// A two-component result.
pub fn done_two(a: CostComponent, b: CostComponent) -> (s: Step)
    ensures
        s@ == StepView::Done(Ok(seq![a@, b@])),
{
    let v = vec![a, b];
    assert(component_views(v@) =~= seq![a@, b@]);
    Step::Done(Ok(v))
}

/// A result made of the given components.
pub fn done_all(v: Vec<CostComponent>) -> (s: Step)
    ensures
        s@ == StepView::Done(Ok(component_views(v@))),
{
    Step::Done(Ok(v))
}

/// A one-component result.
pub fn done_one(c: CostComponent) -> (s: Step)
    ensures
        s@ == StepView::Done(Ok(seq![c@])),
{
    let v = vec![c];
    assert(component_views(v@) =~= seq![c@]);
    Step::Done(Ok(v))
}

} // verus!
