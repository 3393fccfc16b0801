//! EC2 instances: hours of Linux usage at the instance type's hourly price.

use vstd::prelude::*;

use super::{step_costs_wf, component, done_one, missing_field, pricing_failure, pricing_failure_error, component_spec, Step, StepView, answers_wf};
use crate::decimal::{checked_mul, decimal_product, Decimal};
use crate::error::ErrorView;
use crate::money::{BillingPeriod, Currency, Money};
use crate::pricing::{PriceFilter, PriceQuery, PricingError, QueryView, UnitPrice};
use crate::resource::{address_text, Cloud, ResourceKind};
use crate::state::{lookup, string_of_view, ResourceView, TfResource};
use crate::text::{concat, concat3, owned};

verus! {

/// The cost model of `aws_instance`.
pub struct AwsInstanceModel;

/// The price query for an instance type in a region.
pub open spec fn ec2_query(instance_type: Seq<char>, region: Seq<char>) -> QueryView {
    QueryView {
        cloud: Cloud::Aws,
        service: "AmazonEC2"@,
        region,
        filters: seq![
            ("instanceType"@, instance_type),
            ("operatingSystem"@, "Linux"@),
            ("tenancy"@, "Shared"@),
            ("preInstalledSw"@, "NA"@),
        ],
    }
}

/// What the model does next: ask for the hourly price of the instance type
/// (in `region`, by default `us-east-1`), then cost 730 hours of it.
pub open spec fn aws_instance_step(r: ResourceView, answers: Seq<Result<UnitPrice, PricingError>>) -> StepView {
    match string_of_view(lookup(r.attributes, "instance_type"@)) {
        None => StepView::Done(Err(ErrorView::MissingField { resource: address_text(r.address), field: "instance_type"@ })),
        Some(it) => {
            let region = match string_of_view(lookup(r.attributes, "region"@)) {
                Some(g) => g,
                None => "us-east-1"@,
            };
            if answers.len() == 0 {
                StepView::Query(ec2_query(it, region))
            } else {
                match answers[0] {
                    Err(e) => StepView::Done(Err(pricing_failure("failed to get price for "@ + it, e))),
                    Ok(p) => {
                        let hours = Decimal { mantissa: 730, scale: 0, negative: false };
                        match decimal_product(p.price.amount, hours) {
                            None => StepView::Overflow,
                            Some(c) => StepView::Done(Ok(seq![component_spec(
                                "Linux/UNIX usage ("@ + it + ")"@,
                                BillingPeriod::Hour,
                                hours,
                                "hours"@,
                                p.price,
                                Money { currency: Currency::USD, amount: c },
                            )])),
                        }
                    },
                }
            }
        },
    }
}

fn filter(field: &str, value: &str) -> (f: PriceFilter)
    ensures
        f.field@ == field@,
        f.value@ == value@,
{
    PriceFilter { field: owned(field), value: owned(value) }
}

impl AwsInstanceModel {
    /// The resource kind this model prices.
    pub fn kind(&self) -> (k: ResourceKind)
        ensures
            k.cloud == Cloud::Aws,
            k.tf_type.0@ == "aws_instance"@,
    {
        ResourceKind::new(Cloud::Aws, "aws_instance")
    }

    /// The next step of the estimate, given the answers so far.
    pub fn estimate_step(&self, resource: &TfResource, answers: &Vec<Result<UnitPrice, PricingError>>) -> (s: Step)
        requires
            answers_wf(answers@),
        ensures
            s@ == aws_instance_step(resource@, answers@),
            step_costs_wf(s@),
    {
        let it = match resource.get_string("instance_type") {
            Some(t) => t,
            None => return Step::Done(Err(missing_field(resource, "instance_type"))),
        };
        let region = match resource.get_string("region") {
            Some(g) => g,
            None => "us-east-1",
        };
        if answers.len() == 0 {
            let q = PriceQuery {
                cloud: Cloud::Aws,
                service: owned("AmazonEC2"),
                region: owned(region),
                filters: vec![
                    filter("instanceType", it),
                    filter("operatingSystem", "Linux"),
                    filter("tenancy", "Shared"),
                    filter("preInstalledSw", "NA"),
                ],
            };
            assert(q@.filters =~= ec2_query(it@, region@).filters);
            return Step::Query(q);
        }
        match &answers[0] {
            Err(e) => Step::Done(Err(pricing_failure_error(concat("failed to get price for ", it), e))),
            Ok(p) => {
                let hours = BillingPeriod::hours_per_month();
                assert(answers@[0] matches Ok(q) ==> q.price.wf());
                match checked_mul(p.price.amount, hours) {
                    None => Step::Overflow,
                    Some(c) => done_one(component(
                        concat3("Linux/UNIX usage (", it, ")"),
                        BillingPeriod::Hour,
                        hours,
                        "hours",
                        p.price,
                        Money::usd(c),
                    )),
                }
            },
        }
    }
}

} // verus!
