//! PlanetScale database branches.

use vstd::prelude::*;

use super::{step_costs_wf, answers_wf, component, component_spec, dec, done_all, done_one, one_dec, pricing_failure, pricing_failure_error, usage_metric, usage_view, usage_wf, usd, Step, StepView};
use crate::cost::component_views;
use crate::decimal::{checked_mul, checked_sub, decimal_difference, decimal_product, is_positive, Decimal};
use crate::money::{BillingPeriod, Money};
use crate::pricing::{PriceFilter, PriceQuery, PricingError, QueryView, UnitPrice};
use crate::resource::{Cloud, ResourceKind};
use crate::state::{lookup, string_of_view, ResourceView, TfResource};
use crate::text::{concat, concat3, owned};
use crate::usage::UsageEntry;

verus! {

/// The price query of a PlanetScale service, for a cluster size when given.
pub open spec fn planetscale_query(service: Seq<char>, size: Option<Seq<char>>) -> QueryView {
    QueryView {
        cloud: Cloud::PlanetScale,
        service,
        region: ""@,
        filters: match size {
            Some(s) => seq![("clusterSize"@, s)],
            None => Seq::empty(),
        },
    }
}

fn planetscale_price_query(service: &str, size: Option<&str>) -> (q: PriceQuery)
    ensures
        q@ == planetscale_query(service@, match size { Some(s) => Some(s@), None => None }),
{
    let filters = match size {
        Some(s) => vec![PriceFilter { field: owned("clusterSize"), value: owned(s) }],
        None => Vec::new(),
    };
    let q = PriceQuery { cloud: Cloud::PlanetScale, service: owned(service), region: owned(""), filters };
    assert(q@.filters =~= planetscale_query(service@, match size { Some(s) => Some(s@), None => None }).filters);
    q
}

/// The cluster size of a branch, `PS-10` by default.
pub open spec fn cluster_size(r: ResourceView) -> Seq<char> {
    match string_of_view(lookup(r.attributes, "cluster_size"@)) {
        Some(s) => s,
        None => "PS-10"@,
    }
}

/// The cost model of `planetscale_postgres_branch`.
pub struct PostgresBranchModel;

/// A Postgres branch costs its cluster's monthly price (a 3-node HA cluster);
/// storage beyond the 30 GB included (10 GB per node), per the usage's
/// `storage_gb`, costs the per-GB storage price.
pub open spec fn postgres_branch_step(
    r: ResourceView,
    u: Option<Seq<(Seq<char>, Decimal)>>,
    answers: Seq<Result<UnitPrice, PricingError>>,
) -> StepView {
    let size = cluster_size(r);
    if answers.len() == 0 {
        StepView::Query(planetscale_query("PlanetScale Postgres"@, Some(size)))
    } else {
        match answers[0] {
            Err(e) => StepView::Done(Err(pricing_failure("failed to get PlanetScale Postgres price for "@ + size, e))),
            Ok(p) => {
                let cluster = component_spec("Cluster ("@ + size + ", "@ + "3"@ + "-node HA)"@, BillingPeriod::Month, one_dec(), "months"@, p.price, p.price);
                match usage_metric(u, "storage_gb"@) {
                    None => StepView::Done(Ok(seq![cluster])),
                    Some(total) => match decimal_difference(total, dec(30, 0)) {
                        None => StepView::Overflow,
                        Some(overage) => if overage.num() <= 0 {
                            StepView::Done(Ok(seq![cluster]))
                        } else if answers.len() == 1 {
                            StepView::Query(planetscale_query("PlanetScale Storage"@, None))
                        } else {
                            match answers[1] {
                                Err(e) => StepView::Done(Err(pricing_failure("failed to get PlanetScale storage price"@, e))),
                                Ok(sp) => match decimal_product(sp.price.amount, overage) {
                                    None => StepView::Overflow,
                                    Some(c) => StepView::Done(Ok(seq![
                                        cluster,
                                        component_spec("Storage (overage)"@, BillingPeriod::GBMonth, overage, "GB/month"@, sp.price, usd(c)),
                                    ])),
                                },
                            }
                        },
                    },
                }
            },
        }
    }
}

/// A Postgres branch asks first for the price of its own cluster size: the
/// query filters `clusterSize` by the branch's `cluster_size` (`PS-10` where
/// it has none), and the cluster component priced from the answer names that
/// same size.
pub proof fn lemma_postgres_queries_its_cluster_size(r: ResourceView, u: Option<Seq<(Seq<char>, Decimal)>>, p: UnitPrice)
    requires
        usage_metric(u, "storage_gb"@) is None,
    ensures
        postgres_branch_step(r, u, Seq::empty()) matches StepView::Query(q) && q.cloud == Cloud::PlanetScale && q.filters.len() == 1
            && q.filters[0].0 == "clusterSize"@ && (string_of_view(lookup(r.attributes, "cluster_size"@)) matches Some(s) ==> q.filters[0].1 == s)
            && (string_of_view(lookup(r.attributes, "cluster_size"@)) is None ==> q.filters[0].1 == "PS-10"@)
            && (postgres_branch_step(r, u, seq![Ok::<UnitPrice, PricingError>(p)]) matches StepView::Done(Ok(cs)) && cs.len() == 1
            && cs[0].name == "Cluster ("@ + q.filters[0].1 + ", 3-node HA)"@ && cs[0].monthly_cost == p.price),
{
    assert("Cluster ("@ + cluster_size(r) + ", "@ + "3"@ + "-node HA)"@ =~= "Cluster ("@ + cluster_size(r) + ", 3-node HA)"@) by {
        reveal_strlit(", ");
        reveal_strlit("3");
        reveal_strlit("-node HA)");
        reveal_strlit(", 3-node HA)");
    }
}

impl PostgresBranchModel {
    /// The resource kind this model prices.
    pub fn kind(&self) -> (k: ResourceKind)
        ensures
            k.cloud == Cloud::PlanetScale,
            k.tf_type.0@ == "planetscale_postgres_branch"@,
    {
        ResourceKind::new(Cloud::PlanetScale, "planetscale_postgres_branch")
    }

    /// The next step of the estimate, given the answers so far.
    pub fn estimate_step(
        &self,
        resource: &TfResource,
        usage: Option<&UsageEntry>,
        answers: &Vec<Result<UnitPrice, PricingError>>,
    ) -> (s: Step)
        requires
            answers_wf(answers@),
            usage_wf(usage),
        ensures
            s@ == postgres_branch_step(resource@, usage_view(usage), answers@),
            step_costs_wf(s@),
    {
        let size = match resource.get_string("cluster_size") {
            Some(s) => s,
            None => "PS-10",
        };
        if answers.len() == 0 {
            return Step::Query(planetscale_price_query("PlanetScale Postgres", Some(size)));
        }
        let price = match &answers[0] {
            Err(e) => return Step::Done(Err(pricing_failure_error(concat("failed to get PlanetScale Postgres price for ", size), e))),
            Ok(p) => *p,
        };
        let mut name = concat3("Cluster (", size, ", ");
        name.append("3");
        name.append("-node HA)");
        let cluster = component(name, BillingPeriod::Month, Decimal::one(), "months", price.price, price.price);
        let total = match usage {
            Some(u) => u.get_metric("storage_gb"),
            None => None,
        };
        let total = match total {
            None => return done_one(cluster),
            Some(t) => t,
        };
        proof {
            if let Some(u) = usage {
                crate::usage::lemma_metric_value_wf(crate::usage::metrics_view(u.metrics@), "storage_gb"@);
            }
        }
        let overage = match checked_sub(total, Decimal::from_u32(30)) {
            None => return Step::Overflow,
            Some(o) => o,
        };
        if !is_positive(&overage) {
            return done_one(cluster);
        }
        if answers.len() == 1 {
            return Step::Query(planetscale_price_query("PlanetScale Storage", None));
        }
        let storage_price = match &answers[1] {
            Err(e) => return Step::Done(Err(pricing_failure_error(owned("failed to get PlanetScale storage price"), e))),
            Ok(p) => *p,
        };
        assert(storage_price.price.wf());
        let cost = match checked_mul(storage_price.price.amount, overage) {
            None => return Step::Overflow,
            Some(c) => c,
        };
        let ghost cv = cluster@;
        let storage = component(owned("Storage (overage)"), BillingPeriod::GBMonth, overage, "GB/month", storage_price.price, Money::usd(cost));
        let v = vec![cluster, storage];
        assert(component_views(v@) =~= seq![cv, storage@]);
        done_all(v)
    }
}

/// The cost model of `planetscale_vitess_branch`.
pub struct VitessBranchModel;

/// A Vitess branch costs its cluster's monthly Scaler Pro price.
pub open spec fn vitess_branch_step(r: ResourceView, answers: Seq<Result<UnitPrice, PricingError>>) -> StepView {
    let size = cluster_size(r);
    if answers.len() == 0 {
        StepView::Query(planetscale_query("PlanetScale Vitess"@, Some(size)))
    } else {
        match answers[0] {
            Err(e) => StepView::Done(Err(pricing_failure("failed to get PlanetScale Vitess price for "@ + size, e))),
            Ok(p) => StepView::Done(Ok(seq![component_spec("Scaler Pro ("@ + size + ")"@, BillingPeriod::Month, one_dec(), "months"@, p.price, p.price)])),
        }
    }
}

/// A Vitess branch asks for the price of its own cluster size: the query
/// filters `clusterSize` by the branch's `cluster_size` (`PS-10` where it has
/// none), and the component priced from the answer names that same size.
pub proof fn lemma_vitess_queries_its_cluster_size(r: ResourceView, p: UnitPrice)
    ensures
        vitess_branch_step(r, Seq::empty()) matches StepView::Query(q) && q.cloud == Cloud::PlanetScale && q.filters.len() == 1
            && q.filters[0].0 == "clusterSize"@ && (string_of_view(lookup(r.attributes, "cluster_size"@)) matches Some(s) ==> q.filters[0].1 == s)
            && (string_of_view(lookup(r.attributes, "cluster_size"@)) is None ==> q.filters[0].1 == "PS-10"@)
            && (vitess_branch_step(r, seq![Ok::<UnitPrice, PricingError>(p)]) matches StepView::Done(Ok(cs)) && cs.len() == 1
            && cs[0].name == "Scaler Pro ("@ + q.filters[0].1 + ")"@ && cs[0].monthly_cost == p.price),
{
}

impl VitessBranchModel {
    /// The resource kind this model prices.
    pub fn kind(&self) -> (k: ResourceKind)
        ensures
            k.cloud == Cloud::PlanetScale,
            k.tf_type.0@ == "planetscale_vitess_branch"@,
    {
        ResourceKind::new(Cloud::PlanetScale, "planetscale_vitess_branch")
    }

    /// The next step of the estimate, given the answers so far.
    pub fn estimate_step(&self, resource: &TfResource, answers: &Vec<Result<UnitPrice, PricingError>>) -> (s: Step)
        requires
            answers_wf(answers@),
        ensures
            s@ == vitess_branch_step(resource@, answers@),
            step_costs_wf(s@),
    {
        let size = match resource.get_string("cluster_size") {
            Some(s) => s,
            None => "PS-10",
        };
        if answers.len() == 0 {
            return Step::Query(planetscale_price_query("PlanetScale Vitess", Some(size)));
        }
        match &answers[0] {
            Err(e) => Step::Done(Err(pricing_failure_error(concat("failed to get PlanetScale Vitess price for ", size), e))),
            Ok(p) => {
                assert(answers@[0] matches Ok(q) ==> q.price.wf());
                done_one(component(concat3("Scaler Pro (", size, ")"), BillingPeriod::Month, Decimal::one(), "months", p.price, p.price))
            },
        }
    }
}

} // verus!
