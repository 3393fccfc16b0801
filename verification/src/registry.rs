//! The registry of cost models by resource type, and the resource types that
//! cost nothing.

use vstd::prelude::*;

use crate::models::aws_instance::{aws_instance_step, AwsInstanceModel};
use crate::models::azure_simple::{
    container_registry_step, front_door_profile_step, log_analytics_step, ContainerRegistryModel, FrontDoorProfileModel,
    LogAnalyticsWorkspaceModel,
};
use crate::models::cognitive::{capacity_path, cognitive_step, CognitiveDeploymentModel};
use crate::models::container_app::{container_app_step, cpu_path, min_replicas_path, ContainerAppModel};
use crate::models::front_door_waf::{front_door_waf_step, FrontDoorWafModel};
use crate::models::managed_redis::{managed_redis_step, ManagedRedisModel};
use crate::models::monitor::{metric_alert_step, query_alert_step, MonitorMetricAlertModel, MonitorQueryAlertModel};
use crate::models::network_watcher::{network_watcher_step, NetworkWatcherFlowLogModel};
use crate::models::planetscale::{postgres_branch_step, vitess_branch_step, PostgresBranchModel, VitessBranchModel};
use crate::models::postgresql::{postgresql_step, PostgresqlFlexibleServerModel};
use crate::models::private_network::{private_dns_zone_step, private_endpoint_step, PrivateDnsZoneModel, PrivateEndpointModel};
use crate::models::security_center::{security_center_step, SecurityCenterPricingModel};
use crate::models::storage_account::{storage_account_step, StorageAccountModel};
use crate::models::{answers_wf, nested_number_wf, numbers_wf, step_costs_wf, usage_view, usage_wf, Step, StepView};
use crate::pricing::{PricingError, UnitPrice};
use crate::resource::{Cloud, ResourceKind};
use crate::state::{ResourceView, TfResource};
use crate::text::{owned, str_eq};
use crate::usage::UsageEntry;

verus! {

broadcast use vstd::seq_lib::group_seq_properties;

/// A registered cost model.
#[derive(Clone, Copy, Debug, PartialEq, Eq, Structural)]
pub enum CostModel {
    AwsInstance,
    CognitiveDeployment,
    ContainerApp,
    ContainerRegistry,
    FrontDoorProfile,
    FrontDoorWaf,
    LogAnalyticsWorkspace,
    ManagedRedis,
    MonitorMetricAlert,
    MonitorQueryAlert,
    NetworkWatcherFlowLog,
    PostgresqlFlexibleServer,
    PrivateDnsZone,
    PrivateEndpoint,
    SecurityCenterPricing,
    StorageAccount,
    PostgresBranch,
    VitessBranch,
}

/// The cloud of the resources a model prices.
pub open spec fn model_cloud(m: CostModel) -> Cloud {
    match m {
        CostModel::AwsInstance => Cloud::Aws,
        CostModel::PostgresBranch | CostModel::VitessBranch => Cloud::PlanetScale,
        _ => Cloud::Azure,
    }
}

/// The Terraform resource type a model prices.
pub open spec fn model_type(m: CostModel) -> Seq<char> {
    match m {
        CostModel::AwsInstance => "aws_instance"@,
        CostModel::CognitiveDeployment => "azurerm_cognitive_deployment"@,
        CostModel::ContainerApp => "azurerm_container_app"@,
        CostModel::ContainerRegistry => "azurerm_container_registry"@,
        CostModel::FrontDoorProfile => "azurerm_cdn_frontdoor_profile"@,
        CostModel::FrontDoorWaf => "azurerm_cdn_frontdoor_firewall_policy"@,
        CostModel::LogAnalyticsWorkspace => "azurerm_log_analytics_workspace"@,
        CostModel::ManagedRedis => "azurerm_managed_redis"@,
        CostModel::MonitorMetricAlert => "azurerm_monitor_metric_alert"@,
        CostModel::MonitorQueryAlert => "azurerm_monitor_scheduled_query_rules_alert_v2"@,
        CostModel::NetworkWatcherFlowLog => "azurerm_network_watcher_flow_log"@,
        CostModel::PostgresqlFlexibleServer => "azurerm_postgresql_flexible_server"@,
        CostModel::PrivateDnsZone => "azurerm_private_dns_zone"@,
        CostModel::PrivateEndpoint => "azurerm_private_endpoint"@,
        CostModel::SecurityCenterPricing => "azurerm_security_center_subscription_pricing"@,
        CostModel::StorageAccount => "azurerm_storage_account"@,
        CostModel::PostgresBranch => "planetscale_postgres_branch"@,
        CostModel::VitessBranch => "planetscale_vitess_branch"@,
    }
}

/// What the models need of a resource's numbers: that the decimals they read
/// are well formed.
pub open spec fn inputs_wf(r: ResourceView) -> bool {
    &&& numbers_wf(r.attributes)
    &&& nested_number_wf(r.attributes, capacity_path())
    &&& nested_number_wf(r.attributes, cpu_path())
    &&& nested_number_wf(r.attributes, min_replicas_path())
}

/// The next step of a model's estimate of a resource.
#[verifier::opaque]
pub open spec fn model_step(
    m: CostModel,
    r: ResourceView,
    u: Option<Seq<(Seq<char>, crate::decimal::Decimal)>>,
    answers: Seq<Result<UnitPrice, PricingError>>,
) -> StepView {
    match m {
        CostModel::AwsInstance => aws_instance_step(r, answers),
        CostModel::CognitiveDeployment => cognitive_step(r, answers),
        CostModel::ContainerApp => container_app_step(r),
        CostModel::ContainerRegistry => container_registry_step(r),
        CostModel::FrontDoorProfile => front_door_profile_step(r),
        CostModel::FrontDoorWaf => front_door_waf_step(r, answers),
        CostModel::LogAnalyticsWorkspace => log_analytics_step(),
        CostModel::ManagedRedis => managed_redis_step(r, answers),
        CostModel::MonitorMetricAlert => metric_alert_step(r, answers),
        CostModel::MonitorQueryAlert => query_alert_step(r, answers),
        CostModel::NetworkWatcherFlowLog => network_watcher_step(r, u, answers),
        CostModel::PostgresqlFlexibleServer => postgresql_step(r, answers),
        CostModel::PrivateDnsZone => private_dns_zone_step(u, answers),
        CostModel::PrivateEndpoint => private_endpoint_step(u, answers),
        CostModel::SecurityCenterPricing => security_center_step(r, u, answers),
        CostModel::StorageAccount => storage_account_step(r, answers),
        CostModel::PostgresBranch => postgres_branch_step(r, u, answers),
        CostModel::VitessBranch => vitess_branch_step(r, answers),
    }
}

/// Every model finishes once it has three answers: no model asks more than
/// three price queries for a resource, so each resource's estimate ends.
pub proof fn lemma_models_ask_at_most_three_queries(
    m: CostModel,
    r: ResourceView,
    u: Option<Seq<(Seq<char>, crate::decimal::Decimal)>>,
    answers: Seq<Result<UnitPrice, PricingError>>,
)
    requires
        answers.len() >= 3,
    ensures
        !(model_step(m, r, u, answers) is Query),
{
    reveal(model_step);
}

impl CostModel {
    /// The resource kind the model prices.
    pub fn kind(&self) -> (k: ResourceKind)
        ensures
            k.cloud == model_cloud(*self),
            k.tf_type.0@ == model_type(*self),
    {
        match self {
            CostModel::AwsInstance => AwsInstanceModel.kind(),
            CostModel::CognitiveDeployment => CognitiveDeploymentModel.kind(),
            CostModel::ContainerApp => ContainerAppModel.kind(),
            CostModel::ContainerRegistry => ContainerRegistryModel.kind(),
            CostModel::FrontDoorProfile => FrontDoorProfileModel.kind(),
            CostModel::FrontDoorWaf => FrontDoorWafModel.kind(),
            CostModel::LogAnalyticsWorkspace => LogAnalyticsWorkspaceModel.kind(),
            CostModel::ManagedRedis => ManagedRedisModel.kind(),
            CostModel::MonitorMetricAlert => MonitorMetricAlertModel.kind(),
            CostModel::MonitorQueryAlert => MonitorQueryAlertModel.kind(),
            CostModel::NetworkWatcherFlowLog => NetworkWatcherFlowLogModel.kind(),
            CostModel::PostgresqlFlexibleServer => PostgresqlFlexibleServerModel.kind(),
            CostModel::PrivateDnsZone => PrivateDnsZoneModel.kind(),
            CostModel::PrivateEndpoint => PrivateEndpointModel.kind(),
            CostModel::SecurityCenterPricing => SecurityCenterPricingModel.kind(),
            CostModel::StorageAccount => StorageAccountModel.kind(),
            CostModel::PostgresBranch => PostgresBranchModel.kind(),
            CostModel::VitessBranch => VitessBranchModel.kind(),
        }
    }

    /// The next step of the model's estimate of `resource`, given its usage
    /// and the answers to the price queries asked so far.
    pub fn estimate_step(
        &self,
        resource: &TfResource,
        usage: Option<&UsageEntry>,
        answers: &Vec<Result<UnitPrice, PricingError>>,
    ) -> (s: Step)
        requires
            answers_wf(answers@),
            usage_wf(usage),
            inputs_wf(resource@),
        ensures
            s@ == model_step(*self, resource@, usage_view(usage), answers@),
            step_costs_wf(s@),
    {
        reveal(model_step);
        match self {
            CostModel::AwsInstance => AwsInstanceModel.estimate_step(resource, answers),
            CostModel::CognitiveDeployment => CognitiveDeploymentModel.estimate_step(resource, answers),
            CostModel::ContainerApp => ContainerAppModel.estimate_step(resource),
            CostModel::ContainerRegistry => ContainerRegistryModel.estimate_step(resource),
            CostModel::FrontDoorProfile => FrontDoorProfileModel.estimate_step(resource),
            CostModel::FrontDoorWaf => FrontDoorWafModel.estimate_step(resource, answers),
            CostModel::LogAnalyticsWorkspace => LogAnalyticsWorkspaceModel.estimate_step(),
            CostModel::ManagedRedis => ManagedRedisModel.estimate_step(resource, answers),
            CostModel::MonitorMetricAlert => MonitorMetricAlertModel.estimate_step(resource, answers),
            CostModel::MonitorQueryAlert => MonitorQueryAlertModel.estimate_step(resource, answers),
            CostModel::NetworkWatcherFlowLog => NetworkWatcherFlowLogModel.estimate_step(resource, usage, answers),
            CostModel::PostgresqlFlexibleServer => PostgresqlFlexibleServerModel.estimate_step(resource, answers),
            CostModel::PrivateDnsZone => PrivateDnsZoneModel.estimate_step(usage, answers),
            CostModel::PrivateEndpoint => PrivateEndpointModel.estimate_step(usage, answers),
            CostModel::SecurityCenterPricing => SecurityCenterPricingModel.estimate_step(resource, usage, answers),
            CostModel::StorageAccount => StorageAccountModel.estimate_step(resource, answers),
            CostModel::PostgresBranch => PostgresBranchModel.estimate_step(resource, usage, answers),
            CostModel::VitessBranch => VitessBranchModel.estimate_step(resource, answers),
        }
    }
}

/// The first position of key `k` among keyed entries.
pub open spec fn key_position<T>(m: Seq<(Seq<char>, T)>, k: Seq<char>) -> Option<int>
    decreases m.len(),
{
    if m.len() == 0 {
        None
    } else {
        match key_position(m.drop_last(), k) {
            Some(p) => Some(p),
            None => if m.last().0 == k { Some(m.len() - 1) } else { None },
        }
    }
}

/// Facts about a found (or missing) key.
pub proof fn lemma_key_position<T>(m: Seq<(Seq<char>, T)>, k: Seq<char>)
    ensures
        key_position(m, k) matches Some(p) ==> 0 <= p < m.len() && m[p].0 == k && forall|i: int| 0 <= i < p ==> (#[trigger] m[i]).0 != k,
        key_position(m, k) is None ==> forall|i: int| 0 <= i < m.len() ==> (#[trigger] m[i]).0 != k,
    decreases m.len(),
{
    if m.len() > 0 {
        lemma_key_position(m.drop_last(), k);
        assert forall|i: int| 0 <= i < m.len() - 1 implies (#[trigger] m[i]) == m.drop_last()[i] by {}
    }
}

/// The first position of key `k` is the only `i` with that key before which
/// no entry has it.
proof fn lemma_key_position_at<T>(m: Seq<(Seq<char>, T)>, k: Seq<char>, i: int)
    requires
        0 <= i < m.len(),
        m[i].0 == k,
        forall|j: int| 0 <= j < i ==> (#[trigger] m[j]).0 != k,
    ensures
        key_position(m, k) == Some(i),
{
    lemma_key_position(m, k);
    match key_position(m, k) {
        Some(p) => {
            if p < i {
                assert(m[p].0 != k);
            } else if p > i {
            }
        },
        None => {},
    }
}

/// `k` set to `v`: in place where `k` is present, at the end otherwise
/// (`IndexMap::insert`).
pub open spec fn key_insert<T>(m: Seq<(Seq<char>, T)>, k: Seq<char>, v: T) -> Seq<(Seq<char>, T)> {
    match key_position(m, k) {
        Some(p) => m.update(p, (k, v)),
        None => m.push((k, v)),
    }
}

/// The value of key `k`, if it is there.
pub open spec fn key_lookup<T>(m: Seq<(Seq<char>, T)>, k: Seq<char>) -> Option<T> {
    match key_position(m, k) {
        Some(p) => Some(m[p].1),
        None => None,
    }
}

/// The models after registering each of `list` in turn.
pub open spec fn registered(ms: Seq<(Seq<char>, CostModel)>, list: Seq<CostModel>) -> Seq<(Seq<char>, CostModel)>
    decreases list.len(),
{
    if list.len() == 0 {
        ms
    } else {
        key_insert(registered(ms, list.drop_last()), model_type(list.last()), list.last())
    }
}

/// After a model is registered, looking up its resource type finds it, and
/// every other type finds what it found before.
pub proof fn lemma_register_then_get(ms: Seq<(Seq<char>, CostModel)>, m: CostModel, other: Seq<char>)
    ensures
        key_lookup(key_insert(ms, model_type(m), m), model_type(m)) == Some(m),
        other != model_type(m) ==> key_lookup(key_insert(ms, model_type(m), m), other) == key_lookup(ms, other),
{
    let k = model_type(m);
    let ms2 = key_insert(ms, k, m);
    lemma_key_position(ms, k);
    lemma_key_position(ms, other);
    match key_position(ms, k) {
        Some(p) => {
            assert(ms2.len() == ms.len());
            assert forall|j: int| 0 <= j < p implies (#[trigger] ms2[j]).0 != k by {
                assert(ms2[j] == ms[j]);
            }
            lemma_key_position_at(ms2, k, p);
            if other != k {
                assert forall|j: int| 0 <= j < ms2.len() implies (#[trigger] ms2[j]).0 == ms[j].0 by {}
                match key_position(ms, other) {
                    Some(q) => {
                        assert forall|j: int| 0 <= j < q implies (#[trigger] ms2[j]).0 != other by {
                            assert(ms2[j].0 == ms[j].0);
                        }
                        assert(ms2[q].0 == other);
                        lemma_key_position_at(ms2, other, q);
                    },
                    None => {
                        lemma_key_position(ms2, other);
                        if let Some(q) = key_position(ms2, other) {
                            assert(ms2[q].0 == ms[q].0);
                        }
                    },
                }
            }
        },
        None => {
            assert(ms2 == ms.push((k, m)));
            assert forall|j: int| 0 <= j < ms.len() implies (#[trigger] ms2[j]).0 != k by {
                assert(ms2[j] == ms[j]);
            }
            lemma_key_position_at(ms2, k, ms.len() as int);
            if other != k {
                match key_position(ms, other) {
                    Some(q) => {
                        assert forall|j: int| 0 <= j < q implies (#[trigger] ms2[j]).0 != other by {
                            assert(ms2[j] == ms[j]);
                        }
                        assert(ms2[q] == ms[q]);
                        lemma_key_position_at(ms2, other, q);
                    },
                    None => {
                        lemma_key_position(ms2, other);
                        if let Some(q) = key_position(ms2, other) {
                            if q < ms.len() {
                                assert(ms2[q] == ms[q]);
                            }
                        }
                    },
                }
            }
        },
    }
}

/// The names of a list of strings, as a set.
pub open spec fn name_set(v: Seq<String>) -> Set<Seq<char>> {
    v.map_values(|s: String| s@).to_set()
}

/// The resource types that cost nothing by default.
pub open spec fn default_free() -> Seq<Seq<char>> {
    seq![
        "random_id"@,
        "random_integer"@,
        "random_password"@,
        "random_pet"@,
        "random_shuffle"@,
        "random_string"@,
        "random_uuid"@,
        "time_offset"@,
        "time_rotating"@,
        "time_sleep"@,
        "time_static"@,
        "null_resource"@,
        "terraform_data"@,
    ]
}

/// The cost models by resource type, in registration order, and the resource
/// types that cost nothing.
pub struct Registry {
    models: Vec<(String, CostModel)>,
    free: Vec<String>,
}

/// A registry as plain values.
pub ghost struct RegistryView {
    pub models: Seq<(Seq<char>, CostModel)>,
    pub free: Set<Seq<char>>,
}

/// The models of a registry as plain values.
pub open spec fn model_entries(v: Seq<(String, CostModel)>) -> Seq<(Seq<char>, CostModel)> {
    v.map_values(|e: (String, CostModel)| (e.0@, e.1))
}

impl View for Registry {
    type V = RegistryView;

    closed spec fn view(&self) -> RegistryView {
        RegistryView { models: model_entries(self.models@), free: name_set(self.free@) }
    }
}

impl Registry {
    /// A registry with no models, in which the utility resource types of the
    /// `random`, `time`, `null` and `terraform` providers cost nothing.
    pub fn new() -> (r: Registry)
        ensures
            r@.models == Seq::<(Seq<char>, CostModel)>::empty(),
            r@.free == default_free().to_set(),
    {
        let mut free: Vec<String> = Vec::new();
        free.push(owned("random_id"));
        free.push(owned("random_integer"));
        free.push(owned("random_password"));
        free.push(owned("random_pet"));
        free.push(owned("random_shuffle"));
        free.push(owned("random_string"));
        free.push(owned("random_uuid"));
        free.push(owned("time_offset"));
        free.push(owned("time_rotating"));
        free.push(owned("time_sleep"));
        free.push(owned("time_static"));
        free.push(owned("null_resource"));
        free.push(owned("terraform_data"));
        let r = Registry { models: Vec::new(), free };
        assert(r.free@.map_values(|s: String| s@) =~= default_free());
        assert(model_entries(r.models@) =~= Seq::<(Seq<char>, CostModel)>::empty());
        r
    }

    /// The position of the model registered for `tf_type`.
    fn position(&self, tf_type: &str) -> (r: Option<usize>)
        ensures
            r matches Some(p) ==> key_position(self@.models, tf_type@) == Some(p as int) && p < self.models@.len(),
            r is None ==> key_position(self@.models, tf_type@) is None,
    {
        let ghost m = self@.models;
        proof {
            lemma_key_position(m, tf_type@);
        }
        let mut i: usize = 0;
        while i < self.models.len()
            invariant
                m == model_entries(self.models@),
                i <= self.models@.len(),
                forall|j: int| 0 <= j < i ==> (#[trigger] m[j]).0 != tf_type@,
            decreases self.models.len() - i,
        {
            if str_eq(self.models[i].0.as_str(), tf_type) {
                proof {
                    lemma_key_position_at(m, tf_type@, i as int);
                }
                return Some(i);
            }
            i = i + 1;
        }
        proof {
            match key_position(m, tf_type@) {
                Some(p) => {
                    assert(m[p].0 != tf_type@);
                },
                None => {},
            }
        }
        None
    }

    /// Registers `model` for the resource type it prices, replacing (in place)
    /// a model registered for that type before.
    pub fn register(&mut self, model: CostModel)
        ensures
            final(self)@.models == key_insert(old(self)@.models, model_type(model), model),
            final(self)@.free == old(self)@.free,
    {
        let kind = model.kind();
        let key = kind.tf_type.0;
        match self.position(key.as_str()) {
            Some(p) => {
                self.models.set(p, (key, model));
                assert(model_entries(self.models@) =~= model_entries(old(self).models@).update(p as int, (model_type(model), model)));
            },
            None => {
                self.models.push((key, model));
                assert(model_entries(self.models@) =~= model_entries(old(self).models@).push((model_type(model), model)));
            },
        }
    }

    /// Registers each of `models` in turn.
    pub fn register_all(&mut self, models: &Vec<CostModel>)
        ensures
            final(self)@.models == registered(old(self)@.models, models@),
            final(self)@.free == old(self)@.free,
    {
        let mut i: usize = 0;
        while i < models.len()
            invariant
                i <= models@.len(),
                self@.models == registered(old(self)@.models, models@.subrange(0, i as int)),
                self@.free == old(self)@.free,
            decreases models.len() - i,
        {
            self.register(models[i]);
            assert(models@.subrange(0, i + 1).drop_last() =~= models@.subrange(0, i as int));
            i = i + 1;
        }
        assert(models@.subrange(0, i as int) =~= models@);
    }

    /// Adds resource types that cost nothing.
    pub fn register_free(&mut self, tf_types: &[&str])
        ensures
            final(self)@.models == old(self)@.models,
            final(self)@.free == old(self)@.free + tf_types@.map_values(|s: &str| s@).to_set(),
    {
        let ghost names = tf_types@.map_values(|s: &str| s@);
        let mut i: usize = 0;
        while i < tf_types.len()
            invariant
                i <= tf_types@.len(),
                names == tf_types@.map_values(|s: &str| s@),
                self@.models == old(self)@.models,
                self@.free == old(self)@.free + names.subrange(0, i as int).to_set(),
            decreases tf_types.len() - i,
        {
            let ghost before = self.free@;
            self.free.push(owned(tf_types[i]));
            proof {
                let x = names[i as int];
                let ms = before.map_values(|s: String| s@);
                assert(self.free@.map_values(|s: String| s@) =~= ms.push(x));
                ms.lemma_push_to_set_commute(x);
                let ns = names.subrange(0, i as int);
                assert(names.subrange(0, i + 1) =~= ns.push(x));
                ns.lemma_push_to_set_commute(x);
                assert(name_set(self.free@) =~= name_set(before).insert(x));
                assert(self@.free =~= old(self)@.free + names.subrange(0, i + 1).to_set());
            }
            i = i + 1;
        }
        assert(names.subrange(0, i as int) =~= names);
    }

    /// The model registered for `tf_type`.
    pub fn get(&self, tf_type: &str) -> (r: Option<CostModel>)
        ensures
            r == key_lookup(self@.models, tf_type@),
    {
        match self.position(tf_type) {
            Some(p) => Some(self.models[p].1),
            None => None,
        }
    }

    /// Whether `tf_type` costs nothing.
    pub fn is_free(&self, tf_type: &str) -> (b: bool)
        ensures
            b == self@.free.contains(tf_type@),
    {
        let ghost names = self.free@.map_values(|s: String| s@);
        let mut i: usize = 0;
        while i < self.free.len()
            invariant
                names == self.free@.map_values(|s: String| s@),
                i <= self.free@.len(),
                forall|j: int| 0 <= j < i ==> names[j] != tf_type@,
            decreases self.free.len() - i,
        {
            if str_eq(self.free[i].as_str(), tf_type) {
                assert(names[i as int] == tf_type@);
                return true;
            }
            i = i + 1;
        }
        assert(!names.contains(tf_type@));
        false
    }

    /// The resource types with a model, in registration order.
    pub fn supported_types(&self) -> (v: Vec<String>)
        ensures
            v@.map_values(|s: String| s@) == self@.models.map_values(|e: (Seq<char>, CostModel)| e.0),
    {
        let mut v: Vec<String> = Vec::new();
        let mut i: usize = 0;
        while i < self.models.len()
            invariant
                i <= self.models@.len(),
                v@.len() == i,
                forall|j: int| 0 <= j < i ==> (#[trigger] v@[j])@ == self.models@[j].0@,
            decreases self.models.len() - i,
        {
            v.push(owned(self.models[i].0.as_str()));
            i = i + 1;
        }
        assert(v@.map_values(|s: String| s@) =~= self@.models.map_values(|e: (Seq<char>, CostModel)| e.0));
        v
    }
}

} // verus!
