//! The providers, and the engine that decides which resources are priced, by
//! which model and provider, and what breakdown their costs add up to.
//!
//! Prices come from pricing services that only the program can reach. The
//! engine is therefore a step function: it works through the resources of a
//! state until a model needs a price, says which provider to ask what, and
//! goes on when called again with the answer added to the progress.

use vstd::prelude::*;

use crate::cost::{breakdown_wf, component_wf, resource_cost_wf, component_costs, component_views, cost_views, duplicate_address, resource_totals, Breakdown, BreakdownView, ComponentView, ResourceCost, ResourceCostView};
use crate::error::{ErrorView, PreciousError};
use crate::models::{answers_wf, step_costs_wf, usage_view, usage_wf, Step, StepView};
use crate::money::{all_wf, fold_sum, Currency, Money};
use crate::pricing::{PriceQuery, PricingError, QueryView, UnitPrice};
use crate::registry::{default_free, inputs_wf, key_lookup, model_step, registered, CostModel, Registry, RegistryView};
use crate::resource::{cloud_name, Cloud};
use crate::state::{encodes_zero, entries_view, lookup, ResourceView, State, TfResource, TfValue, ValueView};
use crate::text::concat;
use crate::usage::{find_usage, metrics_view, metrics_wf, usage_position, UsageEntry, UsageFile};

verus! {

/// What the engine does with a resource type that has no model.
#[derive(Clone, Copy, Debug, PartialEq, Eq, Structural)]
pub enum UnsupportedBehavior {
    /// Fail the estimate.
    Error,
    /// Leave the resource out.
    Skip,
    /// Leave the resource out, and let the user know.
    Warn,
}

/// The AWS provider.
pub struct AwsProvider;

/// The Azure provider.
pub struct AzureProvider;

/// The Google Cloud provider (no models yet).
pub struct GcpProvider;

/// The PlanetScale provider.
pub struct PlanetScaleProvider;

/// A provider: the models and free resource types it registers for its cloud.
pub enum Provider {
    Aws(AwsProvider),
    Azure(AzureProvider),
    Gcp(GcpProvider),
    PlanetScale(PlanetScaleProvider),
}

/// The cloud a provider serves.
pub open spec fn provider_cloud(p: Provider) -> Cloud {
    match p {
        Provider::Aws(_) => Cloud::Aws,
        Provider::Azure(_) => Cloud::Azure,
        Provider::Gcp(_) => Cloud::Gcp,
        Provider::PlanetScale(_) => Cloud::PlanetScale,
    }
}

/// The Azure models, in registration order.
pub open spec fn azure_models() -> Seq<CostModel> {
    seq![
        CostModel::PostgresqlFlexibleServer,
        CostModel::ContainerApp,
        CostModel::ManagedRedis,
        CostModel::FrontDoorProfile,
        CostModel::StorageAccount,
        CostModel::ContainerRegistry,
        CostModel::LogAnalyticsWorkspace,
        CostModel::PrivateEndpoint,
        CostModel::PrivateDnsZone,
        CostModel::CognitiveDeployment,
        CostModel::FrontDoorWaf,
        CostModel::SecurityCenterPricing,
        CostModel::MonitorMetricAlert,
        CostModel::MonitorQueryAlert,
        CostModel::NetworkWatcherFlowLog,
    ]
}

/// The Azure resource types that cost nothing.
pub open spec fn azure_free() -> Seq<Seq<char>> {
    seq![
        "azurerm_resource_group"@,
        "azurerm_virtual_network"@,
        "azurerm_subnet"@,
        "azurerm_network_security_group"@,
        "azurerm_subnet_network_security_group_association"@,
        "azurerm_role_assignment"@,
        "azurerm_private_dns_zone_virtual_network_link"@,
        "azurerm_cdn_frontdoor_endpoint"@,
        "azurerm_cdn_frontdoor_origin_group"@,
        "azurerm_cdn_frontdoor_origin"@,
        "azurerm_cdn_frontdoor_route"@,
        "azurerm_cdn_frontdoor_security_policy"@,
        "azurerm_monitor_action_group"@,
        "azurerm_monitor_diagnostic_setting"@,
        "azurerm_storage_container"@,
        "azurerm_postgresql_flexible_server_configuration"@,
        "azurerm_postgresql_flexible_server_firewall_rule"@,
        "azurerm_postgresql_flexible_server_database"@,
        "azurerm_network_watcher"@,
        "azurerm_security_center_contact"@,
        "azurerm_application_insights_workbook"@,
        "azurerm_container_app_environment"@,
        "azurerm_cognitive_account"@,
    ]
}

/// The models a provider registers, in order.
pub open spec fn provider_models(p: Provider) -> Seq<CostModel> {
    match p {
        Provider::Aws(_) => seq![CostModel::AwsInstance],
        Provider::Azure(_) => azure_models(),
        Provider::Gcp(_) => Seq::empty(),
        Provider::PlanetScale(_) => seq![CostModel::PostgresBranch, CostModel::VitessBranch],
    }
}

/// The free resource types a provider registers.
pub open spec fn provider_free(p: Provider) -> Seq<Seq<char>> {
    match p {
        Provider::Azure(_) => azure_free(),
        _ => Seq::empty(),
    }
}

impl AwsProvider {
    /// The AWS provider.
    pub fn new() -> (p: AwsProvider) {
        AwsProvider
    }

    /// Its cloud.
    pub fn cloud(&self) -> (c: Cloud)
        ensures
            c == Cloud::Aws,
    {
        Cloud::Aws
    }

    /// Registers the EC2 instance model.
    pub fn register(&self, registry: &mut Registry)
        ensures
            final(registry)@.models == registered(old(registry)@.models, provider_models(Provider::Aws(AwsProvider))),
            final(registry)@.free == old(registry)@.free,
    {
        let models = vec![CostModel::AwsInstance];
        assert(models@ =~= provider_models(Provider::Aws(AwsProvider)));
        registry.register_all(&models);
    }
}

impl AzureProvider {
    /// The Azure provider.
    pub fn new() -> (p: AzureProvider) {
        AzureProvider
    }

    /// Its cloud.
    pub fn cloud(&self) -> (c: Cloud)
        ensures
            c == Cloud::Azure,
    {
        Cloud::Azure
    }

    /// Registers the Azure models and the Azure resource types that cost nothing.
    pub fn register(&self, registry: &mut Registry)
        ensures
            final(registry)@.models == registered(old(registry)@.models, azure_models()),
            final(registry)@.free == old(registry)@.free + azure_free().to_set(),
    {
        let models = vec![
            CostModel::PostgresqlFlexibleServer,
            CostModel::ContainerApp,
            CostModel::ManagedRedis,
            CostModel::FrontDoorProfile,
            CostModel::StorageAccount,
            CostModel::ContainerRegistry,
            CostModel::LogAnalyticsWorkspace,
            CostModel::PrivateEndpoint,
            CostModel::PrivateDnsZone,
            CostModel::CognitiveDeployment,
            CostModel::FrontDoorWaf,
            CostModel::SecurityCenterPricing,
            CostModel::MonitorMetricAlert,
            CostModel::MonitorQueryAlert,
            CostModel::NetworkWatcherFlowLog,
        ];
        assert(models@ =~= azure_models());
        registry.register_all(&models);
        let free = vec![
            "azurerm_resource_group",
            "azurerm_virtual_network",
            "azurerm_subnet",
            "azurerm_network_security_group",
            "azurerm_subnet_network_security_group_association",
            "azurerm_role_assignment",
            "azurerm_private_dns_zone_virtual_network_link",
            "azurerm_cdn_frontdoor_endpoint",
            "azurerm_cdn_frontdoor_origin_group",
            "azurerm_cdn_frontdoor_origin",
            "azurerm_cdn_frontdoor_route",
            "azurerm_cdn_frontdoor_security_policy",
            "azurerm_monitor_action_group",
            "azurerm_monitor_diagnostic_setting",
            "azurerm_storage_container",
            "azurerm_postgresql_flexible_server_configuration",
            "azurerm_postgresql_flexible_server_firewall_rule",
            "azurerm_postgresql_flexible_server_database",
            "azurerm_network_watcher",
            "azurerm_security_center_contact",
            "azurerm_application_insights_workbook",
            "azurerm_container_app_environment",
            "azurerm_cognitive_account",
        ];
        let names = free.as_slice();
        assert(names@.map_values(|s: &str| s@) =~= azure_free());
        registry.register_free(names);
    }
}

impl GcpProvider {
    /// The Google Cloud provider.
    pub fn new() -> (p: GcpProvider) {
        GcpProvider
    }

    /// Its cloud.
    pub fn cloud(&self) -> (c: Cloud)
        ensures
            c == Cloud::Gcp,
    {
        Cloud::Gcp
    }

    /// Registers nothing: no Google Cloud resource has a model yet.
    pub fn register(&self, registry: &mut Registry)
        ensures
            final(registry)@ == old(registry)@,
    {
    }
}

impl PlanetScaleProvider {
    /// The PlanetScale provider.
    pub fn new() -> (p: PlanetScaleProvider) {
        PlanetScaleProvider
    }

    /// Its cloud.
    pub fn cloud(&self) -> (c: Cloud)
        ensures
            c == Cloud::PlanetScale,
    {
        Cloud::PlanetScale
    }

    /// Registers the Postgres and Vitess branch models.
    pub fn register(&self, registry: &mut Registry)
        ensures
            final(registry)@.models == registered(old(registry)@.models, provider_models(Provider::PlanetScale(PlanetScaleProvider))),
            final(registry)@.free == old(registry)@.free,
    {
        let models = vec![CostModel::PostgresBranch, CostModel::VitessBranch];
        assert(models@ =~= provider_models(Provider::PlanetScale(PlanetScaleProvider)));
        registry.register_all(&models);
    }
}

impl Provider {
    /// The cloud this provider serves.
    pub fn cloud(&self) -> (c: Cloud)
        ensures
            c == provider_cloud(*self),
    {
        match self {
            Provider::Aws(p) => p.cloud(),
            Provider::Azure(p) => p.cloud(),
            Provider::Gcp(p) => p.cloud(),
            Provider::PlanetScale(p) => p.cloud(),
        }
    }

    /// Registers this provider's models and free resource types.
    pub fn register(&self, registry: &mut Registry)
        ensures
            final(registry)@.models == registered(old(registry)@.models, provider_models(*self)),
            final(registry)@.free == old(registry)@.free + provider_free(*self).to_set(),
    {
        match self {
            Provider::Aws(p) => {
                p.register(registry);
                assert(registry@.free =~= old(registry)@.free + Seq::<Seq<char>>::empty().to_set());
            },
            Provider::Azure(p) => p.register(registry),
            Provider::Gcp(p) => {
                p.register(registry);
                assert(registry@.free =~= old(registry)@.free + Seq::<Seq<char>>::empty().to_set());
            },
            Provider::PlanetScale(p) => {
                p.register(registry);
                assert(registry@.free =~= old(registry)@.free + Seq::<Seq<char>>::empty().to_set());
            },
        }
    }
}

/// The registry of an engine built from `ps`: each provider registers in turn,
/// starting from the default registry.
pub open spec fn providers_registry(ps: Seq<Provider>) -> RegistryView
    decreases ps.len(),
{
    if ps.len() == 0 {
        RegistryView { models: Seq::empty(), free: default_free().to_set() }
    } else {
        let r = providers_registry(ps.drop_last());
        RegistryView {
            models: registered(r.models, provider_models(ps.last())),
            free: r.free + provider_free(ps.last()).to_set(),
        }
    }
}

/// The engine: the registry, the clouds of its providers in order, and what to
/// do with unsupported resource types.
pub struct Engine {
    registry: Registry,
    clouds: Vec<Cloud>,
    unsupported: UnsupportedBehavior,
}

/// An engine as plain values.
pub ghost struct EngineView {
    pub registry: RegistryView,
    pub clouds: Seq<Cloud>,
    pub unsupported: UnsupportedBehavior,
}

impl View for Engine {
    type V = EngineView;

    closed spec fn view(&self) -> EngineView {
        EngineView { registry: self.registry@, clouds: self.clouds@, unsupported: self.unsupported }
    }
}

/// What the engine does with one resource.
#[derive(Debug)]
pub enum Plan {
    /// Leave it out.
    Skip,
    /// Leave it out: its type has no model (the caller may warn about it).
    Unsupported(String),
    /// Fail the estimate.
    Fail(PreciousError),
    /// Price it with `model`, asking the provider at position `provider`.
    Run { model: CostModel, provider: usize },
}

/// A plan as plain values.
pub ghost enum PlanView {
    Skip,
    Unsupported(Seq<char>),
    Fail(ErrorView),
    Run { model: CostModel, provider: int },
}

impl View for Plan {
    type V = PlanView;

    open spec fn view(&self) -> PlanView {
        match self {
            Plan::Skip => PlanView::Skip,
            Plan::Unsupported(t) => PlanView::Unsupported(t@),
            Plan::Fail(e) => PlanView::Fail(e@),
            Plan::Run { model, provider } => PlanView::Run { model: *model, provider: *provider as int },
        }
    }
}

/// Whether a resource has `count = 0` (or `count = false`).
pub open spec fn count_is_zero(r: ResourceView) -> bool {
    match lookup(r.attributes, "count"@) {
        Some(ValueView::Number(n)) => encodes_zero(n.bits),
        Some(ValueView::Bool(b)) => !b,
        _ => false,
    }
}

/// Whether the resource has `count = 0` (or `count = false`).
pub fn is_count_zero(resource: &TfResource) -> (b: bool)
    ensures
        b == count_is_zero(resource@),
{
    let v = resource.get("count");
    proof {
        if let Some(x) = v {
            crate::state::lemma_value_view(*x);
        }
    }
    match v {
        Some(TfValue::Number(n)) => n.is_zero(),
        Some(TfValue::Bool(b)) => !*b,
        _ => false,
    }
}

/// The first position of `c` among clouds.
pub open spec fn cloud_position(cs: Seq<Cloud>, c: Cloud) -> Option<int>
    decreases cs.len(),
{
    if cs.len() == 0 {
        None
    } else {
        match cloud_position(cs.drop_last(), c) {
            Some(p) => Some(p),
            None => if cs.last() == c { Some(cs.len() - 1) } else { None },
        }
    }
}

/// What the engine does with a resource: resources counted to zero and free
/// types are left out; a type without a model fails the estimate, is left out,
/// or is left out with a warning; otherwise it is priced by its model with the
/// first provider of its cloud, and fails when no provider serves that cloud.
pub open spec fn plan_of(e: EngineView, r: ResourceView) -> PlanView {
    let t = r.address.tf_type;
    if count_is_zero(r) {
        PlanView::Skip
    } else if e.registry.free.contains(t) {
        PlanView::Skip
    } else {
        match key_lookup(e.registry.models, t) {
            None => match e.unsupported {
                UnsupportedBehavior::Error => PlanView::Fail(ErrorView::UnsupportedResource(t)),
                UnsupportedBehavior::Skip => PlanView::Skip,
                UnsupportedBehavior::Warn => PlanView::Unsupported(t),
            },
            Some(m) => match cloud_position(e.clouds, r.address.cloud) {
                None => PlanView::Fail(ErrorView::PricingError("no provider registered for cloud "@ + cloud_name(r.address.cloud))),
                Some(p) => PlanView::Run { model: m, provider: p },
            },
        }
    }
}

/// A resource counted to zero, or of a type that costs nothing, is never
/// priced; a resource of a type without a model is priced by nothing, and fails
/// the estimate only when unsupported types are errors.
pub proof fn lemma_plan_skips(e: EngineView, r: ResourceView)
    ensures
        count_is_zero(r) ==> plan_of(e, r) == PlanView::Skip,
        e.registry.free.contains(r.address.tf_type) ==> plan_of(e, r) == PlanView::Skip,
        key_lookup(e.registry.models, r.address.tf_type) is None ==> !(plan_of(e, r) is Run),
        (plan_of(e, r) is Fail && key_lookup(e.registry.models, r.address.tf_type) is None) ==> e.unsupported == UnsupportedBehavior::Error,
{
}

/// A priced resource is priced by the model registered for its type, with a
/// provider of its cloud.
pub proof fn lemma_plan_runs_registered_model(e: EngineView, r: ResourceView)
    ensures
        plan_of(e, r) matches PlanView::Run { model, provider } ==> key_lookup(e.registry.models, r.address.tf_type) == Some(model)
            && cloud_position(e.clouds, r.address.cloud) == Some(provider),
{
}

/// The progress of an estimate: the position of the resource being priced,
/// the answers to its price queries so far, and the costs of the resources
/// priced before it.
pub struct Progress {
    pub index: usize,
    pub answers: Vec<Result<UnitPrice, PricingError>>,
    pub costs: Vec<ResourceCost>,
}

/// Progress as plain values.
pub ghost struct ProgressView {
    pub index: int,
    pub answers: Seq<Result<UnitPrice, PricingError>>,
    pub costs: Seq<ResourceCostView>,
}

impl View for Progress {
    type V = ProgressView;

    open spec fn view(&self) -> ProgressView {
        ProgressView { index: self.index as int, answers: self.answers@, costs: cost_views(self.costs@) }
    }
}

/// What the caller does next.
#[derive(Debug)]
pub enum Action {
    /// Ask the provider at position `provider` this query, add the answer to
    /// the progress, and advance again.
    Query { provider: usize, query: PriceQuery },
    /// The estimate is finished.
    Finished(Result<Breakdown, PreciousError>),
    /// A decimal computation overflowed; the estimate cannot go on.
    Overflow,
}

/// An action as plain values.
pub ghost enum ActionView {
    Query { provider: int, query: QueryView },
    Finished(Result<BreakdownView, ErrorView>),
    Overflow,
}

impl View for Action {
    type V = ActionView;

    open spec fn view(&self) -> ActionView {
        match self {
            Action::Query { provider, query } => ActionView::Query { provider: *provider as int, query: query@ },
            Action::Finished(Ok(b)) => ActionView::Finished(Ok(b@)),
            Action::Finished(Err(e)) => ActionView::Finished(Err(e@)),
            Action::Overflow => ActionView::Overflow,
        }
    }
}

/// The usage metrics of the resource stored under `key`, if the usage file has
/// an entry for it.
pub open spec fn usage_for(usage: Option<&UsageFile>, key: Seq<char>) -> Option<Seq<(Seq<char>, crate::decimal::Decimal)>> {
    match usage {
        Some(f) => match usage_position(f.resources@, key) {
            Some(p) => Some(metrics_view(f.resources@[p].metrics@)),
            None => None,
        },
        None => None,
    }
}

/// No entry for an address that no entry lists.
proof fn lemma_no_entry_for(es: Seq<UsageEntry>, a: Seq<char>)
    requires
        forall|i: int| 0 <= i < es.len() ==> (#[trigger] es[i]).address@ != a,
    ensures
        usage_position(es, a) is None,
    decreases es.len(),
{
    if es.len() > 0 {
        lemma_no_entry_for(es.drop_last(), a);
    }
}

/// The entry for an address is the first one listing it.
proof fn lemma_first_entry_for(es: Seq<UsageEntry>, a: Seq<char>, p: int)
    requires
        0 <= p < es.len(),
        es[p].address@ == a,
        forall|i: int| 0 <= i < p ==> (#[trigger] es[i]).address@ != a,
    ensures
        usage_position(es, a) == Some(p),
    decreases es.len(),
{
    if p == es.len() - 1 {
        lemma_no_entry_for(es.drop_last(), a);
    } else {
        lemma_first_entry_for(es.drop_last(), a, p);
    }
}

/// A resource that the usage file lists is estimated with the metrics of the
/// first entry for its address.
pub proof fn lemma_usage_of_listed_resource(f: UsageFile, key: Seq<char>, p: int)
    requires
        0 <= p < f.resources@.len(),
        f.resources@[p].address@ == key,
        forall|i: int| 0 <= i < p ==> (#[trigger] f.resources@[i]).address@ != key,
    ensures
        usage_for(Some(&f), key) == Some(metrics_view(f.resources@[p].metrics@)),
{
    lemma_first_entry_for(f.resources@, key, p);
}

/// A resource that the usage file does not list, or any resource when there
/// is no usage file, is estimated without usage metrics.
pub proof fn lemma_usage_of_unlisted_resource(f: UsageFile, key: Seq<char>)
    requires
        forall|i: int| 0 <= i < f.resources@.len() ==> (#[trigger] f.resources@[i]).address@ != key,
    ensures
        usage_for(Some(&f), key) is None,
        usage_for(None, key) is None,
{
    lemma_no_entry_for(f.resources@, key);
}

/// Whether every entry of a usage file has well-formed metrics.
pub open spec fn usage_file_wf(usage: Option<&UsageFile>) -> bool {
    match usage {
        Some(f) => forall|i: int| 0 <= i < f.resources@.len() ==> metrics_wf(metrics_view((#[trigger] f.resources@[i]).metrics@)),
        None => true,
    }
}

/// The cost of a resource made of `cs`, `None` where its total overflows.
pub open spec fn resource_cost_of(r: ResourceView, cs: Seq<ComponentView>) -> Option<ResourceCostView> {
    match fold_sum(component_costs(cs)) {
        Some(t) => Some(ResourceCostView {
            address: r.address,
            resource_type: r.address.tf_type,
            components: cs,
            monthly_total: Money { currency: Currency::USD, amount: t },
        }),
        None => None,
    }
}

/// The end of an estimate: the breakdown of the costs, or an overflow of its total.
pub open spec fn finish(costs: Seq<ResourceCostView>) -> ActionView {
    match fold_sum(resource_totals(costs)) {
        Some(t) => ActionView::Finished(Ok(BreakdownView {
            resources: costs,
            total_monthly_cost: Money { currency: Currency::USD, amount: t },
        })),
        None => ActionView::Overflow,
    }
}

/// The progress for the next resource.
pub open spec fn next_resource(p: ProgressView, costs: Seq<ResourceCostView>) -> ProgressView {
    ProgressView { index: p.index + 1, answers: Seq::empty(), costs }
}

/// The next action of an estimate and the progress it leaves: resources are
/// taken in state order; each is planned; a priced one is stepped through its
/// model with the answers so far until the model asks a query (the action), an
/// error or overflow ends the estimate, or its cost is added; after the last
/// resource the breakdown of the costs is the result, and the costs are moved
/// into it.
pub open spec fn estimate_from(
    e: EngineView,
    es: Seq<(Seq<char>, ResourceView)>,
    usage: Option<&UsageFile>,
    p: ProgressView,
) -> (ActionView, ProgressView)
    decreases es.len() - p.index,
{
    if p.index < 0 || p.index >= es.len() {
        (finish(p.costs), ProgressView { costs: Seq::empty(), ..p })
    } else {
        let (key, r) = es[p.index];
        match plan_of(e, r) {
            PlanView::Skip | PlanView::Unsupported(_) => estimate_from(e, es, usage, next_resource(p, p.costs)),
            PlanView::Fail(err) => (ActionView::Finished(Err(err)), p),
            PlanView::Run { model, provider } => match model_step(model, r, usage_for(usage, key), p.answers) {
                StepView::Query(q) => (ActionView::Query { provider, query: q }, p),
                StepView::Done(Err(err)) => (ActionView::Finished(Err(err)), p),
                StepView::Overflow => (ActionView::Overflow, p),
                StepView::Done(Ok(cs)) => match resource_cost_of(r, cs) {
                    None => (ActionView::Overflow, p),
                    Some(c) => estimate_from(e, es, usage, next_resource(p, p.costs.push(c))),
                },
            },
        }
    }
}

/// A priced resource that the usage file lists is stepped through its model
/// with the metrics of the first usage entry for its key: what the model asks
/// with those metrics is the query the estimate sends.
pub proof fn lemma_estimate_steps_with_usage_entry(
    e: EngineView,
    es: Seq<(Seq<char>, ResourceView)>,
    f: UsageFile,
    p: ProgressView,
    q: int,
    model: CostModel,
    provider: int,
    query: QueryView,
)
    requires
        0 <= p.index < es.len(),
        plan_of(e, es[p.index].1) == (PlanView::Run { model, provider }),
        0 <= q < f.resources@.len(),
        f.resources@[q].address@ == es[p.index].0,
        forall|i: int| 0 <= i < q ==> (#[trigger] f.resources@[i]).address@ != es[p.index].0,
        model_step(model, es[p.index].1, Some(metrics_view(f.resources@[q].metrics@)), p.answers) == StepView::Query(query),
    ensures
        estimate_from(e, es, Some(&f), p) == (ActionView::Query { provider, query }, p),
{
    lemma_usage_of_listed_resource(f, es[p.index].0, q);
}

/// Whether a resource's total is the sum of its components' monthly costs.
pub open spec fn cost_adds_up(c: ResourceCostView) -> bool {
    Some(c.monthly_total.amount) == fold_sum(component_costs(c.components))
}

/// In a finished estimate every resource's total is the sum of its
/// components' monthly costs, and the breakdown's total is the sum of the
/// resources' totals.
pub proof fn lemma_breakdown_adds_up(
    e: EngineView,
    es: Seq<(Seq<char>, ResourceView)>,
    usage: Option<&UsageFile>,
    p: ProgressView,
)
    requires
        forall|i: int| 0 <= i < p.costs.len() ==> cost_adds_up(#[trigger] p.costs[i]),
    ensures
        estimate_from(e, es, usage, p).0 matches ActionView::Finished(Ok(b)) ==> {
            &&& Some(b.total_monthly_cost.amount) == fold_sum(resource_totals(b.resources))
            &&& forall|i: int| 0 <= i < b.resources.len() ==> cost_adds_up(#[trigger] b.resources[i])
        },
    decreases es.len() - p.index,
{
    if 0 <= p.index < es.len() {
        let (key, r) = es[p.index];
        match plan_of(e, r) {
            PlanView::Skip | PlanView::Unsupported(_) => {
                lemma_breakdown_adds_up(e, es, usage, next_resource(p, p.costs));
            },
            PlanView::Run { model, provider } => {
                if let StepView::Done(Ok(cs)) = model_step(model, r, usage_for(usage, key), p.answers) {
                    if let Some(c) = resource_cost_of(r, cs) {
                        let costs = p.costs.push(c);
                        assert forall|i: int| 0 <= i < costs.len() implies cost_adds_up(#[trigger] costs[i]) by {
                            if i < p.costs.len() {
                                assert(costs[i] == p.costs[i]);
                            }
                        }
                        lemma_breakdown_adds_up(e, es, usage, next_resource(p, costs));
                    }
                }
            },
            _ => {},
        }
    }
}

impl Engine {
    /// An engine with the models of `providers`, warning about unsupported
    /// resource types.
    pub fn new(providers: Vec<Provider>) -> (e: Engine)
        ensures
            e@.registry == providers_registry(providers@),
            e@.clouds == providers@.map_values(|p: Provider| provider_cloud(p)),
            e@.unsupported == UnsupportedBehavior::Warn,
    {
        let mut registry = Registry::new();
        let mut clouds: Vec<Cloud> = Vec::new();
        let mut i: usize = 0;
        assert(registry@ == providers_registry(providers@.subrange(0, 0)));
        while i < providers.len()
            invariant
                i <= providers@.len(),
                registry@ == providers_registry(providers@.subrange(0, i as int)),
                clouds@ == providers@.subrange(0, i as int).map_values(|p: Provider| provider_cloud(p)),
            decreases providers.len() - i,
        {
            providers[i].register(&mut registry);
            clouds.push(providers[i].cloud());
            proof {
                let sub = providers@.subrange(0, i + 1);
                assert(sub.drop_last() =~= providers@.subrange(0, i as int));
                assert(sub.last() == providers@[i as int]);
                assert(clouds@ =~= sub.map_values(|p: Provider| provider_cloud(p)));
            }
            i = i + 1;
        }
        assert(providers@.subrange(0, i as int) =~= providers@);
        Engine { registry, clouds, unsupported: UnsupportedBehavior::Warn }
    }

    /// This engine with another behavior for unsupported resource types.
    pub fn with_unsupported_behavior(self, behavior: UnsupportedBehavior) -> (e: Engine)
        ensures
            e@ == (EngineView { unsupported: behavior, ..self@ }),
    {
        let mut e = self;
        e.unsupported = behavior;
        e
    }

    /// The position of the first provider serving `cloud`.
    pub fn provider_for(&self, cloud: Cloud) -> (r: Option<usize>)
        ensures
            r matches Some(p) ==> cloud_position(self@.clouds, cloud) == Some(p as int),
            r is None ==> cloud_position(self@.clouds, cloud) is None,
    {
        let mut i: usize = 0;
        while i < self.clouds.len()
            invariant
                i <= self.clouds@.len(),
                cloud_position(self.clouds@.subrange(0, i as int), cloud) is None,
            decreases self.clouds.len() - i,
        {
            let ghost pre = self.clouds@.subrange(0, i + 1);
            assert(pre.drop_last() =~= self.clouds@.subrange(0, i as int));
            if self.clouds[i] == cloud {
                proof {
                    lemma_cloud_position_prefix(self.clouds@, cloud, i + 1);
                }
                return Some(i);
            }
            i = i + 1;
        }
        assert(self.clouds@.subrange(0, i as int) =~= self.clouds@);
        None
    }

    /// What the engine does with `resource`.
    pub fn plan(&self, resource: &TfResource) -> (p: Plan)
        ensures
            p@ == plan_of(self@, resource@),
    {
        if is_count_zero(resource) {
            return Plan::Skip;
        }
        let t = resource.address.kind.tf_type.0.as_str();
        if self.registry.is_free(t) {
            return Plan::Skip;
        }
        match self.registry.get(t) {
            None => match self.unsupported {
                UnsupportedBehavior::Error => Plan::Fail(PreciousError::UnsupportedResource(crate::text::owned(t))),
                UnsupportedBehavior::Skip => Plan::Skip,
                UnsupportedBehavior::Warn => Plan::Unsupported(crate::text::owned(t)),
            },
            Some(model) => {
                let cloud = resource.address.kind.cloud;
                match self.provider_for(cloud) {
                    None => Plan::Fail(PreciousError::PricingError(concat("no provider registered for cloud ", cloud.name()))),
                    Some(p) => Plan::Run { model, provider: p },
                }
            },
        }
    }

    /// The progress of an estimate that has not started.
    pub fn start() -> (p: Progress)
        ensures
            p@ == (ProgressView { index: 0, answers: Seq::empty(), costs: Seq::empty() }),
    {
        let p = Progress { index: 0, answers: Vec::new(), costs: Vec::new() };
        assert(cost_views(p.costs@) =~= Seq::<ResourceCostView>::empty());
        p
    }

    /// Works through the resources of `state` from `progress` on, and says what
    /// to do next; `progress` is left where the estimate stands.
    #[verifier::rlimit(40)]
    pub fn advance(&self, state: &State, usage: Option<&UsageFile>, progress: &mut Progress) -> (a: Action)
        requires
            answers_wf(old(progress)@.answers),
            all_wf(resource_totals(old(progress)@.costs)),
            usage_file_wf(usage),
            forall|i: int| 0 <= i < state.resources@.len() ==> inputs_wf((#[trigger] state.resources@[i]).resource@),
            forall|i: int| 0 <= i < old(progress)@.costs.len() ==> resource_cost_wf(#[trigger] old(progress)@.costs[i]),
        ensures
            (a@, final(progress)@) == estimate_from(self@, entries_view(state.resources@), usage, old(progress)@),
            forall|i: int| 0 <= i < final(progress)@.costs.len() ==> resource_cost_wf(#[trigger] final(progress)@.costs[i]),
            a@ matches ActionView::Finished(Ok(b)) ==> breakdown_wf(b),
    {
        let ghost es = entries_view(state.resources@);
        let ghost goal = estimate_from(self@, es, usage, progress@);
        while progress.index < state.resources.len()
            invariant
                es == entries_view(state.resources@),
                goal == estimate_from(self@, es, usage, old(progress)@),
                goal == estimate_from(self@, es, usage, progress@),
                answers_wf(progress@.answers),
                all_wf(resource_totals(progress@.costs)),
                forall|i: int| 0 <= i < progress@.costs.len() ==> resource_cost_wf(#[trigger] progress@.costs[i]),
                usage_file_wf(usage),
                forall|i: int| 0 <= i < state.resources@.len() ==> inputs_wf((#[trigger] state.resources@[i]).resource@),
            decreases state.resources.len() - progress.index,
        {
            let i = progress.index;
            let entry = &state.resources[i];
            assert(es.len() == state.resources@.len());
            assert(es[i as int] == (entry.key@, entry.resource@));
            match self.plan(&entry.resource) {
                Plan::Skip | Plan::Unsupported(_) => {
                    progress.index = i + 1;
                    progress.answers = Vec::new();
                },
                Plan::Fail(e) => {
                    return Action::Finished(Err(e));
                },
                Plan::Run { model, provider } => {
                    let entry_usage: Option<&UsageEntry> = match usage {
                        Some(u) => find_usage(u, entry.key.as_str()),
                        None => None,
                    };
                    proof {
                        if let Some(f) = usage {
                            if let Some(p) = usage_position(f.resources@, entry.key@) {
                                if entry_usage is Some {
                                    assert(metrics_wf(metrics_view(f.resources@[p].metrics@)));
                                }
                            }
                        }
                    }
                    assert(usage_view(entry_usage) == usage_for(usage, entry.key@));
                    match model.estimate_step(&entry.resource, entry_usage, &progress.answers) {
                        Step::Query(q) => {
                            return Action::Query { provider, query: q };
                        },
                        Step::Done(Err(e)) => {
                            return Action::Finished(Err(e));
                        },
                        Step::Overflow => {
                            return Action::Overflow;
                        },
                        Step::Done(Ok(cs)) => {
                            assert(all_wf(component_costs(component_views(cs@))));
                            let t = entry.resource.address.kind.tf_type.0.as_str();
                            match ResourceCost::checked_new(duplicate_address(&entry.resource.address), t, cs) {
                                None => {
                                    return Action::Overflow;
                                },
                                Some(c) => {
                                    let ghost before = progress.costs@;
                                    progress.costs.push(c);
                                    assert(cost_views(progress.costs@) =~= cost_views(before).push(c@));
                                    assert(resource_totals(cost_views(progress.costs@)) =~= resource_totals(cost_views(before)).push(c@.monthly_total.amount));
                                    assert(resource_cost_wf(c@));
                                    progress.index = i + 1;
                                    progress.answers = Vec::new();
                                },
                            }
                        },
                    }
                },
            }
        }
        let mut costs: Vec<ResourceCost> = Vec::new();
        std::mem::swap(&mut costs, &mut progress.costs);
        assert(cost_views(progress.costs@) =~= Seq::<ResourceCostView>::empty());
        match Breakdown::checked_new(costs) {
            Some(b) => Action::Finished(Ok(b)),
            None => Action::Overflow,
        }
    }
}

/// The engine of the command line: the AWS, Azure and Google Cloud providers,
/// warning about unsupported resource types.
pub fn build_engine() -> (e: Engine)
    ensures
        e@.registry == providers_registry(seq![Provider::Aws(AwsProvider), Provider::Azure(AzureProvider), Provider::Gcp(GcpProvider)]),
        e@.clouds == seq![Cloud::Aws, Cloud::Azure, Cloud::Gcp],
        e@.unsupported == UnsupportedBehavior::Warn,
{
    let providers = vec![Provider::Aws(AwsProvider::new()), Provider::Azure(AzureProvider::new()), Provider::Gcp(GcpProvider::new())];
    assert(providers@ =~= seq![Provider::Aws(AwsProvider), Provider::Azure(AzureProvider), Provider::Gcp(GcpProvider)]);
    let e = Engine::new(providers).with_unsupported_behavior(UnsupportedBehavior::Warn);
    assert(e@.clouds =~= seq![Cloud::Aws, Cloud::Azure, Cloud::Gcp]);
    e
}

/// A cloud found in a prefix is found at the same place in the whole.
proof fn lemma_cloud_position_prefix(cs: Seq<Cloud>, c: Cloud, n: int)
    requires
        0 <= n <= cs.len(),
        cloud_position(cs.subrange(0, n), c) is Some,
    ensures
        cloud_position(cs, c) == cloud_position(cs.subrange(0, n), c),
    decreases cs.len() - n,
{
    if n < cs.len() {
        assert(cs.subrange(0, n + 1).drop_last() =~= cs.subrange(0, n));
        lemma_cloud_position_prefix(cs, c, n + 1);
    } else {
        assert(cs.subrange(0, n) =~= cs);
    }
}

} // verus!
