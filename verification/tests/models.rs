use precious::cost::CostComponent;
use precious::decimal::Decimal;
use precious::error::PreciousError;
use precious::models::aws_instance::AwsInstanceModel;
use precious::models::azure_simple::{ContainerRegistryModel, FrontDoorProfileModel, LogAnalyticsWorkspaceModel};
use precious::models::cognitive::CognitiveDeploymentModel;
use precious::models::container_app::{parse_memory_gib, ContainerAppModel};
use precious::models::front_door_waf::FrontDoorWafModel;
use precious::models::managed_redis::ManagedRedisModel;
use precious::models::monitor::{meter_name_for_frequency, MonitorMetricAlertModel, MonitorQueryAlertModel};
use precious::models::network_watcher::{is_traffic_analytics_enabled, NetworkWatcherFlowLogModel};
use precious::models::planetscale::{PostgresBranchModel, VitessBranchModel};
use precious::models::postgresql::{parse_sku_name, PostgresqlFlexibleServerModel};
use precious::models::private_network::{PrivateDnsZoneModel, PrivateEndpointModel};
use precious::models::security_center::SecurityCenterPricingModel;
use precious::models::storage_account::StorageAccountModel;
use precious::models::Step;
use precious::money::BillingPeriod;
use precious::pricing::{PriceQuery, PricingError, UnitPrice};
use precious::resource::{Cloud, ResourceAddress, ResourceKind};
use precious::state::{Number, TfAttribute, TfResource, TfValue};
use precious::usage::UsageEntry;

fn dec(d: rust_decimal::Decimal) -> Decimal {
    Decimal { mantissa: d.mantissa(), scale: d.scale(), negative: d.is_sign_negative() }
}

fn number(f: f64) -> Number {
    Number {
        bits: f.to_bits(),
        decimal: rust_decimal::Decimal::try_from(f).map(dec).map_err(|e| e.to_string()),
        text: format!("{}", f),
        retained_div_1024: rust_decimal::Decimal::from_f64_retain(f / 1024.0).map(dec),
    }
}

fn attr(k: &str, v: TfValue) -> TfAttribute {
    TfAttribute { key: k.to_string(), value: v }
}

fn s(v: &str) -> TfValue {
    TfValue::String(v.to_string())
}

fn resource(cloud: Cloud, t: &str, attributes: Vec<TfAttribute>) -> TfResource {
    TfResource { address: ResourceAddress::new(ResourceKind::new(cloud, t), "this"), attributes }
}

fn hourly(m: i64, scale: u32) -> Result<UnitPrice, PricingError> {
    Ok(UnitPrice::hourly_usd(Decimal::new(m, scale)))
}

fn monthly(m: i64, scale: u32) -> Result<UnitPrice, PricingError> {
    Ok(UnitPrice::monthly_usd(Decimal::new(m, scale)))
}

fn query(step: Step) -> PriceQuery {
    match step {
        Step::Query(q) => q,
        other => panic!("expected a query, got {:?}", other),
    }
}

fn done(step: Step) -> Vec<CostComponent> {
    match step {
        Step::Done(Ok(cs)) => cs,
        other => panic!("expected components, got {:?}", other),
    }
}

fn failed(step: Step) -> String {
    match step {
        Step::Done(Err(e)) => e.message(),
        other => panic!("expected an error, got {:?}", other),
    }
}

fn filter(q: &PriceQuery, field: &str) -> String {
    q.filters.iter().find(|f| f.field == field).map(|f| f.value.clone()).unwrap_or_default()
}

#[test]
fn aws_instance_asks_then_prices_730_hours() {
    let r = resource(Cloud::Aws, "aws_instance", vec![attr("instance_type", s("t3.micro"))]);
    let q = query(AwsInstanceModel.estimate_step(&r, &vec![]));
    assert_eq!(q.service, "AmazonEC2");
    assert_eq!(q.region, "us-east-1");
    assert_eq!(filter(&q, "instanceType"), "t3.micro");
    assert_eq!(filter(&q, "operatingSystem"), "Linux");
    let cs = done(AwsInstanceModel.estimate_step(&r, &vec![hourly(104, 4)]));
    assert_eq!(cs.len(), 1);
    assert_eq!(cs[0].name, "Linux/UNIX usage (t3.micro)");
    assert_eq!(cs[0].unit, BillingPeriod::Hour);
    assert_eq!((cs[0].monthly_cost.amount.mantissa, cs[0].monthly_cost.amount.scale), (75920, 4));
    assert_eq!(cs[0].monthly_cost.to_string(), "$7.59");
}

#[test]
fn aws_instance_errors() {
    let r = resource(Cloud::Aws, "aws_instance", vec![]);
    assert_eq!(failed(AwsInstanceModel.estimate_step(&r, &vec![])), "missing required field 'instance_type' on resource 'aws_instance.this'");
    let r = resource(Cloud::Aws, "aws_instance", vec![attr("instance_type", s("m5.large")), attr("region", s("eu-west-1"))]);
    assert_eq!(query(AwsInstanceModel.estimate_step(&r, &vec![])).region, "eu-west-1");
    let m = failed(AwsInstanceModel.estimate_step(&r, &vec![Err(PricingError::RateLimited)]));
    assert_eq!(m, "pricing lookup failed: failed to get price for m5.large: rate limited by pricing API");
}

#[test]
fn front_door_profile_fees() {
    let r = resource(Cloud::Azure, "azurerm_cdn_frontdoor_profile", vec![attr("sku_name", s("Premium_AzureFrontDoor"))]);
    let cs = done(FrontDoorProfileModel.estimate_step(&r));
    assert_eq!(cs[0].monthly_cost.to_string(), "$330.00");
    let r = resource(Cloud::Azure, "azurerm_cdn_frontdoor_profile", vec![attr("sku_name", s("Standard_AzureFrontDoor"))]);
    assert_eq!(done(FrontDoorProfileModel.estimate_step(&r))[0].monthly_cost.to_string(), "$35.00");
    let r = resource(Cloud::Azure, "azurerm_cdn_frontdoor_profile", vec![attr("sku_name", s("Classic"))]);
    assert!(failed(FrontDoorProfileModel.estimate_step(&r)).contains("unknown Front Door SKU: Classic"));
}

#[test]
fn container_registry_and_log_analytics() {
    let r = resource(Cloud::Azure, "azurerm_container_registry", vec![attr("sku", s("Premium"))]);
    assert_eq!(done(ContainerRegistryModel.estimate_step(&r))[0].monthly_cost.to_string(), "$50.00");
    let r = resource(Cloud::Azure, "azurerm_container_registry", vec![attr("sku", s("Gold"))]);
    assert!(matches!(ContainerRegistryModel.estimate_step(&r), Step::Done(Err(PreciousError::InvalidField { .. }))));
    let cs = done(LogAnalyticsWorkspaceModel.estimate_step());
    assert_eq!(cs[0].unit_price.to_string(), "$2.76");
    assert_eq!(cs[0].monthly_cost.to_string(), "$0.00");
}

fn container_app(cpu: f64, memory: &str, replicas: Option<f64>) -> TfResource {
    let container = TfValue::Object(vec![attr("cpu", TfValue::Number(number(cpu))), attr("memory", s(memory))]);
    let mut template = vec![attr("container", container)];
    if let Some(n) = replicas {
        template.push(attr("min_replicas", TfValue::Number(number(n))));
    }
    resource(Cloud::Azure, "azurerm_container_app", vec![attr("template", TfValue::Object(template))])
}

#[test]
fn container_app_fixed_rates() {
    let cs = done(ContainerAppModel.estimate_step(&container_app(0.5, "1Gi", Some(2.0))));
    assert_eq!(cs.len(), 2);
    assert_eq!(cs[0].name, "vCPU");
    assert_eq!(cs[0].unit_price.to_string(), "$63.07");
    assert_eq!(cs[0].monthly_cost.to_string(), "$63.07");
    assert_eq!(cs[1].name, "Memory");
    assert_eq!(cs[1].monthly_cost.to_string(), "$15.76");
    let cs = done(ContainerAppModel.estimate_step(&container_app(1.0, "512Mi", None)));
    assert_eq!(cs[1].monthly_cost.to_string(), "$3.94");
}

#[test]
fn container_app_errors() {
    let r = resource(Cloud::Azure, "azurerm_container_app", vec![]);
    assert_eq!(failed(ContainerAppModel.estimate_step(&r)), "missing required field 'template.container.cpu' on resource 'azurerm_container_app.this'");
    let m = failed(ContainerAppModel.estimate_step(&container_app(0.5, "1G", None)));
    assert_eq!(m, "pricing lookup failed: unsupported memory unit in '1G', expected Gi or Mi suffix");
}

#[test]
fn memory_sizes() {
    let g = parse_memory_gib("2Gi").unwrap().unwrap();
    assert_eq!((g.mantissa, g.scale), (2, 0));
    let h = parse_memory_gib("512Mi").unwrap().unwrap();
    assert!(precious::money::Money::usd(h).equals(&precious::money::Money::usd(Decimal::new(5, 1))));
    match parse_memory_gib("xGi").unwrap() {
        Err(PreciousError::PricingError(m)) => assert!(m.starts_with("invalid memory value 'xGi': ")),
        other => panic!("unexpected {:?}", other),
    }
}

#[test]
fn cognitive_provisioned_and_usage_based() {
    let r = resource(Cloud::Azure, "azurerm_cognitive_deployment", vec![]);
    let cs = done(CognitiveDeploymentModel.estimate_step(&r, &vec![]));
    assert_eq!(cs[0].name, "Deployment (Standard, usage-based)");
    let sku = TfValue::Object(vec![attr("name", s("ProvisionedManaged")), attr("capacity", TfValue::Number(number(2.0)))]);
    let model = TfValue::Object(vec![attr("name", s("gpt-4o-mini"))]);
    let r = resource(Cloud::Azure, "azurerm_cognitive_deployment", vec![attr("sku", sku), attr("model", model)]);
    let q = query(CognitiveDeploymentModel.estimate_step(&r, &vec![]));
    assert_eq!(filter(&q, "productName"), "Azure OpenAI");
    let cs = done(CognitiveDeploymentModel.estimate_step(&r, &vec![hourly(1, 0)]));
    assert_eq!(cs[0].name, "Provisioned Throughput (gpt-4o-mini, 2 PTUs)");
    assert_eq!(cs[0].monthly_cost.to_string(), "$1460.00");
    let cs = done(CognitiveDeploymentModel.estimate_step(&r, &vec![Err(PricingError::RateLimited)]));
    assert_eq!(cs[0].name, "Provisioned Throughput (gpt-4o-mini, 2 PTUs, price unavailable)");
    assert_eq!(cs[0].monthly_cost.to_string(), "$0.00");
}

#[test]
fn front_door_waf_rules() {
    let rules = TfValue::List(vec![TfValue::Object(vec![]), TfValue::Object(vec![])]);
    let r = resource(Cloud::Azure, "azurerm_cdn_frontdoor_firewall_policy", vec![attr("custom_rule", rules), attr("managed_rule", TfValue::Object(vec![]))]);
    assert_eq!(filter(&query(FrontDoorWafModel.estimate_step(&r, &vec![])), "meterName"), "Standard Policy");
    assert_eq!(filter(&query(FrontDoorWafModel.estimate_step(&r, &vec![monthly(5, 0)])), "meterName"), "Standard Rule");
    let answers = vec![monthly(5, 0), monthly(1, 0)];
    assert_eq!(filter(&query(FrontDoorWafModel.estimate_step(&r, &answers)), "meterName"), "Standard Default Ruleset");
    let answers = vec![monthly(5, 0), monthly(1, 0), monthly(20, 0)];
    let cs = done(FrontDoorWafModel.estimate_step(&r, &answers));
    assert_eq!(cs.len(), 3);
    assert_eq!(cs[1].name, "Custom rules");
    assert_eq!(cs[1].monthly_cost.to_string(), "$2.00");
    assert_eq!(cs[2].monthly_cost.to_string(), "$20.00");
    let bare = resource(Cloud::Azure, "azurerm_cdn_frontdoor_firewall_policy", vec![]);
    assert_eq!(done(FrontDoorWafModel.estimate_step(&bare, &vec![monthly(5, 0)])).len(), 1);
}

#[test]
fn managed_redis_sku() {
    let r = resource(Cloud::Azure, "azurerm_managed_redis", vec![attr("sku_name", s("Balanced_B1"))]);
    let q = query(ManagedRedisModel.estimate_step(&r, &vec![]));
    assert_eq!(q.region, "swedencentral");
    assert_eq!(filter(&q, "productName"), "Azure Managed Redis - Balanced");
    assert_eq!(filter(&q, "meterName"), "B1 Cache Instance");
    let cs = done(ManagedRedisModel.estimate_step(&r, &vec![hourly(1, 1)]));
    assert_eq!(cs[0].monthly_cost.to_string(), "$73.00");
    let bad = resource(Cloud::Azure, "azurerm_managed_redis", vec![attr("sku_name", s("Huge_X"))]);
    assert!(failed(ManagedRedisModel.estimate_step(&bad, &vec![])).contains("unknown tier: Huge"));
    let bad = resource(Cloud::Azure, "azurerm_managed_redis", vec![attr("sku_name", s("Balanced"))]);
    assert!(failed(ManagedRedisModel.estimate_step(&bad, &vec![])).contains("expected format Tier_Size, got Balanced"));
}

#[test]
fn monitor_alerts() {
    assert_eq!(meter_name_for_frequency("PT1M"), "Alerts System Log Monitored at 1 Minute Frequency");
    assert_eq!(meter_name_for_frequency("PT30M"), "Alerts System Log Monitored at 15 Minute Frequency");
    assert_eq!(meter_name_for_frequency("P1D"), "Alerts System Log Monitored at 5 Minute Frequency");
    let r = resource(Cloud::Azure, "azurerm_monitor_scheduled_query_rules_alert_v2", vec![attr("evaluation_frequency", s("PT10M"))]);
    let cs = done(MonitorQueryAlertModel.estimate_step(&r, &vec![Err(PricingError::RateLimited)]));
    assert_eq!(cs[0].name, "Log alert rule (PT10M)");
    assert_eq!(cs[0].monthly_cost.to_string(), "$1.00");
    let m = resource(Cloud::Azure, "azurerm_monitor_metric_alert", vec![attr("dynamic_criteria", TfValue::Object(vec![]))]);
    assert_eq!(filter(&query(MonitorMetricAlertModel.estimate_step(&m, &vec![])), "meterName"), "Alerts Dynamic Threshold");
    let cs = done(MonitorMetricAlertModel.estimate_step(&m, &vec![Err(PricingError::RateLimited)]));
    assert_eq!(cs[0].monthly_cost.to_string(), "$1.00");
    let st = resource(Cloud::Azure, "azurerm_monitor_metric_alert", vec![]);
    let cs = done(MonitorMetricAlertModel.estimate_step(&st, &vec![Err(PricingError::RateLimited)]));
    assert_eq!(cs[0].name, "Metric alert (static threshold)");
    assert_eq!(cs[0].monthly_cost.to_string(), "$0.10");
}

#[test]
fn network_watcher_flow_logs() {
    let ta = TfValue::Object(vec![attr("enabled", TfValue::Bool(true))]);
    let r = resource(Cloud::Azure, "azurerm_network_watcher_flow_log", vec![attr("traffic_analytics", ta)]);
    assert!(is_traffic_analytics_enabled(&r));
    let cs = done(NetworkWatcherFlowLogModel.estimate_step(&r, None, &vec![]));
    assert_eq!(cs.len(), 2);
    assert_eq!(cs[1].name, "Traffic Analytics (usage-based)");
    let usage = UsageEntry { address: "x".to_string(), metrics: vec![("flow_log_gb".to_string(), Decimal::new(100, 0))] };
    let q = query(NetworkWatcherFlowLogModel.estimate_step(&r, Some(&usage), &vec![]));
    assert_eq!(q.region, "eastus");
    let cs = done(NetworkWatcherFlowLogModel.estimate_step(&r, Some(&usage), &vec![monthly(5, 1), monthly(23, 1)]));
    assert_eq!(cs[0].monthly_cost.to_string(), "$50.00");
    assert_eq!(cs[1].monthly_cost.to_string(), "$230.00");
    let plain = resource(Cloud::Azure, "azurerm_network_watcher_flow_log", vec![]);
    assert!(!is_traffic_analytics_enabled(&plain));
}

#[test]
fn postgresql_skus() {
    let sku = parse_sku_name("GP_Standard_D2s_v3").unwrap();
    assert_eq!(sku.tier, "General Purpose");
    assert_eq!(sku.series, "Dsv3");
    assert_eq!(sku.vcores, 2);
    let sku = parse_sku_name("MO_Standard_E16ds_v5").unwrap();
    assert_eq!((sku.tier, sku.series.as_str(), sku.vcores), ("Memory Optimized", "Edsv5", 16));
    assert_eq!(parse_sku_name("GP_D2").unwrap_err().message(), "pricing lookup failed: invalid sku_name format: GP_D2");
    assert_eq!(parse_sku_name("XX_Standard_D2").unwrap_err().message(), "pricing lookup failed: unknown sku tier prefix: XX");
    assert_eq!(parse_sku_name("B_Standard_Bms").unwrap_err().message(), "pricing lookup failed: failed to extract vCores from sku_name: B_Standard_Bms");
}

#[test]
fn postgresql_compute_and_storage() {
    let r = resource(
        Cloud::Azure,
        "azurerm_postgresql_flexible_server",
        vec![attr("sku_name", s("B_Standard_B1ms")), attr("location", s("westeurope")), attr("storage_mb", TfValue::Number(number(65536.0)))],
    );
    let q = query(PostgresqlFlexibleServerModel.estimate_step(&r, &vec![]));
    assert_eq!(filter(&q, "productName"), "Azure Database for PostgreSQL Flexible Server Burstable - Bms Series Compute");
    assert_eq!(filter(&q, "skuName"), "1 vCore");
    let cs = done(PostgresqlFlexibleServerModel.estimate_step(&r, &vec![hourly(1, 2), monthly(1, 1)]));
    assert_eq!(cs[0].monthly_cost.to_string(), "$7.30");
    assert!(precious::money::Money::usd(cs[1].quantity).equals(&precious::money::Money::usd(Decimal::new(64, 0))));
    assert_eq!(cs[1].monthly_cost.to_string(), "$6.40");
}

#[test]
fn planetscale_branches() {
    let r = resource(Cloud::PlanetScale, "planetscale_postgres_branch", vec![attr("cluster_size", s("PS-20"))]);
    let usage = UsageEntry { address: "x".to_string(), metrics: vec![("storage_gb".to_string(), Decimal::new(50, 0))] };
    let cs = done(PostgresBranchModel.estimate_step(&r, Some(&usage), &vec![monthly(59, 0), monthly(5, 1)]));
    assert_eq!(cs.len(), 2);
    assert_eq!(cs[0].name, "Cluster (PS-20, 3-node HA)");
    assert_eq!(cs[1].monthly_cost.to_string(), "$10.00");
    let small = UsageEntry { address: "x".to_string(), metrics: vec![("storage_gb".to_string(), Decimal::new(10, 0))] };
    assert_eq!(done(PostgresBranchModel.estimate_step(&r, Some(&small), &vec![monthly(59, 0)])).len(), 1);
    let v = resource(Cloud::PlanetScale, "planetscale_vitess_branch", vec![]);
    let cs = done(VitessBranchModel.estimate_step(&v, &vec![monthly(39, 0)]));
    assert_eq!(cs[0].name, "Scaler Pro (PS-10)");
}

#[test]
fn private_networking() {
    let usage = UsageEntry { address: "x".to_string(), metrics: vec![("inbound_data_gb".to_string(), Decimal::new(10, 0))] };
    let q = query(PrivateEndpointModel.estimate_step(None, &vec![]));
    assert_eq!(q.region, "Global");
    let cs = done(PrivateEndpointModel.estimate_step(None, &vec![hourly(1, 2)]));
    assert_eq!(cs.len(), 1);
    assert_eq!(cs[0].monthly_cost.to_string(), "$7.30");
    let cs = done(PrivateEndpointModel.estimate_step(Some(&usage), &vec![hourly(1, 2), monthly(1, 2)]));
    assert_eq!(cs[1].monthly_cost.to_string(), "$0.10");
    let m = failed(PrivateDnsZoneModel.estimate_step(None, &vec![Err(PricingError::NotFound("k".to_string()))]));
    assert_eq!(m, "pricing lookup failed: failed to get Private DNS Zone price: price not found for query: k");
}

#[test]
fn security_center_plans() {
    let free = resource(Cloud::Azure, "azurerm_security_center_subscription_pricing", vec![]);
    assert!(done(SecurityCenterPricingModel.estimate_step(&free, None, &vec![])).is_empty());
    let r = resource(
        Cloud::Azure,
        "azurerm_security_center_subscription_pricing",
        vec![attr("tier", s("Standard")), attr("resource_type", s("VirtualMachines"))],
    );
    let q = query(SecurityCenterPricingModel.estimate_step(&r, None, &vec![]));
    assert_eq!(filter(&q, "productName"), "Microsoft Defender for Servers");
    let cs = done(SecurityCenterPricingModel.estimate_step(&r, None, &vec![monthly(15, 0)]));
    assert_eq!(cs[0].name, "Defender for VirtualMachines");
    assert_eq!(cs[0].monthly_cost.to_string(), "$15.00");
    let odd = resource(
        Cloud::Azure,
        "azurerm_security_center_subscription_pricing",
        vec![attr("tier", s("Standard")), attr("resource_type", s("Api"))],
    );
    let cs = done(SecurityCenterPricingModel.estimate_step(&odd, None, &vec![]));
    assert_eq!(cs[0].name, "Defender for Api (price unavailable)");
}

#[test]
fn storage_account_names() {
    assert_eq!(StorageAccountModel::product_name("BlobStorage", "Standard"), "Blob Storage");
    assert_eq!(StorageAccountModel::product_name("FileStorage", "Premium"), "Files v2");
    assert_eq!(StorageAccountModel::product_name("StorageV2", "Premium"), "Premium Block Blob");
    assert_eq!(StorageAccountModel::product_name("StorageV2", "Standard"), "General Block Blob v2");
    assert_eq!(StorageAccountModel::access_tier_label("Premium", "Cool"), "Premium");
    assert_eq!(StorageAccountModel::access_tier_label("Standard", "Cool"), "Cool");
    assert_eq!(StorageAccountModel::access_tier_label("Standard", "Cold"), "Cold");
    assert_eq!(StorageAccountModel::access_tier_label("Standard", "Archive"), "Hot");
}

#[test]
fn storage_account_query() {
    let r = resource(Cloud::Azure, "azurerm_storage_account", vec![attr("location", s("northeurope"))]);
    let q = query(StorageAccountModel.estimate_step(&r, &vec![]));
    assert_eq!(filter(&q, "skuName"), "Hot LRS");
    assert_eq!(filter(&q, "meterName"), "Hot LRS Data Stored");
    assert_eq!(filter(&q, "productName"), "General Block Blob v2");
    let cs = done(StorageAccountModel.estimate_step(&r, &vec![monthly(2, 2)]));
    assert_eq!(cs[0].name, "Data storage (StorageV2, Hot LRS)");
    let nowhere = resource(Cloud::Azure, "azurerm_storage_account", vec![]);
    assert!(failed(StorageAccountModel.estimate_step(&nowhere, &vec![])).contains("'location'"));
}

#[test]
fn overflowing_cost_is_reported() {
    let r = resource(Cloud::Aws, "aws_instance", vec![attr("instance_type", s("t3.micro"))]);
    let huge = Decimal { mantissa: 79228162514264337593543950335, scale: 0, negative: false };
    let step = AwsInstanceModel.estimate_step(&r, &vec![Ok(UnitPrice::hourly_usd(huge))]);
    assert!(matches!(step, Step::Overflow));
}
