use precious::decimal::Decimal;
use precious::engine::{
    build_engine, is_count_zero, Action, AwsProvider, AzureProvider, Engine, GcpProvider, Plan, PlanetScaleProvider,
    Provider, UnsupportedBehavior,
};
use precious::pricing::{PricingError, UnitPrice};
use precious::registry::{CostModel, Registry};
use precious::resource::{Cloud, ResourceAddress, ResourceKind};
use precious::state::{Number, State, TfAttribute, TfResource, TfValue};
use precious::usage::{find_usage, UsageEntry, UsageFile};

fn attr(k: &str, v: TfValue) -> TfAttribute {
    TfAttribute { key: k.to_string(), value: v }
}

fn resource(cloud: Cloud, t: &str, name: &str, attributes: Vec<TfAttribute>) -> TfResource {
    TfResource { address: ResourceAddress::new(ResourceKind::new(cloud, t), name), attributes }
}

fn zero_number() -> Number {
    Number { bits: 0.0f64.to_bits(), decimal: Ok(Decimal::zero()), text: "0".to_string(), retained_div_1024: Some(Decimal::zero()) }
}

#[test]
fn registry_defaults_and_registration() {
    let mut r = Registry::new();
    assert!(r.is_free("random_id"));
    assert!(r.is_free("terraform_data"));
    assert!(!r.is_free("aws_instance"));
    assert!(r.get("aws_instance").is_none());
    r.register(CostModel::AwsInstance);
    assert_eq!(r.get("aws_instance"), Some(CostModel::AwsInstance));
    r.register(CostModel::StorageAccount);
    r.register(CostModel::AwsInstance);
    assert_eq!(r.supported_types(), vec!["aws_instance".to_string(), "azurerm_storage_account".to_string()]);
    r.register_free(&["custom_thing"]);
    assert!(r.is_free("custom_thing"));
    assert!(r.is_free("random_id"));
}

#[test]
fn model_kinds() {
    assert_eq!(CostModel::AwsInstance.kind().tf_type.0, "aws_instance");
    assert_eq!(CostModel::VitessBranch.kind().cloud, Cloud::PlanetScale);
    assert_eq!(CostModel::FrontDoorWaf.kind().tf_type.0, "azurerm_cdn_frontdoor_firewall_policy");
}

#[test]
fn providers_register_their_models() {
    let mut r = Registry::new();
    AzureProvider::new().register(&mut r);
    assert_eq!(r.supported_types().len(), 15);
    assert_eq!(r.get("azurerm_postgresql_flexible_server"), Some(CostModel::PostgresqlFlexibleServer));
    assert!(r.is_free("azurerm_resource_group"));
    assert!(r.is_free("azurerm_cognitive_account"));
    AwsProvider::new().register(&mut r);
    PlanetScaleProvider::new().register(&mut r);
    GcpProvider::new().register(&mut r);
    assert_eq!(r.supported_types().len(), 18);
    assert_eq!(AzureProvider::new().cloud(), Cloud::Azure);
    assert_eq!(Provider::Gcp(GcpProvider::new()).cloud(), Cloud::Gcp);
}

#[test]
fn count_zero_detection() {
    let zero = resource(Cloud::Aws, "aws_instance", "a", vec![attr("count", TfValue::Number(zero_number()))]);
    assert!(is_count_zero(&zero));
    let off = resource(Cloud::Aws, "aws_instance", "a", vec![attr("count", TfValue::Bool(false))]);
    assert!(is_count_zero(&off));
    let on = resource(Cloud::Aws, "aws_instance", "a", vec![attr("count", TfValue::Bool(true))]);
    assert!(!is_count_zero(&on));
    assert!(!is_count_zero(&resource(Cloud::Aws, "aws_instance", "a", vec![])));
}

#[test]
fn plans() {
    let e = build_engine();
    let free = resource(Cloud::Aws, "random_id", "r", vec![]);
    assert!(matches!(e.plan(&free), Plan::Skip));
    let unknown = resource(Cloud::Aws, "aws_s3_bucket", "b", vec![]);
    match e.plan(&unknown) {
        Plan::Unsupported(t) => assert_eq!(t, "aws_s3_bucket"),
        other => panic!("unexpected {:?}", other),
    }
    let strict = build_engine().with_unsupported_behavior(UnsupportedBehavior::Error);
    match strict.plan(&unknown) {
        Plan::Fail(err) => assert_eq!(err.message(), "unsupported resource type: aws_s3_bucket"),
        other => panic!("unexpected {:?}", other),
    }
    let quiet = build_engine().with_unsupported_behavior(UnsupportedBehavior::Skip);
    assert!(matches!(quiet.plan(&unknown), Plan::Skip));
    let vm = resource(Cloud::Azure, "azurerm_storage_account", "s", vec![]);
    assert!(matches!(e.plan(&vm), Plan::Run { model: CostModel::StorageAccount, provider: 1 }));
    let branch = resource(Cloud::PlanetScale, "planetscale_vitess_branch", "v", vec![]);
    assert!(matches!(e.plan(&branch), Plan::Unsupported(_)));
    let elsewhere = resource(Cloud::PlanetScale, "aws_instance", "i", vec![]);
    match e.plan(&elsewhere) {
        Plan::Fail(err) => assert_eq!(err.message(), "pricing lookup failed: no provider registered for cloud planetscale"),
        other => panic!("unexpected {:?}", other),
    }
    assert_eq!(e.provider_for(Cloud::Gcp), Some(2));
    assert_eq!(e.provider_for(Cloud::PlanetScale), None);
}

#[test]
fn estimate_runs_models_in_state_order() {
    let e = Engine::new(vec![Provider::Aws(AwsProvider::new()), Provider::Azure(AzureProvider::new())]);
    let mut state = State::new();
    state.add_resource(resource(Cloud::Aws, "aws_instance", "web", vec![attr("instance_type", TfValue::String("t3.micro".to_string()))]));
    state.add_resource(resource(Cloud::Aws, "random_id", "suffix", vec![]));
    state.add_resource(resource(Cloud::Azure, "azurerm_log_analytics_workspace", "logs", vec![]));
    state.add_resource(resource(Cloud::Aws, "aws_s3_bucket", "b", vec![]));
    let mut progress = Engine::start();
    let first = e.advance(&state, None, &mut progress);
    match first {
        Action::Query { provider, query } => {
            assert_eq!(provider, 0);
            assert_eq!(query.service, "AmazonEC2");
        },
        other => panic!("unexpected {:?}", other),
    }
    progress.answers.push(Ok(UnitPrice::hourly_usd(Decimal::new(1, 2))));
    match e.advance(&state, None, &mut progress) {
        Action::Finished(Ok(b)) => {
            assert_eq!(b.resources.len(), 2);
            assert_eq!(b.resources[0].address.to_string(), "aws_instance.web");
            assert_eq!(b.resources[0].monthly_total.to_string(), "$7.30");
            assert_eq!(b.resources[1].resource_type, "azurerm_log_analytics_workspace");
            assert_eq!(b.total_monthly_cost.to_string(), "$7.30");
        },
        other => panic!("unexpected {:?}", other),
    }
}

#[test]
fn estimate_stops_at_a_model_error() {
    let e = build_engine();
    let mut state = State::new();
    state.add_resource(resource(Cloud::Aws, "aws_instance", "web", vec![attr("instance_type", TfValue::String("t3.micro".to_string()))]));
    let mut progress = Engine::start();
    let _ = e.advance(&state, None, &mut progress);
    progress.answers.push(Err(PricingError::NotFound("none".to_string())));
    match e.advance(&state, None, &mut progress) {
        Action::Finished(Err(err)) => {
            assert_eq!(err.message(), "pricing lookup failed: failed to get price for t3.micro: price not found for query: none")
        },
        other => panic!("unexpected {:?}", other),
    }
}

#[test]
fn empty_state_gives_empty_breakdown() {
    let e = build_engine();
    let mut progress = Engine::start();
    match e.advance(&State::new(), None, &mut progress) {
        Action::Finished(Ok(b)) => {
            assert!(b.resources.is_empty());
            assert_eq!(b.total_monthly_cost.to_string(), "$0.00");
        },
        other => panic!("unexpected {:?}", other),
    }
}

#[test]
fn usage_is_found_by_address() {
    let usage = UsageFile {
        version: 1,
        resources: vec![
            UsageEntry { address: "a.b".to_string(), metrics: vec![("x".to_string(), Decimal::new(1, 0))] },
            UsageEntry { address: "a.b".to_string(), metrics: vec![("x".to_string(), Decimal::new(2, 0))] },
        ],
    };
    let found = find_usage(&usage, "a.b").unwrap();
    assert_eq!(found.get_metric("x").unwrap().mantissa, 1);
    assert!(found.get_metric("y").is_none());
    assert!(find_usage(&usage, "c.d").is_none());
}

#[test]
fn state_keeps_one_resource_per_address() {
    let mut state = State::new();
    state.add_resource(resource(Cloud::Aws, "aws_instance", "web", vec![]));
    state.add_resource(resource(Cloud::Aws, "aws_instance", "db", vec![]));
    state.add_resource(resource(Cloud::Aws, "aws_instance", "web", vec![attr("x", TfValue::Bool(true))]));
    assert_eq!(state.resources.len(), 2);
    assert_eq!(state.resources[0].key, "aws_instance.web");
    let web = state.get(&"aws_instance.web".to_string()).unwrap();
    assert_eq!(web.get("x").and_then(|v| v.as_bool()), Some(true));
    assert!(state.get(&"aws_instance.cache".to_string()).is_none());
}

#[test]
fn overflowing_total_stops_the_estimate() {
    let e = build_engine();
    let mut state = State::new();
    state.add_resource(resource(Cloud::Aws, "aws_instance", "web", vec![attr("instance_type", TfValue::String("t3.micro".to_string()))]));
    let mut progress = Engine::start();
    let _ = e.advance(&state, None, &mut progress);
    let huge = Decimal { mantissa: 79228162514264337593543950335, scale: 0, negative: false };
    progress.answers.push(Ok(UnitPrice::hourly_usd(huge)));
    assert!(matches!(e.advance(&state, None, &mut progress), Action::Overflow));
}
