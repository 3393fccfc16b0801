use precious::cache::FileCache;
use precious::decimal::Decimal;
use precious::money::BillingPeriod;
use precious::pricing::{
    azure_filter, azure_price, azure_query_url, azure_status_error, encode_uri_component, parse_unit_of_measure,
    AwsPricingClient, AzurePricingClient, PlanetScalePricingClient, PriceFilter, PriceItem, PriceQuery, PricingError,
    StaticPricingClient, UnitPrice,
};
use precious::resource::Cloud;

fn ps_query(service: &str, size: Option<&str>) -> PriceQuery {
    let filters = match size {
        Some(s) => vec![PriceFilter { field: "clusterSize".to_string(), value: s.to_string() }],
        None => Vec::new(),
    };
    PriceQuery { cloud: Cloud::PlanetScale, service: service.to_string(), region: String::new(), filters }
}

#[test]
fn query_builder() {
    let q = PriceQuery::azure("Storage", "eastus").filter("skuName", "Hot LRS").filter("priceType", "Consumption");
    assert_eq!(q.cloud, Cloud::Azure);
    assert_eq!(q.service, "Storage");
    assert_eq!(q.region, "eastus");
    assert_eq!(q.filters.len(), 2);
    assert_eq!(q.filters[1].field, "priceType");
    assert_eq!(q.filters[1].value, "Consumption");
}

#[test]
fn unit_price_constructors() {
    let h = UnitPrice::hourly_usd(Decimal::new(5, 1));
    assert_eq!(h.unit, BillingPeriod::Hour);
    assert_eq!(h.price.to_string(), "$0.50");
    let m = UnitPrice::monthly_usd(Decimal::new(35, 0));
    assert_eq!(m.unit, BillingPeriod::Month);
}

#[test]
fn encode_keeps_unreserved_and_escapes_the_rest() {
    assert_eq!(encode_uri_component("AZaz09-_.~"), "AZaz09-_.~");
    assert_eq!(encode_uri_component("a b"), "a%20b");
    assert_eq!(encode_uri_component("serviceName eq 'Storage'"), "serviceName%20eq%20%27Storage%27");
    assert_eq!(encode_uri_component("é"), "%C3%A9");
    assert_eq!(encode_uri_component(""), "");
}

#[test]
fn unit_of_measure_mapping() {
    assert_eq!(parse_unit_of_measure("1 Second"), BillingPeriod::Second);
    assert_eq!(parse_unit_of_measure("1 Hour"), BillingPeriod::Hour);
    assert_eq!(parse_unit_of_measure("1/Month"), BillingPeriod::Month);
    assert_eq!(parse_unit_of_measure("1/Day"), BillingPeriod::Month);
    assert_eq!(parse_unit_of_measure("1 GB/Month"), BillingPeriod::GBMonth);
    assert_eq!(parse_unit_of_measure("1 GiB/Month"), BillingPeriod::GBMonth);
    assert_eq!(parse_unit_of_measure("1 GiB Second"), BillingPeriod::GiBSecond);
    assert_eq!(parse_unit_of_measure("10K"), BillingPeriod::Month);
}

#[test]
fn azure_filter_text() {
    let q = PriceQuery::azure("Azure Monitor", "").filter("skuName", "Alerts");
    assert_eq!(azure_filter(&q), "serviceName eq 'Azure Monitor' and skuName eq 'Alerts'");
    let r = PriceQuery::azure("Storage", "westeurope").filter("contains", "meterName");
    assert_eq!(azure_filter(&r), "serviceName eq 'Storage' and armRegionName eq 'westeurope' and contains(meterName, 'contains')");
}

#[test]
fn azure_url() {
    let q = PriceQuery::azure("Storage", "").filter("skuName", "Hot LRS");
    let expected = "https://prices.azure.com/api/retail/prices?api-version=2023-01-01-preview&$filter=serviceName%20eq%20%27Storage%27%20and%20skuName%20eq%20%27Hot%20LRS%27";
    assert_eq!(azure_query_url("https://prices.azure.com/api/retail/prices", &q), expected);
    assert_eq!(AzurePricingClient::new().query_url(&q), expected);
}

#[test]
fn azure_status_handling() {
    assert!(matches!(azure_status_error(429, "429 Too Many Requests"), Some(PricingError::RateLimited)));
    match azure_status_error(404, "404 Not Found") {
        Some(PricingError::Http(m)) => assert_eq!(m, "Azure pricing API returned 404 Not Found"),
        other => panic!("unexpected {:?}", other),
    }
    assert!(azure_status_error(200, "200 OK").is_none());
}

#[test]
fn azure_price_from_first_item() {
    match azure_price("f", None) {
        Err(PricingError::NotFound(m)) => assert_eq!(m, "no price found for filter: f"),
        other => panic!("unexpected {:?}", other),
    }
    let item = PriceItem { retail_price: Ok(Decimal::new(1234, 3)), unit_of_measure: "1 Hour".to_string() };
    let p = azure_price("f", Some(&item)).unwrap();
    assert_eq!(p.unit, BillingPeriod::Hour);
    assert_eq!(p.price.amount.mantissa, 1234);
    let bad = PriceItem { retail_price: Err("NaN".to_string()), unit_of_measure: "1 Hour".to_string() };
    match azure_price("f", Some(&bad)) {
        Err(PricingError::Deserialize(m)) => assert_eq!(m, "NaN"),
        other => panic!("unexpected {:?}", other),
    }
}

#[test]
fn pricing_error_messages() {
    assert_eq!(PricingError::Http("x".to_string()).message(), "HTTP request failed: x");
    assert_eq!(PricingError::NotFound("k".to_string()).message(), "price not found for query: k");
    assert_eq!(PricingError::RateLimited.message(), "rate limited by pricing API");
    assert_eq!(PricingError::Cache("c".to_string()).message(), "cache error: c");
    assert_eq!(PricingError::Deserialize("d".to_string()).message(), "deserialization error: d");
}

#[test]
fn planetscale_prices() {
    let c = PlanetScalePricingClient::new();
    let p = c.do_query(&ps_query("PlanetScale Postgres", Some("PS-20"))).unwrap();
    assert_eq!(p.price.to_string(), "$59.00");
    assert_eq!(p.unit, BillingPeriod::Month);
    let v = c.do_query(&ps_query("PlanetScale Vitess", Some("PS-10"))).unwrap();
    assert_eq!(v.price.to_string(), "$39.00");
    let d = c.do_query(&ps_query("PlanetScale Postgres", None)).unwrap();
    assert_eq!(d.price.to_string(), "$34.00");
    let s = c.do_query(&ps_query("PlanetScale Storage", None)).unwrap();
    assert_eq!(s.price.to_string(), "$0.50");
    match c.do_query(&ps_query("PlanetScale Vitess", Some("PS-5"))) {
        Err(PricingError::NotFound(m)) => assert_eq!(m, "no PlanetScale price for service=PlanetScale Vitess cluster_size=PS-5"),
        other => panic!("unexpected {:?}", other),
    }
}

#[test]
fn static_prices_by_key() {
    let q = PriceQuery::azure("Svc", "r1").filter("a", "1").filter("b", "2");
    assert_eq!(StaticPricingClient::key_of(&q), "Svc:r1:a=1,b=2");
    let c = StaticPricingClient::new(vec![("Svc:r1:a=1,b=2".to_string(), UnitPrice::monthly_usd(Decimal::new(7, 0)))]);
    assert_eq!(c.do_query(&q).unwrap().price.to_string(), "$7.00");
    let other = PriceQuery::azure("Svc", "r2");
    match c.do_query(&other) {
        Err(PricingError::NotFound(m)) => assert_eq!(m, "Svc:r2:"),
        x => panic!("unexpected {:?}", x),
    }
}

#[test]
fn aws_client_location() {
    assert_eq!(AwsPricingClient::new().base_url, "https://pricing.api.infracost.io");
    assert_eq!(AwsPricingClient::new().with_base_url("http://localhost".to_string()).base_url, "http://localhost");
}

#[test]
fn cache_rules() {
    assert_eq!(FileCache::entry_name("prices-abc"), "prices-abc.json");
    assert_eq!(FileCache::expiry(1000, 60), 1060);
    assert_eq!(FileCache::expiry(1000, u64::MAX), 999);
    assert!(!FileCache::is_expired(1060, 1060));
    assert!(FileCache::is_expired(1061, 1060));
    assert_eq!(FileCache::new("/tmp/c".to_string()).dir, "/tmp/c");
}
