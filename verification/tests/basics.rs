use precious::decimal::{self, Decimal};
use precious::error::PreciousError;
use precious::models::container_app::parse_memory_gib;
use precious::money::{BillingPeriod, Currency, Money};
use precious::resource::{Cloud, ResourceAddress, ResourceKind};
use precious::text;

fn d(mantissa: i64, scale: u32) -> Decimal {
    Decimal::new(mantissa, scale)
}

#[test]
fn decimal_constructors() {
    let x = Decimal::new(63072, 3);
    assert_eq!((x.mantissa, x.scale, x.negative), (63072, 3, false));
    let y = Decimal::new(-5, 1);
    assert_eq!((y.mantissa, y.scale, y.negative), (-5, 1, true));
    let z = Decimal::from_u32(1024);
    assert_eq!((z.mantissa, z.scale), (1024, 0));
    assert!(Decimal::zero().is_zero());
    assert!(!Decimal::one().is_zero());
}

#[test]
fn decimal_arithmetic_is_exact() {
    let sum = Money::usd(d(150, 2)).add(Money::usd(d(25, 1)));
    assert_eq!((sum.amount.mantissa, sum.amount.scale), (400, 2));
    let diff = Money::usd(d(1, 0)).sub(Money::usd(d(3, 0)));
    assert!(diff.amount.negative);
    assert_eq!(diff.amount.mantissa, -2);
    let product = Money::usd(d(104, 4)).mul(d(730, 0));
    assert_eq!((product.amount.mantissa, product.amount.scale), (75920, 4));
    let half = parse_memory_gib("512Mi").unwrap().unwrap();
    assert!(Money::usd(half).equals(&Money::usd(d(5, 1))));
}

#[test]
fn decimal_overflow_is_reported() {
    let max = Decimal { mantissa: 79228162514264337593543950335, scale: 0, negative: false };
    assert!(Money::usd(max).checked_add(Money::usd(d(1, 0))).is_none());
    assert!(Money::usd(max).checked_mul(d(2, 0)).is_none());
    assert!(Money::usd(d(1, 0)).checked_sub(Money::usd(max)).is_some());
}

#[test]
fn decimal_parse_and_compare() {
    let x = parse_memory_gib("63.072Gi").unwrap().unwrap();
    assert_eq!((x.mantissa, x.scale), (63072, 3));
    assert!(matches!(parse_memory_gib("abcGi"), Some(Err(_))));
    assert!(Money::usd(d(10, 1)).equals(&Money::usd(d(1, 0))));
    assert!(!Money::usd(d(11, 1)).equals(&Money::usd(d(1, 0))));
    assert!(decimal::is_positive(&d(1, 3)));
    assert!(!decimal::is_positive(&d(-1, 3)));
}

#[test]
fn decimal_display_two_places() {
    assert_eq!(Money::usd(d(1250, 3)).to_string(), "$1.25");
    assert_eq!(Money::usd(d(1259, 3)).to_string(), "$1.25");
    assert_eq!(Money::usd(d(7, 0)).to_string(), "$7.00");
}

#[test]
fn money_text_and_arithmetic() {
    let m = Money::usd(d(1250, 2));
    assert_eq!(m.to_string(), "$12.50");
    assert_eq!(Money::zero().to_string(), "$0.00");
    let total = m.add(Money::usd(d(5, 1)));
    assert_eq!(total.to_string(), "$13.00");
    let back = total.sub(Money::usd(d(1300, 2)));
    assert!(back.amount.is_zero());
    let doubled = m.mul(d(2, 0));
    assert_eq!(doubled.to_string(), "$25.00");
    assert!(m.equals(&Money::usd(d(125, 1))));
    assert_eq!(Currency::USD.symbol(), "$");
}

#[test]
fn money_sum_of_amounts() {
    let items = vec![Money::usd(d(1, 0)), Money::usd(d(250, 2)), Money::usd(d(5, 1))];
    assert_eq!(Money::sum(&items).to_string(), "$4.00");
    assert_eq!(Money::sum(&Vec::new()).to_string(), "$0.00");
    let max = Decimal { mantissa: 79228162514264337593543950335, scale: 0, negative: false };
    assert!(Money::checked_sum(&vec![Money::usd(max), Money::usd(max)]).is_none());
}

#[test]
fn billing_period_labels() {
    assert_eq!(BillingPeriod::Hour.label(), "hours");
    assert_eq!(BillingPeriod::GBMonth.label(), "GB/month");
    assert_eq!(BillingPeriod::GiBSecond.label(), "GiB-seconds");
    let h = BillingPeriod::hours_per_month();
    assert_eq!((h.mantissa, h.scale), (730, 0));
}

#[test]
fn cloud_names() {
    assert_eq!(Cloud::Azure.name(), "azurerm");
    assert_eq!(Cloud::Gcp.name(), "google");
    assert_eq!(Cloud::PlanetScale.name(), "planetscale");
}

#[test]
fn address_text_with_modules() {
    let a = ResourceAddress::new(ResourceKind::new(Cloud::Aws, "aws_instance"), "web");
    assert_eq!(a.to_string(), "aws_instance.web");
    let b = a.with_module("net").with_module("app");
    assert_eq!(b.to_string(), "module.net.module.app.aws_instance.web");
}

#[test]
fn text_helpers() {
    assert_eq!(text::strip_suffix("512Mi", "Mi"), Some("512".to_string()));
    assert_eq!(text::strip_suffix("512Mi", "Gi"), None);
    assert!(text::starts_with("azurerm_subnet", "azurerm_"));
    assert_eq!(text::split_once("GP_Standard", '_'), Some(("GP".to_string(), "Standard".to_string())));
    assert_eq!(text::u32_to_string(4096), "4096");
}

#[test]
fn error_messages() {
    assert_eq!(PreciousError::HclParse("bad".to_string()).message(), "failed to parse HCL: bad");
    assert_eq!(PreciousError::UnsupportedResource("x".to_string()).message(), "unsupported resource type: x");
    assert_eq!(
        PreciousError::MissingField { resource: "a.b".to_string(), field: "sku".to_string() }.message(),
        "missing required field 'sku' on resource 'a.b'"
    );
    assert_eq!(
        PreciousError::InvalidField { resource: "a.b".to_string(), field: "sku".to_string(), reason: "no".to_string() }.message(),
        "invalid value for field 'sku' on resource 'a.b': no"
    );
    assert_eq!(PreciousError::PricingError("x".to_string()).message(), "pricing lookup failed: x");
    assert_eq!(PreciousError::Serialization("y".to_string()).message(), "serialization error: y");
    let io = PreciousError::Io(std::io::Error::new(std::io::ErrorKind::NotFound, "gone"));
    assert_eq!(io.message(), "IO error: gone");
}
