use precious::cost::{Breakdown, Change, CostComponent, Diff, ResourceCost};
use precious::decimal::Decimal;
use precious::money::{BillingPeriod, Money};
use precious::report::{breakdown_table, diff_summary, diff_table, Tone};
use precious::resource::{Cloud, ResourceAddress, ResourceKind};

fn line(name: &str, cost: i64) -> CostComponent {
    CostComponent {
        name: name.to_string(),
        unit: BillingPeriod::Month,
        quantity: Decimal::one(),
        quantity_unit: "months".to_string(),
        unit_price: Money::usd(Decimal::new(cost, 0)),
        monthly_cost: Money::usd(Decimal::new(cost, 0)),
        quantity_max: None,
        monthly_cost_max: None,
    }
}

fn cost(name: &str, lines: Vec<CostComponent>) -> ResourceCost {
    let address = ResourceAddress::new(ResourceKind::new(Cloud::Aws, "aws_instance"), name);
    ResourceCost::new(address, "aws_instance", lines)
}

#[test]
fn resource_total_is_the_sum_of_its_components() {
    let c = cost("web", vec![line("a", 3), line("b", 4)]);
    assert_eq!(c.monthly_total.to_string(), "$7.00");
    assert_eq!(c.resource_type, "aws_instance");
    let empty = cost("none", vec![]);
    assert_eq!(empty.monthly_total.to_string(), "$0.00");
}

#[test]
fn breakdown_total_and_sort() {
    let mut b = Breakdown::new(vec![cost("a", vec![line("x", 5)]), cost("b", vec![line("x", 1)]), cost("c", vec![line("x", 5)]), cost("d", vec![line("x", 3)])]);
    assert_eq!(b.total_monthly_cost.to_string(), "$14.00");
    b.sort(false);
    let names: Vec<String> = b.resources.iter().map(|r| r.address.name.clone()).collect();
    assert_eq!(names, vec!["b", "d", "a", "c"]);
    b.sort(true);
    let names: Vec<String> = b.resources.iter().map(|r| r.address.name.clone()).collect();
    assert_eq!(names, vec!["c", "a", "d", "b"]);
    assert_eq!(b.total_monthly_cost.to_string(), "$14.00");
}

#[test]
fn diff_of_two_breakdowns() {
    let before = Breakdown::new(vec![cost("a", vec![line("x", 5)]), cost("b", vec![line("x", 2)]), cost("c", vec![line("x", 1)])]);
    let after = Breakdown::new(vec![cost("a", vec![line("x", 7)]), cost("c", vec![line("x", 1)]), cost("d", vec![line("x", 4)])]);
    let d = Diff::compute(&before, &after);
    assert_eq!(d.changes.len(), 3);
    assert!(matches!(&d.changes[0], Change::Modified { before, after } if before.address.name == "a" && after.monthly_total.to_string() == "$7.00"));
    assert!(matches!(&d.changes[1], Change::Removed(r) if r.address.name == "b"));
    assert!(matches!(&d.changes[2], Change::Added(r) if r.address.name == "d"));
    assert_eq!(d.delta.to_string(), "$4.00");
    let same = Diff::compute(&before, &before);
    assert!(same.changes.is_empty());
    assert!(same.delta.amount.is_zero());
}

#[test]
fn breakdown_rows() {
    let mut first = line("Compute", 10);
    first.quantity_max = Some(Decimal::new(2, 0));
    first.monthly_cost_max = Some(Money::usd(Decimal::new(20, 0)));
    let b = Breakdown::new(vec![cost("web", vec![first, line("Disk", 1)])]);
    let rows = breakdown_table(&b);
    assert_eq!(rows.len(), 3);
    assert_eq!(rows[0], vec!["aws_instance.web\n  aws_instance", "Compute", "1–2 months", "$10.00", "$10.00–$20.00"]);
    assert_eq!(rows[1], vec!["", "Disk", "1 months", "$1.00", "$1.00"]);
    assert_eq!(rows[2], vec!["TOTAL", "", "", "", "$11.00"]);
}

#[test]
fn diff_rows_and_summary() {
    let before = Breakdown::new(vec![cost("a", vec![line("x", 5)]), cost("b", vec![line("x", 2)])]);
    let after = Breakdown::new(vec![cost("a", vec![line("x", 3)]), cost("d", vec![line("x", 4)])]);
    let d = Diff::compute(&before, &after);
    let rows = diff_table(&d).unwrap();
    assert_eq!(rows.len(), 3);
    assert_eq!(rows[0].cells, vec!["~", "aws_instance.a", "$5.00", "$3.00", "$-2.00"]);
    assert_eq!(rows[0].marker, Tone::Yellow);
    assert_eq!(rows[0].delta, Tone::Green);
    assert_eq!(rows[1].cells, vec!["-", "aws_instance.b", "$2.00", "-", "-$2.00"]);
    assert_eq!(rows[1].marker, Tone::Red);
    assert_eq!(rows[2].cells, vec!["+", "aws_instance.d", "-", "$4.00", "+$4.00"]);
    assert_eq!(rows[2].delta, Tone::Green);
    assert_eq!(diff_summary(&d), "Total before: $7.00  |  Total after: $7.00  |  Delta: $0.00");
}

#[test]
fn small_quantities_and_amounts_print_with_leading_zeros() {
    let mut c = line("Requests", 0);
    c.quantity = Decimal::new(5, 3);
    c.monthly_cost = Money::usd(Decimal::new(5, 3));
    let b = Breakdown::new(vec![cost("api", vec![c])]);
    let rows = breakdown_table(&b);
    assert_eq!(rows[0][2], "0.005 months");
    assert_eq!(rows[0][4], "$0.00");
}
