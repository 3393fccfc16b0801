//! The contents of the breakdown and diff tables: the text of every cell, and
//! how the cells of a diff are coloured. Drawing the tables is left to the
//! program.

use vstd::prelude::*;

use crate::cost::{
    breakdown_wf, change_views, component_wf, resource_cost_wf, Breakdown, BreakdownView, Change, ChangeView, ComponentView,
    CostComponent, Diff, ResourceCost, ResourceCostView,
};
use crate::decimal::{decimal_difference, decimal_display, display, Decimal};
use crate::money::{money_text, Currency, Money};
use crate::resource::address_text;
use crate::text::owned;

verus! {

/// The text of a component's quantity: the quantity (or its range) and unit.
pub open spec fn quantity_text(c: ComponentView) -> Seq<char> {
    match c.quantity_max {
        Some(max) => decimal_display(c.quantity) + "–"@ + decimal_display(max) + " "@ + c.quantity_unit,
        None => decimal_display(c.quantity) + " "@ + c.quantity_unit,
    }
}

/// The text of a component's monthly cost (or its range).
pub open spec fn cost_text(c: ComponentView) -> Seq<char> {
    match c.monthly_cost_max {
        Some(max) => money_text(c.monthly_cost) + "–"@ + money_text(max),
        None => money_text(c.monthly_cost),
    }
}

/// The row of a component of a resource: the resource's address and type on
/// its first row only, then the component's name, quantity, unit price and
/// monthly cost.
pub open spec fn component_row(r: ResourceCostView, c: ComponentView, first: bool) -> Seq<Seq<char>> {
    seq![
        if first { address_text(r.address) + "\n  "@ + r.resource_type } else { ""@ },
        c.name,
        quantity_text(c),
        money_text(c.unit_price),
        cost_text(c),
    ]
}

/// The rows of a resource, one per component.
pub open spec fn resource_rows(r: ResourceCostView) -> Seq<Seq<Seq<char>>> {
    Seq::new(r.components.len(), |j: int| component_row(r, r.components[j], j == 0))
}

/// The rows of a sequence of resources, in order.
pub open spec fn rows_of(rs: Seq<ResourceCostView>) -> Seq<Seq<Seq<char>>>
    decreases rs.len(),
{
    if rs.len() == 0 {
        Seq::empty()
    } else {
        rows_of(rs.drop_last()) + resource_rows(rs.last())
    }
}

/// The last row: the total.
pub open spec fn total_row(b: BreakdownView) -> Seq<Seq<char>> {
    seq!["TOTAL"@, ""@, ""@, ""@, money_text(b.total_monthly_cost)]
}

/// The rows of the breakdown table: the components of each resource, then the total.
pub open spec fn breakdown_rows(b: BreakdownView) -> Seq<Seq<Seq<char>>> {
    rows_of(b.resources).push(total_row(b))
}

/// The texts of a table's rows.
pub open spec fn table_view(t: Seq<Vec<String>>) -> Seq<Seq<Seq<char>>> {
    t.map_values(|row: Vec<String>| row@.map_values(|s: String| s@))
}

/// A row of five cells.
fn row5(a: String, b: String, c: String, d: String, e: String) -> (r: Vec<String>)
    ensures
        r@.map_values(|s: String| s@) == seq![a@, b@, c@, d@, e@],
{
    let r = vec![a, b, c, d, e];
    assert(r@.map_values(|s: String| s@) =~= seq![a@, b@, c@, d@, e@]);
    r
}

/// The text of a component's quantity.
fn quantity_cell(c: &CostComponent) -> (s: String)
    requires
        component_wf(c@),
    ensures
        s@ == quantity_text(c@),
{
    let mut s = display(&c.quantity);
    match &c.quantity_max {
        Some(max) => {
            s.append("–");
            let m = display(max);
            s.append(m.as_str());
        },
        None => {},
    }
    s.append(" ");
    s.append(c.quantity_unit.as_str());
    s
}

/// The text of a component's monthly cost.
fn cost_cell(c: &CostComponent) -> (s: String)
    requires
        component_wf(c@),
    ensures
        s@ == cost_text(c@),
{
    let mut s = c.monthly_cost.to_string();
    match &c.monthly_cost_max {
        Some(max) => {
            s.append("–");
            let m = max.to_string();
            s.append(m.as_str());
        },
        None => {},
    }
    s
}

/// Appends the rows of a resource to a table.
fn push_resource_rows(rows: &mut Vec<Vec<String>>, r: &ResourceCost)
    requires
        resource_cost_wf(r@),
    ensures
        table_view(final(rows)@) == table_view(old(rows)@) + resource_rows(r@),
{
    let mut j: usize = 0;
    assert(table_view(rows@) =~= table_view(old(rows)@) + resource_rows(r@).subrange(0, 0));
    while j < r.components.len()
        invariant
            j <= r.components@.len(),
            resource_cost_wf(r@),
            table_view(rows@) == table_view(old(rows)@) + resource_rows(r@).subrange(0, j as int),
        decreases r.components.len() - j,
    {
        let c = &r.components[j];
        assert(r@.components[j as int] == c@);
        assert(component_wf(r@.components[j as int]));
        let first = if j == 0 {
            let mut f = r.address.to_string();
            f.append("\n  ");
            f.append(r.resource_type.as_str());
            f
        } else {
            owned("")
        };
        let row = row5(first, c.name.clone(), quantity_cell(c), c.unit_price.to_string(), cost_cell(c));
        let ghost before = rows@;
        rows.push(row);
        proof {
            assert(table_view(rows@) =~= table_view(before).push(component_row(r@, c@, j == 0)));
            assert(resource_rows(r@).subrange(0, j + 1) =~= resource_rows(r@).subrange(0, j as int).push(component_row(r@, c@, j == 0)));
            assert(table_view(rows@) =~= table_view(old(rows)@) + resource_rows(r@).subrange(0, j + 1));
        }
        j = j + 1;
    }
    assert(resource_rows(r@).subrange(0, j as int) =~= resource_rows(r@));
}

/// The rows of the breakdown table.
pub fn breakdown_table(b: &Breakdown) -> (rows: Vec<Vec<String>>)
    requires
        breakdown_wf(b@),
    ensures
        table_view(rows@) == breakdown_rows(b@),
{
    let mut rows: Vec<Vec<String>> = Vec::new();
    let mut i: usize = 0;
    assert(table_view(rows@) =~= rows_of(b@.resources.subrange(0, 0)));
    while i < b.resources.len()
        invariant
            i <= b.resources@.len(),
            breakdown_wf(b@),
            table_view(rows@) == rows_of(b@.resources.subrange(0, i as int)),
        decreases b.resources.len() - i,
    {
        assert(b@.resources[i as int] == b.resources@[i as int]@);
        assert(resource_cost_wf(b@.resources[i as int]));
        push_resource_rows(&mut rows, &b.resources[i]);
        proof {
            let sub = b@.resources.subrange(0, i + 1);
            assert(sub.drop_last() =~= b@.resources.subrange(0, i as int));
            assert(sub.last() == b.resources@[i as int]@);
        }
        i = i + 1;
    }
    assert(b@.resources.subrange(0, i as int) =~= b@.resources);
    let total = row5(owned("TOTAL"), owned(""), owned(""), owned(""), b.total_monthly_cost.to_string());
    let ghost before = rows@;
    rows.push(total);
    assert(table_view(rows@) =~= table_view(before).push(total_row(b@)));
    rows
}

/// How a cell of the diff table is coloured.
#[derive(Clone, Copy, Debug, PartialEq, Eq, Structural)]
pub enum Tone {
    Green,
    Red,
    Yellow,
}

/// A row of the diff table: its cells, the colour of the change marker, and
/// the colour of the delta.
#[derive(Debug)]
pub struct DiffRow {
    pub cells: Vec<String>,
    pub marker: Tone,
    pub delta: Tone,
}

/// A diff row as plain values.
pub ghost struct DiffRowView {
    pub cells: Seq<Seq<char>>,
    pub marker: Tone,
    pub delta: Tone,
}

impl View for DiffRow {
    type V = DiffRowView;

    open spec fn view(&self) -> DiffRowView {
        DiffRowView { cells: self.cells@.map_values(|s: String| s@), marker: self.marker, delta: self.delta }
    }
}

/// The row of a change: an added resource in green with its total as the
/// delta; a removed one in red with minus its total; a modified one in yellow
/// with the difference of its totals, red when it is not negative and green
/// otherwise. `None` where that difference overflows.
pub open spec fn change_row(c: ChangeView) -> Option<DiffRowView> {
    match c {
        ChangeView::Added(a) => Some(DiffRowView {
            cells: seq!["+"@, address_text(a.address), "-"@, money_text(a.monthly_total), "+"@ + money_text(a.monthly_total)],
            marker: Tone::Green,
            delta: Tone::Green,
        }),
        ChangeView::Removed(r) => Some(DiffRowView {
            cells: seq!["-"@, address_text(r.address), money_text(r.monthly_total), "-"@, "-"@ + money_text(r.monthly_total)],
            marker: Tone::Red,
            delta: Tone::Red,
        }),
        ChangeView::Modified { before, after } => match decimal_difference(after.monthly_total.amount, before.monthly_total.amount) {
            None => None,
            Some(d) => Some(DiffRowView {
                cells: seq![
                    "~"@,
                    address_text(after.address),
                    money_text(before.monthly_total),
                    money_text(after.monthly_total),
                    money_text(Money { currency: after.monthly_total.currency, amount: d }),
                ],
                marker: Tone::Yellow,
                delta: if !d.negative { Tone::Red } else { Tone::Green },
            }),
        },
    }
}

/// The rows of a sequence of changes; `None` where a difference overflows.
pub open spec fn change_rows(cs: Seq<ChangeView>) -> Option<Seq<DiffRowView>>
    decreases cs.len(),
{
    if cs.len() == 0 {
        Some(Seq::empty())
    } else {
        match (change_rows(cs.drop_last()), change_row(cs.last())) {
            (Some(rows), Some(row)) => Some(rows.push(row)),
            _ => None,
        }
    }
}

/// Whether the totals of a change are well formed.
pub open spec fn change_wf(c: ChangeView) -> bool {
    match c {
        ChangeView::Added(a) => a.monthly_total.amount.wf(),
        ChangeView::Removed(r) => r.monthly_total.amount.wf(),
        ChangeView::Modified { before, after } => before.monthly_total.amount.wf() && after.monthly_total.amount.wf(),
    }
}

/// The row of a change.
fn diff_row(c: &Change) -> (r: Option<DiffRow>)
    requires
        change_wf(c@),
    ensures
        match (r, change_row(c@)) {
            (Some(x), Some(v)) => x@ == v,
            (None, None) => true,
            _ => false,
        },
{
    match c {
        Change::Added(a) => {
            let t = a.monthly_total.to_string();
            let cells = row5(owned("+"), a.address.to_string(), owned("-"), a.monthly_total.to_string(), crate::text::concat("+", t.as_str()));
            Some(DiffRow { cells, marker: Tone::Green, delta: Tone::Green })
        },
        Change::Removed(r) => {
            let t = r.monthly_total.to_string();
            let cells = row5(owned("-"), r.address.to_string(), r.monthly_total.to_string(), owned("-"), crate::text::concat("-", t.as_str()));
            Some(DiffRow { cells, marker: Tone::Red, delta: Tone::Red })
        },
        Change::Modified { before, after } => {
            let d = match crate::decimal::checked_sub(after.monthly_total.amount, before.monthly_total.amount) {
                Some(d) => d,
                None => return None,
            };
            let delta = Money { currency: after.monthly_total.currency, amount: d };
            let cells = row5(
                owned("~"),
                after.address.to_string(),
                before.monthly_total.to_string(),
                after.monthly_total.to_string(),
                delta.to_string(),
            );
            let tone = if !d.negative { Tone::Red } else { Tone::Green };
            Some(DiffRow { cells, marker: Tone::Yellow, delta: tone })
        },
    }
}

/// The rows of the diff table, one per change; `None` where the difference of
/// a modified resource's totals overflows.
pub fn diff_table(d: &Diff) -> (rows: Option<Vec<DiffRow>>)
    requires
        forall|i: int| 0 <= i < d.changes@.len() ==> change_wf((#[trigger] d.changes@[i])@),
    ensures
        match (rows, change_rows(change_views(d.changes@))) {
            (Some(x), Some(v)) => x@.map_values(|r: DiffRow| r@) == v,
            (None, None) => true,
            _ => false,
        },
{
    let ghost cv = change_views(d.changes@);
    let mut rows: Vec<DiffRow> = Vec::new();
    let mut i: usize = 0;
    assert(cv.subrange(0, 0) =~= Seq::<ChangeView>::empty());
    assert(rows@.map_values(|r: DiffRow| r@) =~= Seq::<DiffRowView>::empty());
    while i < d.changes.len()
        invariant
            i <= d.changes@.len(),
            cv == change_views(d.changes@),
            forall|j: int| 0 <= j < d.changes@.len() ==> change_wf((#[trigger] d.changes@[j])@),
            change_rows(cv.subrange(0, i as int)) == Some(rows@.map_values(|r: DiffRow| r@)),
        decreases d.changes.len() - i,
    {
        let c = &d.changes[i];
        assert(cv[i as int] == c@);
        proof {
            let sub = cv.subrange(0, i + 1);
            assert(sub.drop_last() =~= cv.subrange(0, i as int));
            assert(sub.last() == c@);
        }
        match diff_row(c) {
            None => {
                proof {
                    lemma_change_rows_none_extends(cv, i + 1);
                }
                return None;
            },
            Some(row) => {
                let ghost before = rows@;
                rows.push(row);
                assert(rows@.map_values(|r: DiffRow| r@) =~= before.map_values(|r: DiffRow| r@).push(row@));
            },
        }
        i = i + 1;
    }
    assert(cv.subrange(0, i as int) =~= cv);
    Some(rows)
}

/// Once a prefix of the changes has no rows, no longer prefix has any.
proof fn lemma_change_rows_none_extends(cs: Seq<ChangeView>, n: int)
    requires
        0 <= n <= cs.len(),
        change_rows(cs.subrange(0, n)) is None,
    ensures
        change_rows(cs) is None,
    decreases cs.len() - n,
{
    if n < cs.len() {
        assert(cs.subrange(0, n + 1).drop_last() =~= cs.subrange(0, n));
        lemma_change_rows_none_extends(cs, n + 1);
    } else {
        assert(cs.subrange(0, n) =~= cs);
    }
}

/// The line under the diff table: both totals and the delta.
pub open spec fn summary_text(d_before: Money, d_after: Money, delta: Money) -> Seq<char> {
    "Total before: "@ + money_text(d_before) + "  |  Total after: "@ + money_text(d_after) + "  |  Delta: "@ + money_text(delta)
}

/// The line under the diff table.
pub fn diff_summary(d: &Diff) -> (s: String)
    requires
        d.total_before.amount.wf(),
        d.total_after.amount.wf(),
        d.delta.amount.wf(),
    ensures
        s@ == summary_text(d.total_before, d.total_after, d.delta),
{
    let mut s = owned("Total before: ");
    let b = d.total_before.to_string();
    s.append(b.as_str());
    s.append("  |  Total after: ");
    let a = d.total_after.to_string();
    s.append(a.as_str());
    s.append("  |  Delta: ");
    let x = d.delta.to_string();
    s.append(x.as_str());
    s
}

} // verus!
