//! Cost components, per-resource costs, breakdowns and diffs between them.

use vstd::prelude::*;

use crate::decimal::{decimal_difference, Decimal};
use crate::money::{all_wf, fold_sum, BillingPeriod, Currency, Money};
use crate::resource::{address_text, AddressView, ResourceAddress};
use crate::text::owned;

verus! {

broadcast use vstd::seq_lib::group_to_multiset_ensures;

/// One priced line of a resource's cost.
#[derive(Debug)]
pub struct CostComponent {
    pub name: String,
    pub unit: BillingPeriod,
    pub quantity: Decimal,
    pub quantity_unit: String,
    pub unit_price: Money,
    pub monthly_cost: Money,
    pub quantity_max: Option<Decimal>,
    pub monthly_cost_max: Option<Money>,
}

/// A cost component as plain values.
pub ghost struct ComponentView {
    pub name: Seq<char>,
    pub unit: BillingPeriod,
    pub quantity: Decimal,
    pub quantity_unit: Seq<char>,
    pub unit_price: Money,
    pub monthly_cost: Money,
    pub quantity_max: Option<Decimal>,
    pub monthly_cost_max: Option<Money>,
}

impl View for CostComponent {
    type V = ComponentView;

    open spec fn view(&self) -> ComponentView {
        ComponentView {
            name: self.name@,
            unit: self.unit,
            quantity: self.quantity,
            quantity_unit: self.quantity_unit@,
            unit_price: self.unit_price,
            monthly_cost: self.monthly_cost,
            quantity_max: self.quantity_max,
            monthly_cost_max: self.monthly_cost_max,
        }
    }
}

impl CostComponent {
    /// A copy of this component.
    pub fn duplicate(&self) -> (c: CostComponent)
        ensures
            c@ == self@,
    {
        CostComponent {
            name: self.name.clone(),
            unit: self.unit,
            quantity: self.quantity,
            quantity_unit: self.quantity_unit.clone(),
            unit_price: self.unit_price,
            monthly_cost: self.monthly_cost,
            quantity_max: self.quantity_max,
            monthly_cost_max: self.monthly_cost_max,
        }
    }
}

/// Whether every decimal of a component is well formed.
pub open spec fn component_wf(c: ComponentView) -> bool {
    &&& c.quantity.wf()
    &&& c.unit_price.amount.wf()
    &&& c.monthly_cost.amount.wf()
    &&& (c.quantity_max matches Some(q) ==> q.wf())
    &&& (c.monthly_cost_max matches Some(m) ==> m.amount.wf())
}

/// The views of a sequence of components.
pub open spec fn component_views(cs: Seq<CostComponent>) -> Seq<ComponentView> {
    cs.map_values(|c: CostComponent| c@)
}

/// The monthly cost amounts of a sequence of components.
pub open spec fn component_costs(cs: Seq<ComponentView>) -> Seq<Decimal> {
    cs.map_values(|c: ComponentView| c.monthly_cost.amount)
}

/// The cost of one resource.
#[derive(Debug)]
pub struct ResourceCost {
    pub address: ResourceAddress,
    pub resource_type: String,
    pub components: Vec<CostComponent>,
    pub monthly_total: Money,
}

/// A resource cost as plain values.
pub ghost struct ResourceCostView {
    pub address: AddressView,
    pub resource_type: Seq<char>,
    pub components: Seq<ComponentView>,
    pub monthly_total: Money,
}

impl View for ResourceCost {
    type V = ResourceCostView;

    open spec fn view(&self) -> ResourceCostView {
        ResourceCostView {
            address: self.address@,
            resource_type: self.resource_type@,
            components: component_views(self.components@),
            monthly_total: self.monthly_total,
        }
    }
}

/// Whether every decimal of a resource cost is well formed.
pub open spec fn resource_cost_wf(r: ResourceCostView) -> bool {
    &&& r.monthly_total.amount.wf()
    &&& forall|j: int| 0 <= j < r.components.len() ==> component_wf(#[trigger] r.components[j])
}

/// Whether every decimal of a breakdown is well formed.
pub open spec fn breakdown_wf(b: BreakdownView) -> bool {
    &&& b.total_monthly_cost.amount.wf()
    &&& forall|i: int| 0 <= i < b.resources.len() ==> resource_cost_wf(#[trigger] b.resources[i])
}

/// The views of a sequence of resource costs.
pub open spec fn cost_views(rs: Seq<ResourceCost>) -> Seq<ResourceCostView> {
    rs.map_values(|r: ResourceCost| r@)
}

/// The monthly totals of a sequence of resource costs.
pub open spec fn resource_totals(rs: Seq<ResourceCostView>) -> Seq<Decimal> {
    rs.map_values(|r: ResourceCostView| r.monthly_total.amount)
}

/// Copies a list of strings.
fn copy_strings(v: &Vec<String>) -> (r: Vec<String>)
    ensures
        r@.map_values(|s: String| s@) == v@.map_values(|s: String| s@),
{
    let mut r: Vec<String> = Vec::new();
    let mut i: usize = 0;
    while i < v.len()
        invariant
            i <= v@.len(),
            r@.len() == i,
            forall|j: int| 0 <= j < i ==> (#[trigger] r@[j])@ == v@[j]@,
        decreases v.len() - i,
    {
        r.push(v[i].clone());
        i = i + 1;
    }
    assert(r@.map_values(|s: String| s@) =~= v@.map_values(|s: String| s@));
    r
}

/// Copies an address.
pub fn duplicate_address(a: &ResourceAddress) -> (r: ResourceAddress)
    ensures
        r@ == a@,
{
    ResourceAddress {
        modules: copy_strings(&a.modules),
        kind: crate::resource::ResourceKind {
            cloud: a.kind.cloud,
            tf_type: crate::resource::ResourceTypeName(a.kind.tf_type.0.clone()),
        },
        name: a.name.clone(),
    }
}

impl ResourceCost {
    /// Whether the component costs are well formed and add up without overflow.
    pub open spec fn components_summable(components: Seq<CostComponent>) -> bool {
        &&& all_wf(component_costs(component_views(components)))
        &&& fold_sum(component_costs(component_views(components))) is Some
    }

    /// The cost of `address` of type `resource_type` made of `components`;
    /// `None` where adding up the component costs overflows.
    pub fn checked_new(address: ResourceAddress, resource_type: &str, components: Vec<CostComponent>) -> (r: Option<ResourceCost>)
        requires
            all_wf(component_costs(component_views(components@))),
        ensures
            r is Some <==> fold_sum(component_costs(component_views(components@))) is Some,
            r matches Some(c) ==> c@ == (ResourceCostView {
                address: address@,
                resource_type: resource_type@,
                components: component_views(components@),
                monthly_total: Money {
                    currency: Currency::USD,
                    amount: fold_sum(component_costs(component_views(components@)))->0,
                },
            }),
            r matches Some(c) ==> c.monthly_total.wf(),
    {
        let mut costs: Vec<Money> = Vec::new();
        let mut i: usize = 0;
        let ghost cc = component_costs(component_views(components@));
        while i < components.len()
            invariant
                i <= components@.len(),
                cc == component_costs(component_views(components@)),
                all_wf(cc),
                crate::money::amounts(costs@) == cc.subrange(0, i as int),
            decreases components.len() - i,
        {
            let ghost old_costs = costs@;
            assert(component_views(components@)[i as int] == components@[i as int]@);
            assert(cc[i as int] == components@[i as int].monthly_cost.amount);
            costs.push(components[i].monthly_cost);
            assert(costs@ == old_costs.push(components@[i as int].monthly_cost));
            assert(crate::money::amounts(old_costs).len() == old_costs.len());
            assert(old_costs.len() == i);
            assert forall|j: int| 0 <= j <= i implies #[trigger] crate::money::amounts(costs@)[j] == cc[j] by {
                if j < i {
                    assert(crate::money::amounts(old_costs)[j] == cc.subrange(0, i as int)[j]);
                    assert(costs@[j] == old_costs[j]);
                }
            }
            i = i + 1;
            assert(crate::money::amounts(costs@) =~= cc.subrange(0, i as int));
        }
        assert(cc.subrange(0, components@.len() as int) =~= cc);
        match Money::checked_sum(&costs) {
            Some(total) => Some(ResourceCost {
                address,
                resource_type: owned(resource_type),
                components,
                monthly_total: total,
            }),
            None => None,
        }
    }

    /// The cost of `address` of type `resource_type` made of `components`; its
    /// monthly total is the sum of the component costs.
    pub fn new(address: ResourceAddress, resource_type: &str, components: Vec<CostComponent>) -> (r: ResourceCost)
        requires
            ResourceCost::components_summable(components@),
        ensures
            r@ == (ResourceCostView {
                address: address@,
                resource_type: resource_type@,
                components: component_views(components@),
                monthly_total: Money {
                    currency: Currency::USD,
                    amount: fold_sum(component_costs(component_views(components@)))->0,
                },
            }),
            r.monthly_total.wf(),
    {
        ResourceCost::checked_new(address, resource_type, components).unwrap()
    }

    /// A copy of this resource cost.
    pub fn duplicate(&self) -> (r: ResourceCost)
        ensures
            r@ == self@,
    {
        let mut cs: Vec<CostComponent> = Vec::new();
        let mut i: usize = 0;
        while i < self.components.len()
            invariant
                i <= self.components@.len(),
                cs@.len() == i,
                forall|j: int| 0 <= j < i ==> (#[trigger] cs@[j])@ == self.components@[j]@,
            decreases self.components.len() - i,
        {
            cs.push(self.components[i].duplicate());
            i = i + 1;
        }
        assert(component_views(cs@) =~= component_views(self.components@));
        ResourceCost {
            address: duplicate_address(&self.address),
            resource_type: self.resource_type.clone(),
            components: cs,
            monthly_total: self.monthly_total,
        }
    }
}

/// The costs of a set of resources and their total.
#[derive(Debug)]
pub struct Breakdown {
    pub resources: Vec<ResourceCost>,
    pub total_monthly_cost: Money,
}

/// A breakdown as plain values.
pub ghost struct BreakdownView {
    pub resources: Seq<ResourceCostView>,
    pub total_monthly_cost: Money,
}

impl View for Breakdown {
    type V = BreakdownView;

    open spec fn view(&self) -> BreakdownView {
        BreakdownView { resources: cost_views(self.resources@), total_monthly_cost: self.total_monthly_cost }
    }
}

/// The sort key of a resource cost: its monthly total.
pub open spec fn total_key(r: ResourceCostView) -> int {
    r.monthly_total.amount.num()
}

/// Inserts `x` into `t` after every element whose total is at most that of `x`
/// (counting from the end): one step of a stable insertion sort.
pub open spec fn insert_by_total(t: Seq<ResourceCostView>, x: ResourceCostView) -> Seq<ResourceCostView>
    decreases t.len(),
{
    if t.len() == 0 {
        seq![x]
    } else if total_key(t.last()) <= total_key(x) {
        t.push(x)
    } else {
        insert_by_total(t.drop_last(), x).push(t.last())
    }
}

/// The resource costs in ascending order of monthly total, equal totals keeping
/// their relative order (what a stable sort by total gives).
pub open spec fn sorted_by_total(s: Seq<ResourceCostView>) -> Seq<ResourceCostView>
    decreases s.len(),
{
    if s.len() == 0 {
        s
    } else {
        insert_by_total(sorted_by_total(s.drop_last()), s.last())
    }
}

/// Whether the totals are in ascending order.
pub open spec fn ascending(s: Seq<ResourceCostView>) -> bool {
    forall|i: int, j: int| 0 <= i < j < s.len() ==> total_key(s[i]) <= total_key(s[j])
}

/// Whether every total in a sequence of costs is well formed.
pub open spec fn totals_wf(s: Seq<ResourceCostView>) -> bool {
    forall|i: int| 0 <= i < s.len() ==> (#[trigger] s[i]).monthly_total.wf()
}

/// Inserting where the scan from the end stops gives the stable insertion.
proof fn lemma_insert_at(t: Seq<ResourceCostView>, x: ResourceCostView, j: int)
    requires
        0 <= j <= t.len(),
        forall|k: int| j <= k < t.len() ==> total_key(x) < total_key(#[trigger] t[k]),
        j > 0 ==> total_key(t[j - 1]) <= total_key(x),
    ensures
        insert_by_total(t, x) == t.insert(j, x),
    decreases t.len(),
{
    if t.len() == 0 {
        assert(t.insert(j, x) =~= seq![x]);
    } else if j == t.len() {
        assert(t.insert(j, x) =~= t.push(x));
    } else {
        assert(total_key(x) < total_key(t[t.len() - 1]));
        lemma_insert_at(t.drop_last(), x, j);
        assert(t.drop_last().insert(j, x).push(t.last()) =~= t.insert(j, x));
    }
}

/// The stable insertion keeps the order and adds `x` once.
proof fn lemma_insert_by_total_sorted(t: Seq<ResourceCostView>, x: ResourceCostView)
    requires
        ascending(t),
    ensures
        ascending(insert_by_total(t, x)),
        insert_by_total(t, x).to_multiset() == t.to_multiset().insert(x),
        insert_by_total(t, x).len() == t.len() + 1,
        forall|k: int| 0 <= k < insert_by_total(t, x).len() ==> #[trigger] insert_by_total(t, x)[k] == x || exists|m: int| 0 <= m < t.len() && insert_by_total(t, x)[k] == t[m],
    decreases t.len(),
{
    if t.len() == 0 {
        assert(seq![x] =~= Seq::<ResourceCostView>::empty().push(x));
        assert(insert_by_total(t, x)[0] == x);
    } else if total_key(t.last()) <= total_key(x) {
        assert forall|k: int| 0 <= k < t.push(x).len() implies #[trigger] t.push(x)[k] == x || exists|m: int| 0 <= m < t.len() && t.push(x)[k] == t[m] by {
            if k < t.len() {
                assert(t.push(x)[k] == t[k]);
            }
        }
    } else {
        let u = insert_by_total(t.drop_last(), x);
        lemma_insert_by_total_sorted(t.drop_last(), x);
        assert(t.drop_last().push(t.last()) =~= t);
        let w = u.push(t.last());
        assert forall|a: int, b: int| 0 <= a < b < w.len() implies total_key(w[a]) <= total_key(w[b]) by {
            assert(w[a] == u[a]);
            if b == w.len() - 1 {
                assert(w[b] == t[t.len() - 1]);
                if u[a] != x {
                    let m = choose|m: int| 0 <= m < t.drop_last().len() && u[a] == t.drop_last()[m];
                    assert(t.drop_last()[m] == t[m]);
                }
            } else {
                assert(w[b] == u[b]);
            }
        }
        assert forall|k: int| 0 <= k < w.len() implies #[trigger] w[k] == x || exists|m: int| 0 <= m < t.len() && w[k] == t[m] by {
            if k == w.len() - 1 {
                assert(w[k] == t[t.len() - 1]);
            } else {
                assert(w[k] == u[k]);
                if u[k] != x {
                    let m = choose|m: int| 0 <= m < t.drop_last().len() && u[k] == t.drop_last()[m];
                    assert(t.drop_last()[m] == t[m]);
                }
            }
        }
    }
}

/// Sorting by total gives an ascending permutation of the costs.
pub proof fn lemma_sorted_by_total(s: Seq<ResourceCostView>)
    ensures
        ascending(sorted_by_total(s)),
        sorted_by_total(s).to_multiset() == s.to_multiset(),
        sorted_by_total(s).len() == s.len(),
    decreases s.len(),
{
    if s.len() > 0 {
        lemma_sorted_by_total(s.drop_last());
        lemma_insert_by_total_sorted(sorted_by_total(s.drop_last()), s.last());
        assert(s.drop_last().push(s.last()) =~= s);
    }
}

/// The reverse of a sequence.
pub open spec fn reversed<T>(s: Seq<T>) -> Seq<T> {
    Seq::new(s.len(), |i: int| s[s.len() - 1 - i])
}

impl Breakdown {
    /// The breakdown of `resources`; `None` where adding up the totals overflows.
    pub fn checked_new(resources: Vec<ResourceCost>) -> (r: Option<Breakdown>)
        requires
            all_wf(resource_totals(cost_views(resources@))),
        ensures
            r is Some <==> fold_sum(resource_totals(cost_views(resources@))) is Some,
            r matches Some(b) ==> b@ == (BreakdownView {
                resources: cost_views(resources@),
                total_monthly_cost: Money {
                    currency: Currency::USD,
                    amount: fold_sum(resource_totals(cost_views(resources@)))->0,
                },
            }),
            r matches Some(b) ==> b.total_monthly_cost.amount.wf(),
    {
        let mut totals: Vec<Money> = Vec::new();
        let mut i: usize = 0;
        let ghost tt = resource_totals(cost_views(resources@));
        while i < resources.len()
            invariant
                i <= resources@.len(),
                tt == resource_totals(cost_views(resources@)),
                all_wf(tt),
                crate::money::amounts(totals@) == tt.subrange(0, i as int),
            decreases resources.len() - i,
        {
            let ghost old_totals = totals@;
            assert(cost_views(resources@)[i as int] == resources@[i as int]@);
            assert(tt[i as int] == resources@[i as int].monthly_total.amount);
            totals.push(resources[i].monthly_total);
            assert(totals@ == old_totals.push(resources@[i as int].monthly_total));
            assert(crate::money::amounts(old_totals).len() == old_totals.len());
            assert(old_totals.len() == i);
            assert forall|j: int| 0 <= j <= i implies #[trigger] crate::money::amounts(totals@)[j] == tt[j] by {
                if j < i {
                    assert(crate::money::amounts(old_totals)[j] == tt.subrange(0, i as int)[j]);
                    assert(totals@[j] == old_totals[j]);
                }
            }
            i = i + 1;
            assert(crate::money::amounts(totals@) =~= tt.subrange(0, i as int));
        }
        assert(tt.subrange(0, resources@.len() as int) =~= tt);
        match Money::checked_sum(&totals) {
            Some(total) => Some(Breakdown { resources, total_monthly_cost: total }),
            None => None,
        }
    }

    /// The breakdown of `resources`; its total is the sum of their totals.
    pub fn new(resources: Vec<ResourceCost>) -> (b: Breakdown)
        requires
            all_wf(resource_totals(cost_views(resources@))),
            fold_sum(resource_totals(cost_views(resources@))) is Some,
        ensures
            b@ == (BreakdownView {
                resources: cost_views(resources@),
                total_monthly_cost: Money {
                    currency: Currency::USD,
                    amount: fold_sum(resource_totals(cost_views(resources@)))->0,
                },
            }),
    {
        Breakdown::checked_new(resources).unwrap()
    }

    /// Orders the resources by ascending monthly total (a stable sort), then
    /// reverses the order when `reverse` is set.
    pub fn sort(&mut self, reverse: bool)
        requires
            totals_wf(old(self)@.resources),
        ensures
            final(self)@.total_monthly_cost == old(self)@.total_monthly_cost,
            !reverse ==> final(self)@.resources == sorted_by_total(old(self)@.resources),
            reverse ==> final(self)@.resources == reversed(sorted_by_total(old(self)@.resources)),
    {
        let ghost orig = old(self)@.resources;
        let mut items: Vec<ResourceCost> = Vec::new();
        std::mem::swap(&mut items, &mut self.resources);
        let mut sorted: Vec<ResourceCost> = Vec::new();
        let ghost n = orig.len();
        while items.len() > 0
            invariant
                n == orig.len(),
                totals_wf(orig),
                items@.len() <= n,
                cost_views(items@) == orig.subrange(n - items@.len(), n as int),
                cost_views(sorted@) == sorted_by_total(orig.subrange(0, n - items@.len())),
                totals_wf(cost_views(sorted@)),
            decreases items.len(),
        {
            let ghost k = n - items@.len();
            let ghost old_items = items@;
            assert(cost_views(old_items)[0] == old_items[0]@);
            assert(cost_views(old_items)[0] == orig[k]);
            let x = items.remove(0);
            assert(items@ == old_items.remove(0));
            assert forall|j: int| 0 <= j < items@.len() implies #[trigger] cost_views(items@)[j] == orig[k + 1 + j] by {
                assert(items@[j] == old_items[j + 1]);
                assert(cost_views(old_items)[j + 1] == orig.subrange(k, n as int)[j + 1]);
            }
            assert(x@ == orig[k]);
            assert(cost_views(items@) =~= orig.subrange(k + 1, n as int));
            proof {
                lemma_sorted_by_total(orig.subrange(0, k));
                assert(cost_views(sorted@).to_multiset() == orig.subrange(0, k).to_multiset());
            }
            let mut j: usize = sorted.len();
            while j > 0 && crate::decimal::lt(&x.monthly_total.amount, &sorted[j - 1].monthly_total.amount)
                invariant
                    j <= sorted@.len(),
                    x.monthly_total.wf(),
                    totals_wf(cost_views(sorted@)),
                    forall|m: int| j <= m < sorted@.len() ==> total_key(x@) < total_key(#[trigger] cost_views(sorted@)[m]),
                decreases j,
            {
                assert(cost_views(sorted@)[j - 1].monthly_total.wf());
                j = j - 1;
            }
            proof {
                if j > 0 {
                    assert(cost_views(sorted@)[j - 1].monthly_total.wf());
                }
                lemma_insert_at(cost_views(sorted@), x@, j as int);
            }
            let ghost before_insert = sorted@;
            sorted.insert(j, x);
            assert(cost_views(sorted@) =~= cost_views(before_insert).insert(j as int, x@));
            proof {
                let pre = orig.subrange(0, k + 1);
                assert(pre.drop_last() =~= orig.subrange(0, k));
                assert(pre.last() == orig[k]);
                assert forall|m: int| 0 <= m < cost_views(sorted@).len() implies (#[trigger] cost_views(sorted@)[m]).monthly_total.wf() by {
                    if m < j {
                        assert(cost_views(sorted@)[m] == cost_views(before_insert)[m]);
                    } else if m > j {
                        assert(cost_views(sorted@)[m] == cost_views(before_insert)[m - 1]);
                    }
                }
            }
        }
        assert(orig.subrange(0, n as int) =~= orig);
        if reverse {
            let mut out: Vec<ResourceCost> = Vec::new();
            let ghost full = cost_views(sorted@);
            while sorted.len() > 0
                invariant
                    sorted@.len() + out@.len() == full.len(),
                    cost_views(sorted@) == full.subrange(0, sorted@.len() as int),
                    cost_views(out@) == reversed(full).subrange(0, out@.len() as int),
                decreases sorted.len(),
            {
                let ghost m = sorted@.len();
                let ghost old_sorted = sorted@;
                assert(cost_views(old_sorted)[m - 1] == old_sorted[m - 1]@);
                assert(cost_views(old_sorted)[m - 1] == full[m - 1]);
                let x = sorted.pop().unwrap();
                assert(sorted@ == old_sorted.drop_last());
                assert(x@ == full[m - 1]);
                out.push(x);
                assert(cost_views(sorted@) =~= full.subrange(0, sorted@.len() as int));
                assert(cost_views(out@) =~= reversed(full).subrange(0, out@.len() as int));
            }
            assert(reversed(full).subrange(0, full.len() as int) =~= reversed(full));
            self.resources = out;
        } else {
            self.resources = sorted;
        }
    }
}

/// How one resource's cost changed between two breakdowns.
#[derive(Debug)]
pub enum Change {
    Added(ResourceCost),
    Removed(ResourceCost),
    Modified { before: ResourceCost, after: ResourceCost },
}

/// A change as plain values.
pub ghost enum ChangeView {
    Added(ResourceCostView),
    Removed(ResourceCostView),
    Modified { before: ResourceCostView, after: ResourceCostView },
}

impl View for Change {
    type V = ChangeView;

    open spec fn view(&self) -> ChangeView {
        match self {
            Change::Added(c) => ChangeView::Added(c@),
            Change::Removed(c) => ChangeView::Removed(c@),
            Change::Modified { before, after } => ChangeView::Modified { before: before@, after: after@ },
        }
    }
}

/// The differences between two breakdowns.
#[derive(Debug)]
pub struct Diff {
    pub changes: Vec<Change>,
    pub total_before: Money,
    pub total_after: Money,
    pub delta: Money,
}

/// Resource costs keyed by printed address, in first-seen order; a later
/// resource with the same address replaces the earlier one in its place (how an
/// `IndexMap` collects them).
pub open spec fn index_by_address(rs: Seq<ResourceCostView>) -> Seq<(Seq<char>, ResourceCostView)>
    decreases rs.len(),
{
    if rs.len() == 0 {
        Seq::empty()
    } else {
        let t = index_by_address(rs.drop_last());
        let x = rs.last();
        let k = address_text(x.address);
        match find_key(t, k) {
            Some(p) => t.update(p, (k, x)),
            None => t.push((k, x)),
        }
    }
}

/// The first position of key `k`.
pub open spec fn find_key(t: Seq<(Seq<char>, ResourceCostView)>, k: Seq<char>) -> Option<int>
    decreases t.len(),
{
    if t.len() == 0 {
        None
    } else {
        match find_key(t.drop_last(), k) {
            Some(p) => Some(p),
            None => if t.last().0 == k { Some(t.len() - 1) } else { None },
        }
    }
}

/// Whether two amounts are equal in currency and value.
pub open spec fn same_money(a: Money, b: Money) -> bool {
    a.currency == b.currency && a.amount.num() == b.amount.num()
}

/// For each resource before, in order: `Removed` when its address is gone,
/// `Modified` when its total changed, nothing when it is unchanged.
pub open spec fn removed_or_modified(bm: Seq<(Seq<char>, ResourceCostView)>, am: Seq<(Seq<char>, ResourceCostView)>) -> Seq<ChangeView>
    decreases bm.len(),
{
    if bm.len() == 0 {
        Seq::empty()
    } else {
        let prev = removed_or_modified(bm.drop_last(), am);
        let (k, b) = bm.last();
        match find_key(am, k) {
            Some(p) => if same_money(b.monthly_total, am[p].1.monthly_total) {
                prev
            } else {
                prev.push(ChangeView::Modified { before: b, after: am[p].1 })
            },
            None => prev.push(ChangeView::Removed(b)),
        }
    }
}

/// For each resource after whose address was not there before, in order: `Added`.
pub open spec fn added(bm: Seq<(Seq<char>, ResourceCostView)>, am: Seq<(Seq<char>, ResourceCostView)>) -> Seq<ChangeView>
    decreases am.len(),
{
    if am.len() == 0 {
        Seq::empty()
    } else {
        let prev = added(bm, am.drop_last());
        let (k, a) = am.last();
        if find_key(bm, k) is None {
            prev.push(ChangeView::Added(a))
        } else {
            prev
        }
    }
}

/// The changes from `before` to `after`: removals and modifications in the
/// order of `before`, then additions in the order of `after`.
pub open spec fn diff_changes(before: Seq<ResourceCostView>, after: Seq<ResourceCostView>) -> Seq<ChangeView> {
    let bm = index_by_address(before);
    let am = index_by_address(after);
    removed_or_modified(bm, am) + added(bm, am)
}

/// Whether the keys of an index are distinct.
pub open spec fn keys_distinct(t: Seq<(Seq<char>, ResourceCostView)>) -> bool {
    forall|i: int, j: int| 0 <= i < j < t.len() ==> t[i].0 != t[j].0
}

/// An address index holds each address once.
pub proof fn lemma_index_keys_distinct(rs: Seq<ResourceCostView>)
    ensures
        keys_distinct(index_by_address(rs)),
    decreases rs.len(),
{
    if rs.len() > 0 {
        let t = index_by_address(rs.drop_last());
        lemma_index_keys_distinct(rs.drop_last());
        let k = address_text(rs.last().address);
        lemma_find_key_found(t, k);
    }
}

/// In an index with distinct keys, the key at position `i` is found there.
proof fn lemma_find_own_key(t: Seq<(Seq<char>, ResourceCostView)>, i: int)
    requires
        keys_distinct(t),
        0 <= i < t.len(),
    ensures
        find_key(t, t[i].0) == Some(i),
{
    lemma_find_key_found(t, t[i].0);
    if let Some(p) = find_key(t, t[i].0) {
        if p != i {
            if p < i {
                assert(t[p].0 != t[i].0);
            } else {
                assert(t[i].0 != t[p].0);
            }
        }
    }
}

/// Comparing an index with itself finds nothing removed or modified in a prefix.
proof fn lemma_no_change_prefix(t: Seq<(Seq<char>, ResourceCostView)>, n: int)
    requires
        keys_distinct(t),
        0 <= n <= t.len(),
    ensures
        removed_or_modified(t.subrange(0, n), t) == Seq::<ChangeView>::empty(),
        added(t, t.subrange(0, n)) == Seq::<ChangeView>::empty(),
    decreases n,
{
    if n > 0 {
        lemma_no_change_prefix(t, n - 1);
        assert(t.subrange(0, n).drop_last() =~= t.subrange(0, n - 1));
        assert(t.subrange(0, n).last() == t[n - 1]);
        lemma_find_own_key(t, n - 1);
    }
}

/// A breakdown compared with itself has no changes.
pub proof fn lemma_diff_with_itself_is_empty(rs: Seq<ResourceCostView>)
    ensures
        diff_changes(rs, rs) == Seq::<ChangeView>::empty(),
{
    let t = index_by_address(rs);
    lemma_index_keys_distinct(rs);
    lemma_no_change_prefix(t, t.len() as int);
    assert(t.subrange(0, t.len() as int) =~= t);
    assert(Seq::<ChangeView>::empty() + Seq::<ChangeView>::empty() =~= Seq::<ChangeView>::empty());
}

/// The views of a sequence of changes.
pub open spec fn change_views(cs: Seq<Change>) -> Seq<ChangeView> {
    cs.map_values(|c: Change| c@)
}

/// An address index entry: the printed address and the position of the cost.
struct Entry {
    key: String,
    pos: usize,
}

/// The index entries as keys and costs.
spec fn entries_view(es: Seq<Entry>, rs: Seq<ResourceCostView>) -> Seq<(Seq<char>, ResourceCostView)> {
    es.map_values(|e: Entry| (e.key@, rs[e.pos as int]))
}

/// The position of a key among index entries.
fn find_entry(es: &Vec<Entry>, k: &String, Ghost(rs): Ghost<Seq<ResourceCostView>>) -> (r: Option<usize>)
    requires
        forall|i: int| 0 <= i < es@.len() ==> (#[trigger] es@[i]).pos < rs.len(),
    ensures
        r matches Some(p) ==> find_key(entries_view(es@, rs), k@) == Some(p as int) && p < es@.len(),
        r is None ==> find_key(entries_view(es@, rs), k@) is None,
{
    let mut i: usize = 0;
    while i < es.len()
        invariant
            i <= es@.len(),
            forall|j: int| 0 <= j < es@.len() ==> (#[trigger] es@[j]).pos < rs.len(),
            find_key(entries_view(es@.subrange(0, i as int), rs), k@) is None,
        decreases es.len() - i,
    {
        let ghost pre = entries_view(es@.subrange(0, i + 1), rs);
        assert(pre.drop_last() =~= entries_view(es@.subrange(0, i as int), rs));
        if es[i].key == *k {
            proof {
                lemma_find_key_prefix(entries_view(es@, rs), k@, i as int + 1);
                assert(entries_view(es@, rs).subrange(0, i + 1) =~= pre);
            }
            return Some(i);
        }
        i = i + 1;
    }
    assert(es@.subrange(0, es@.len() as int) =~= es@);
    None
}

/// A key found in a prefix is found at the same place in the whole.
proof fn lemma_find_key_prefix(t: Seq<(Seq<char>, ResourceCostView)>, k: Seq<char>, n: int)
    requires
        0 <= n <= t.len(),
        find_key(t.subrange(0, n), k) is Some,
    ensures
        find_key(t, k) == find_key(t.subrange(0, n), k),
    decreases t.len() - n,
{
    if n < t.len() {
        assert(t.subrange(0, n + 1).drop_last() =~= t.subrange(0, n));
        lemma_find_key_prefix(t, k, n + 1);
    } else {
        assert(t.subrange(0, n) =~= t);
    }
}

/// A found key is at its position.
proof fn lemma_find_key_found(t: Seq<(Seq<char>, ResourceCostView)>, k: Seq<char>)
    ensures
        find_key(t, k) matches Some(p) ==> 0 <= p < t.len() && t[p].0 == k,
        find_key(t, k) is None ==> forall|i: int| 0 <= i < t.len() ==> (#[trigger] t[i]).0 != k,
    decreases t.len(),
{
    if t.len() > 0 {
        lemma_find_key_found(t.drop_last(), k);
        if find_key(t.drop_last(), k) is None {
            assert forall|i: int| 0 <= i < t.len() - 1 implies (#[trigger] t[i]).0 != k by {
                assert(t[i] == t.drop_last()[i]);
            }
        }
    }
}

/// Indexes resource costs by printed address.
fn index_costs(rs: &Vec<ResourceCost>) -> (es: Vec<Entry>)
    ensures
        forall|i: int| 0 <= i < es@.len() ==> (#[trigger] es@[i]).pos < rs@.len(),
        entries_view(es@, cost_views(rs@)) == index_by_address(cost_views(rs@)),
{
    let ghost views = cost_views(rs@);
    let mut es: Vec<Entry> = Vec::new();
    let mut i: usize = 0;
    while i < rs.len()
        invariant
            i <= rs@.len(),
            views == cost_views(rs@),
            forall|j: int| 0 <= j < es@.len() ==> (#[trigger] es@[j]).pos < i,
            entries_view(es@, views) == index_by_address(views.subrange(0, i as int)),
        decreases rs.len() - i,
    {
        let k = rs[i].address.to_string();
        let ghost pre = views.subrange(0, i + 1);
        assert(pre.drop_last() =~= views.subrange(0, i as int));
        assert(pre.last() == rs@[i as int]@);
        let found = find_entry(&es, &k, Ghost(views));
        let ghost old_es = es@;
        match found {
            Some(p) => {
                es.set(p, Entry { key: k, pos: i });
                assert(entries_view(es@, views) =~= entries_view(old_es, views).update(p as int, (address_text(rs@[i as int]@.address), views[i as int])));
            },
            None => {
                es.push(Entry { key: k, pos: i });
                assert(entries_view(es@, views) =~= entries_view(old_es, views).push((address_text(rs@[i as int]@.address), views[i as int])));
            },
        }
        i = i + 1;
    }
    assert(views.subrange(0, rs@.len() as int) =~= views);
    es
}

impl Diff {
    /// Whether the totals of both breakdowns are well formed.
    pub open spec fn inputs_wf(before: BreakdownView, after: BreakdownView) -> bool {
        &&& before.total_monthly_cost.wf()
        &&& after.total_monthly_cost.wf()
        &&& totals_wf(before.resources)
        &&& totals_wf(after.resources)
    }

    /// The diff from `before` to `after`; `None` where the difference of the
    /// totals overflows.
    pub fn checked_compute(before: &Breakdown, after: &Breakdown) -> (r: Option<Diff>)
        requires
            Diff::inputs_wf(before@, after@),
        ensures
            r is Some <==> decimal_difference(after@.total_monthly_cost.amount, before@.total_monthly_cost.amount) is Some,
            r matches Some(d) ==> change_views(d.changes@) == diff_changes(before@.resources, after@.resources),
            r matches Some(d) ==> d.total_before == before.total_monthly_cost,
            r matches Some(d) ==> d.total_after == after.total_monthly_cost,
            r matches Some(d) ==> d.delta.currency == after.total_monthly_cost.currency && Some(d.delta.amount) == decimal_difference(after.total_monthly_cost.amount, before.total_monthly_cost.amount),
    {
        let delta = match after.total_monthly_cost.checked_sub(before.total_monthly_cost) {
            Some(d) => d,
            None => return None,
        };
        let bes = index_costs(&before.resources);
        let aes = index_costs(&after.resources);
        let ghost bm = entries_view(bes@, cost_views(before.resources@));
        let ghost am = entries_view(aes@, cost_views(after.resources@));
        let mut changes: Vec<Change> = Vec::new();
        let mut i: usize = 0;
        while i < bes.len()
            invariant
                i <= bes@.len(),
                bm == entries_view(bes@, cost_views(before.resources@)),
                am == entries_view(aes@, cost_views(after.resources@)),
                forall|j: int| 0 <= j < bes@.len() ==> (#[trigger] bes@[j]).pos < before.resources@.len(),
                forall|j: int| 0 <= j < aes@.len() ==> (#[trigger] aes@[j]).pos < after.resources@.len(),
                totals_wf(cost_views(before.resources@)),
                totals_wf(cost_views(after.resources@)),
                change_views(changes@) == removed_or_modified(bm.subrange(0, i as int), am),
            decreases bes.len() - i,
        {
            let ghost pre = bm.subrange(0, i + 1);
            assert(pre.drop_last() =~= bm.subrange(0, i as int));
            assert(pre.last() == bm[i as int]);
            let b = &before.resources[bes[i].pos];
            assert(b@ == cost_views(before.resources@)[bes@[i as int].pos as int]);
            let ghost old_changes = changes@;
            match find_entry(&aes, &bes[i].key, Ghost(cost_views(after.resources@))) {
                Some(p) => {
                    let a = &after.resources[aes[p].pos];
                    assert(a@ == am[p as int].1);
                    assert(cost_views(before.resources@)[bes@[i as int].pos as int].monthly_total.wf());
                    assert(cost_views(after.resources@)[aes@[p as int].pos as int].monthly_total.wf());
                    if !b.monthly_total.equals(&a.monthly_total) {
                        changes.push(Change::Modified { before: b.duplicate(), after: a.duplicate() });
                        assert(change_views(changes@) =~= change_views(old_changes).push(ChangeView::Modified { before: b@, after: a@ }));
                    }
                },
                None => {
                    changes.push(Change::Removed(b.duplicate()));
                    assert(change_views(changes@) =~= change_views(old_changes).push(ChangeView::Removed(b@)));
                },
            }
            i = i + 1;
        }
        assert(bm.subrange(0, bes@.len() as int) =~= bm);
        let ghost first = change_views(changes@);
        let mut i: usize = 0;
        while i < aes.len()
            invariant
                i <= aes@.len(),
                bm == entries_view(bes@, cost_views(before.resources@)),
                am == entries_view(aes@, cost_views(after.resources@)),
                forall|j: int| 0 <= j < bes@.len() ==> (#[trigger] bes@[j]).pos < before.resources@.len(),
                forall|j: int| 0 <= j < aes@.len() ==> (#[trigger] aes@[j]).pos < after.resources@.len(),
                change_views(changes@) == first + added(bm, am.subrange(0, i as int)),
            decreases aes.len() - i,
        {
            let ghost pre = am.subrange(0, i + 1);
            assert(pre.drop_last() =~= am.subrange(0, i as int));
            assert(pre.last() == am[i as int]);
            let ghost old_changes = changes@;
            match find_entry(&bes, &aes[i].key, Ghost(cost_views(before.resources@))) {
                Some(_) => {},
                None => {
                    let a = &after.resources[aes[i].pos];
                    changes.push(Change::Added(a.duplicate()));
                    assert(change_views(changes@) =~= change_views(old_changes).push(ChangeView::Added(a@)));
                },
            }
            i = i + 1;
        }
        assert(am.subrange(0, aes@.len() as int) =~= am);
        Some(Diff {
            changes,
            total_before: before.total_monthly_cost,
            total_after: after.total_monthly_cost,
            delta,
        })
    }

    /// The diff from `before` to `after`: what was removed, modified and added,
    /// both totals and their difference.
    pub fn compute(before: &Breakdown, after: &Breakdown) -> (d: Diff)
        requires
            Diff::inputs_wf(before@, after@),
            decimal_difference(after@.total_monthly_cost.amount, before@.total_monthly_cost.amount) is Some,
        ensures
            change_views(d.changes@) == diff_changes(before@.resources, after@.resources),
            d.total_before == before.total_monthly_cost,
            d.total_after == after.total_monthly_cost,
            d.delta.currency == after.total_monthly_cost.currency,
            Some(d.delta.amount) == decimal_difference(after.total_monthly_cost.amount, before.total_monthly_cost.amount),
    {
        Diff::checked_compute(before, after).unwrap()
    }
}

} // verus!
