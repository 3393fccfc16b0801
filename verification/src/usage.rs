//! Usage estimates for resources whose cost depends on how they are used.

use vstd::prelude::*;

use crate::decimal::Decimal;
use crate::text::str_eq;

verus! {

/// A usage file: usage metrics per resource address.
#[derive(Debug)]
pub struct UsageFile {
    pub version: u32,
    pub resources: Vec<UsageEntry>,
}

/// The usage metrics of one resource, by name, in file order.
#[derive(Debug)]
pub struct UsageEntry {
    pub address: String,
    pub metrics: Vec<(String, Decimal)>,
}

/// The metrics of an entry as plain values.
pub open spec fn metrics_view(m: Seq<(String, Decimal)>) -> Seq<(Seq<char>, Decimal)> {
    m.map_values(|e: (String, Decimal)| (e.0@, e.1))
}

/// The value of the metric `name` (the first one listed).
pub open spec fn metric_value(m: Seq<(Seq<char>, Decimal)>, name: Seq<char>) -> Option<Decimal>
    decreases m.len(),
{
    if m.len() == 0 {
        None
    } else if m[0].0 == name {
        Some(m[0].1)
    } else {
        metric_value(m.drop_first(), name)
    }
}

/// The position of the first entry for `address`.
pub open spec fn usage_position(es: Seq<UsageEntry>, address: Seq<char>) -> Option<int>
    decreases es.len(),
{
    if es.len() == 0 {
        None
    } else if es.last().address@ == address && usage_position(es.drop_last(), address) is None {
        Some(es.len() - 1)
    } else {
        usage_position(es.drop_last(), address)
    }
}

/// Whether the metrics of an entry are well formed.
pub open spec fn metrics_wf(m: Seq<(Seq<char>, Decimal)>) -> bool {
    forall|i: int| 0 <= i < m.len() ==> (#[trigger] m[i]).1.wf()
}

/// A value looked up among well-formed metrics is well formed.
pub proof fn lemma_metric_value_wf(m: Seq<(Seq<char>, Decimal)>, name: Seq<char>)
    requires
        metrics_wf(m),
    ensures
        metric_value(m, name) matches Some(d) ==> d.wf(),
    decreases m.len(),
{
    if m.len() > 0 && m[0].0 != name {
        assert forall|i: int| 0 <= i < m.drop_first().len() implies (#[trigger] m.drop_first()[i]).1.wf() by {
            assert(m.drop_first()[i] == m[i + 1]);
        }
        lemma_metric_value_wf(m.drop_first(), name);
    }
}

impl UsageEntry {
    /// The metric `name`, if the entry gives it.
    pub fn get_metric(&self, name: &str) -> (r: Option<Decimal>)
        ensures
            r == metric_value(metrics_view(self.metrics@), name@),
    {
        let ghost mv = metrics_view(self.metrics@);
        assert(mv.subrange(0, mv.len() as int) =~= mv);
        let mut i: usize = 0;
        while i < self.metrics.len()
            invariant
                i <= self.metrics@.len(),
                mv == metrics_view(self.metrics@),
                metric_value(mv, name@) == metric_value(mv.subrange(i as int, mv.len() as int), name@),
            decreases self.metrics.len() - i,
        {
            let ghost rest = mv.subrange(i as int, mv.len() as int);
            assert(rest[0] == mv[i as int]);
            assert(rest.drop_first() =~= mv.subrange(i + 1, mv.len() as int));
            if str_eq(self.metrics[i].0.as_str(), name) {
                return Some(self.metrics[i].1);
            }
            i = i + 1;
        }
        None
    }
}

/// The usage entry for `address`: the first one with that address.
pub fn find_usage<'a>(usage: &'a UsageFile, address: &str) -> (r: Option<&'a UsageEntry>)
    ensures
        r matches Some(e) ==> (usage_position(usage.resources@, address@) matches Some(p) && 0 <= p < usage.resources@.len() && usage.resources@[p] == *e),
        r is None ==> usage_position(usage.resources@, address@) is None,
{
    let mut i: usize = 0;
    while i < usage.resources.len()
        invariant
            i <= usage.resources@.len(),
            usage_position(usage.resources@.subrange(0, i as int), address@) is None,
        decreases usage.resources.len() - i,
    {
        let ghost pre = usage.resources@.subrange(0, i + 1);
        assert(pre.drop_last() =~= usage.resources@.subrange(0, i as int));
        if str_eq(usage.resources[i].address.as_str(), address) {
            proof {
                lemma_usage_position_prefix(usage.resources@, address@, i + 1);
            }
            return Some(&usage.resources[i]);
        }
        i = i + 1;
    }
    assert(usage.resources@.subrange(0, usage.resources@.len() as int) =~= usage.resources@);
    None
}

/// An entry found in a prefix is found at the same place in the whole file.
proof fn lemma_usage_position_prefix(es: Seq<UsageEntry>, a: Seq<char>, n: int)
    requires
        0 <= n <= es.len(),
        usage_position(es.subrange(0, n), a) is Some,
    ensures
        usage_position(es, a) == usage_position(es.subrange(0, n), a),
        usage_position(es, a) matches Some(p) ==> 0 <= p < n,
    decreases es.len() - n,
{
    lemma_usage_position_bound(es.subrange(0, n), a);
    if n < es.len() {
        assert(es.subrange(0, n + 1).drop_last() =~= es.subrange(0, n));
        lemma_usage_position_prefix(es, a, n + 1);
    } else {
        assert(es.subrange(0, n) =~= es);
    }
}

/// A found position is within the entries.
proof fn lemma_usage_position_bound(es: Seq<UsageEntry>, a: Seq<char>)
    ensures
        usage_position(es, a) matches Some(p) ==> 0 <= p < es.len() && es[p].address@ == a,
    decreases es.len(),
{
    if es.len() > 0 {
        lemma_usage_position_bound(es.drop_last(), a);
    }
}

} // verus!
