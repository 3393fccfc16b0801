//! Loading a root module: variable resolution, where each resource of a
//! module lands in the state, and which module calls are followed.
//!
//! What each file declares comes in file-name order; `tree` follows the
//! module calls that this module returns.

use vstd::prelude::*;

use super::parser::{extend_attrs, ModuleView, ParseResult, ParseView, TfModule};
use crate::cost::reversed;
use crate::error::{ErrorView, PreciousError};
use crate::resource::{address_text, AddressView};
use crate::state::{
    attr_get, attr_insert, attrs_view, entries_view, find_entry, insert_attr, lemma_attrs_view, lookup, ResourceView, State,
    TfAttribute, TfResource, TfValue, ValueView,
};
use crate::text::{concat, is_prefix, owned, starts_with, str_eq};

verus! {

broadcast use {vstd::std_specs::vec::axiom_vec_decreases_to_view, vstd::std_specs::vec::axiom_vec_index_decreases};

/// How deep module calls may nest.
pub const MAX_MODULE_DEPTH: usize = 16;

/// Whether a module source is a local path (`./` or `../`).
pub open spec fn local_source(source: Seq<char>) -> bool {
    is_prefix("./"@, source) || is_prefix("../"@, source)
}

/// Whether a module source is a local path, which the loader follows.
pub fn is_local_source(source: &str) -> (b: bool)
    ensures
        b == local_source(source@),
{
    starts_with(source, "./") || starts_with(source, "../")
}

/// Whether a value is known: neither null nor a variable reference.
pub open spec fn is_concrete(v: ValueView) -> bool {
    !(v is Null || v is VarRef)
}

/// A value with the variables resolved: a reference to a variable with a known
/// value becomes that value; a null attribute takes the non-null value of the
/// variable of its own name; an object has its attributes resolved.
pub open spec fn resolve_value(k: Seq<char>, v: ValueView, vars: Seq<(Seq<char>, ValueView)>) -> ValueView
    decreases v,
{
    match v {
        ValueView::VarRef(name) => match lookup(vars, name) {
            Some(x) => if is_concrete(x) { x } else { v },
            None => v,
        },
        ValueView::Null => match lookup(vars, k) {
            Some(x) => if !(x is Null) { x } else { v },
            None => v,
        },
        ValueView::Object(inner) => ValueView::Object(resolved_attrs(inner, vars)),
        _ => v,
    }
}

/// Keyed values with each value resolved under its key.
pub open spec fn resolved_attrs(m: Seq<(Seq<char>, ValueView)>, vars: Seq<(Seq<char>, ValueView)>) -> Seq<(Seq<char>, ValueView)>
    decreases m,
{
    if m.len() == 0 {
        Seq::empty()
    } else {
        resolved_attrs(m.drop_last(), vars).push((m.last().0, resolve_value(m.last().0, m.last().1, vars)))
    }
}

/// A value with the variables resolved.
fn resolve_value_of(key: &str, v: &TfValue, vars: &Vec<TfAttribute>) -> (r: TfValue)
    ensures
        r@ == resolve_value(key@, v@, attrs_view(vars@)),
    decreases v,
{
    proof {
        crate::state::lemma_value_view(*v);
    }
    let r = match v {
        TfValue::VarRef(name) => match attr_get(vars, name.as_str()) {
            Some(x) => {
                proof {
                    crate::state::lemma_value_view(*x);
                }
                match x {
                    TfValue::Null | TfValue::VarRef(_) => v.duplicate(),
                    _ => x.duplicate(),
                }
            },
            None => v.duplicate(),
        },
        TfValue::Null => match attr_get(vars, key) {
            Some(x) => {
                proof {
                    crate::state::lemma_value_view(*x);
                }
                match x {
                    TfValue::Null => TfValue::Null,
                    _ => x.duplicate(),
                }
            },
            None => TfValue::Null,
        },
        TfValue::Object(inner) => {
            let out = resolve_attrs_of(inner, vars);
            let o = TfValue::Object(out);
            proof {
                crate::state::lemma_value_view(o);
            }
            o
        },
        _ => v.duplicate(),
    };
    proof {
        crate::state::lemma_value_view(r);
    }
    r
}

/// Attributes with their values resolved.
fn resolve_attrs_of(m: &Vec<TfAttribute>, vars: &Vec<TfAttribute>) -> (r: Vec<TfAttribute>)
    ensures
        attrs_view(r@) == resolved_attrs(attrs_view(m@), attrs_view(vars@)),
    decreases m,
{
    proof {
        lemma_attrs_view(m@);
    }
    let ghost mv = attrs_view(m@);
    let mut out: Vec<TfAttribute> = Vec::new();
    let mut i: usize = 0;
    assert(attrs_view(out@) =~= resolved_attrs(mv.subrange(0, 0), attrs_view(vars@)));
    while i < m.len()
        invariant
            i <= m@.len(),
            mv == attrs_view(m@),
            mv.len() == m@.len(),
            forall|j: int| 0 <= j < m@.len() ==> #[trigger] mv[j] == (m@[j].key@, m@[j].value@),
            attrs_view(out@) == resolved_attrs(mv.subrange(0, i as int), attrs_view(vars@)),
        decreases m.len() - i,
    {
        let nv = resolve_value_of(m[i].key.as_str(), &m[i].value, vars);
        let ghost before = out@;
        out.push(TfAttribute { key: m[i].key.clone(), value: nv });
        proof {
            reveal_with_fuel(attrs_view, 2);
            assert(out@.drop_last() =~= before);
            let sub = mv.subrange(0, i + 1);
            assert(sub.drop_last() =~= mv.subrange(0, i as int));
            assert(sub.last() == mv[i as int]);
        }
        i = i + 1;
    }
    assert(mv.subrange(0, i as int) =~= mv);
    out
}

/// Resolves the variables in `attrs` against `variables`.
pub fn resolve_variables(attrs: &mut Vec<TfAttribute>, variables: &Vec<TfAttribute>)
    ensures
        attrs_view(final(attrs)@) == resolved_attrs(attrs_view(old(attrs)@), attrs_view(variables@)),
{
    let r = resolve_attrs_of(attrs, variables);
    *attrs = r;
}

/// Resolving keeps every key in its place.
pub proof fn lemma_resolve_keeps_keys(m: Seq<(Seq<char>, ValueView)>, vars: Seq<(Seq<char>, ValueView)>)
    ensures
        resolved_attrs(m, vars).len() == m.len(),
        forall|i: int| 0 <= i < m.len() ==> (#[trigger] resolved_attrs(m, vars)[i]).0 == m[i].0,
    decreases m.len(),
{
    if m.len() > 0 {
        lemma_resolve_keeps_keys(m.drop_last(), vars);
        assert forall|i: int| 0 <= i < m.len() implies (#[trigger] resolved_attrs(m, vars)[i]).0 == m[i].0 by {
            if i < m.len() - 1 {
                assert(resolved_attrs(m, vars)[i] == resolved_attrs(m.drop_last(), vars)[i]);
                assert(m.drop_last()[i] == m[i]);
            }
        }
    }
}

/// Resolving against no variables changes nothing.
pub proof fn lemma_resolve_without_variables(m: Seq<(Seq<char>, ValueView)>)
    ensures
        resolved_attrs(m, Seq::empty()) == m,
    decreases m,
{
    if m.len() > 0 {
        lemma_resolve_without_variables(m.drop_last());
        lemma_resolve_value_without_variables(m.last().0, m.last().1);
        assert(m.drop_last().push(m.last()) =~= m);
    }
}

/// Resolving a value against no variables changes nothing.
pub proof fn lemma_resolve_value_without_variables(k: Seq<char>, v: ValueView)
    ensures
        resolve_value(k, v, Seq::empty()) == v,
    decreases v,
{
    if let ValueView::Object(inner) = v {
        lemma_resolve_without_variables(inner);
    }
}

/// Keyed values `m` with each known value of `kvs` set in turn.
pub open spec fn extend_concrete(m: Seq<(Seq<char>, ValueView)>, kvs: Seq<(Seq<char>, ValueView)>) -> Seq<(Seq<char>, ValueView)>
    decreases kvs.len(),
{
    if kvs.len() == 0 {
        m
    } else {
        let r = extend_concrete(m, kvs.drop_last());
        if is_concrete(kvs.last().1) {
            insert_attr(r, kvs.last().0, kvs.last().1)
        } else {
            r
        }
    }
}

/// The variables in effect in a module: its variable defaults, overridden by
/// the known inputs it was called with, then by its known locals.
pub open spec fn effective_vars(
    defaults: Seq<(Seq<char>, ValueView)>,
    inputs: Seq<(Seq<char>, ValueView)>,
    locals: Seq<(Seq<char>, ValueView)>,
) -> Seq<(Seq<char>, ValueView)> {
    extend_concrete(extend_concrete(defaults, inputs), locals)
}

/// Sets each known value of `kvs` into `m` in turn.
fn extend_known(m: &mut Vec<TfAttribute>, kvs: &Vec<TfAttribute>)
    ensures
        attrs_view(final(m)@) == extend_concrete(attrs_view(old(m)@), attrs_view(kvs@)),
{
    proof {
        lemma_attrs_view(kvs@);
    }
    let ghost kv = attrs_view(kvs@);
    let mut i: usize = 0;
    while i < kvs.len()
        invariant
            i <= kvs@.len(),
            kv == attrs_view(kvs@),
            kv.len() == kvs@.len(),
            forall|j: int| 0 <= j < kvs@.len() ==> #[trigger] kv[j] == (kvs@[j].key@, kvs@[j].value@),
            attrs_view(m@) == extend_concrete(attrs_view(old(m)@), kv.subrange(0, i as int)),
        decreases kvs.len() - i,
    {
        proof {
            crate::state::lemma_value_view(kvs@[i as int].value);
            let sub = kv.subrange(0, i + 1);
            assert(sub.drop_last() =~= kv.subrange(0, i as int));
            assert(sub.last() == kv[i as int]);
        }
        match &kvs[i].value {
            TfValue::Null | TfValue::VarRef(_) => {},
            v => attr_insert(m, kvs[i].key.clone(), v.duplicate()),
        }
        i = i + 1;
    }
    assert(kv.subrange(0, i as int) =~= kv);
}

/// The variables in effect in a module, from its variable defaults, the inputs
/// it was called with and its locals.
pub fn effective_variables(
    defaults: &Vec<TfAttribute>,
    inputs: &Vec<TfAttribute>,
    locals: &Vec<TfAttribute>,
) -> (r: Vec<TfAttribute>)
    ensures
        attrs_view(r@) == effective_vars(attrs_view(defaults@), attrs_view(inputs@), attrs_view(locals@)),
{
    let mut r = crate::state::duplicate_attrs(defaults);
    extend_known(&mut r, inputs);
    extend_known(&mut r, locals);
    r
}

/// The locals of a module: those of its files, in file order.
pub open spec fn module_locals(files: Seq<ParseView>) -> Seq<(Seq<char>, ValueView)>
    decreases files.len(),
{
    if files.len() == 0 {
        Seq::empty()
    } else {
        extend_attrs(module_locals(files.drop_last()), files.last().locals)
    }
}

/// The variable defaults of a module: those of its files, in file order.
pub open spec fn module_defaults(files: Seq<ParseView>) -> Seq<(Seq<char>, ValueView)>
    decreases files.len(),
{
    if files.len() == 0 {
        Seq::empty()
    } else {
        extend_attrs(module_defaults(files.drop_last()), files.last().variable_defaults)
    }
}

/// The views of what each file declares.
pub open spec fn file_views(files: Seq<ParseResult>) -> Seq<ParseView> {
    files.map_values(|f: ParseResult| f@)
}

/// The variables in effect in a module made of `files` and called with
/// `inputs`.
pub fn module_variables(files: &Vec<ParseResult>, inputs: &Vec<TfAttribute>) -> (r: Vec<TfAttribute>)
    ensures
        attrs_view(r@) == effective_vars(module_defaults(file_views(files@)), attrs_view(inputs@), module_locals(file_views(files@))),
{
    let ghost fv = file_views(files@);
    let mut locals: Vec<TfAttribute> = Vec::new();
    let mut defaults: Vec<TfAttribute> = Vec::new();
    let mut i: usize = 0;
    assert(fv.subrange(0, 0) =~= Seq::<ParseView>::empty());
    assert(attrs_view(locals@) =~= Seq::<(Seq<char>, ValueView)>::empty());
    while i < files.len()
        invariant
            i <= files@.len(),
            fv == file_views(files@),
            attrs_view(locals@) == module_locals(fv.subrange(0, i as int)),
            attrs_view(defaults@) == module_defaults(fv.subrange(0, i as int)),
        decreases files.len() - i,
    {
        extend_all(&mut locals, &files[i].locals);
        extend_all(&mut defaults, &files[i].variable_defaults);
        proof {
            let sub = fv.subrange(0, i + 1);
            assert(sub.drop_last() =~= fv.subrange(0, i as int));
            assert(sub.last() == files@[i as int]@);
        }
        i = i + 1;
    }
    assert(fv.subrange(0, i as int) =~= fv);
    effective_variables(&defaults, inputs, &locals)
}

/// Sets each of `kvs` into `m` in turn (`IndexMap::extend`).
fn extend_all(m: &mut Vec<TfAttribute>, kvs: &Vec<TfAttribute>)
    ensures
        attrs_view(final(m)@) == extend_attrs(attrs_view(old(m)@), attrs_view(kvs@)),
{
    proof {
        lemma_attrs_view(kvs@);
    }
    let ghost kv = attrs_view(kvs@);
    let mut i: usize = 0;
    while i < kvs.len()
        invariant
            i <= kvs@.len(),
            kv == attrs_view(kvs@),
            kv.len() == kvs@.len(),
            forall|j: int| 0 <= j < kvs@.len() ==> #[trigger] kv[j] == (kvs@[j].key@, kvs@[j].value@),
            attrs_view(m@) == extend_attrs(attrs_view(old(m)@), kv.subrange(0, i as int)),
        decreases kvs.len() - i,
    {
        attr_insert(m, kvs[i].key.clone(), kvs[i].value.duplicate());
        proof {
            let sub = kv.subrange(0, i + 1);
            assert(sub.drop_last() =~= kv.subrange(0, i as int));
            assert(sub.last() == kv[i as int]);
        }
        i = i + 1;
    }
    assert(kv.subrange(0, i as int) =~= kv);
}

/// A resource of a module as it lands in the state: its variables resolved
/// (where any are in effect) and the module path appended to its address in
/// reverse order.
pub open spec fn placed(r: ResourceView, path: Seq<Seq<char>>, vars: Seq<(Seq<char>, ValueView)>) -> ResourceView {
    ResourceView {
        address: AddressView { modules: r.address.modules + reversed(path), ..r.address },
        attributes: if vars.len() > 0 { resolved_attrs(r.attributes, vars) } else { r.attributes },
    }
}

/// State entries after storing `r` under its printed address.
pub open spec fn state_add(es: Seq<(Seq<char>, ResourceView)>, r: ResourceView) -> Seq<(Seq<char>, ResourceView)> {
    let k = address_text(r.address);
    match find_entry(es, k) {
        Some(p) => es.update(p, (k, r)),
        None => es.push((k, r)),
    }
}

/// State entries after storing each of `rs`, placed, in turn.
pub open spec fn state_add_all(
    es: Seq<(Seq<char>, ResourceView)>,
    rs: Seq<ResourceView>,
    path: Seq<Seq<char>>,
    vars: Seq<(Seq<char>, ValueView)>,
) -> Seq<(Seq<char>, ResourceView)>
    decreases rs.len(),
{
    if rs.len() == 0 {
        es
    } else {
        state_add(state_add_all(es, rs.drop_last(), path, vars), placed(rs.last(), path, vars))
    }
}

/// A module call the loader follows: the call's name and source, the module
/// path of the called module, and its inputs with the caller's variables
/// resolved.
#[derive(Debug)]
pub struct ChildModule {
    pub name: String,
    pub source: String,
    pub path: Vec<String>,
    pub inputs: Vec<TfAttribute>,
}

/// A followed module call as plain values.
pub ghost struct ChildView {
    pub name: Seq<char>,
    pub source: Seq<char>,
    pub path: Seq<Seq<char>>,
    pub inputs: Seq<(Seq<char>, ValueView)>,
}

impl View for ChildModule {
    type V = ChildView;

    open spec fn view(&self) -> ChildView {
        ChildView {
            name: self.name@,
            source: self.source@,
            path: self.path@.map_values(|s: String| s@),
            inputs: attrs_view(self.inputs@),
        }
    }
}

/// The module calls of a file that are followed: those with a local source,
/// in order.
pub open spec fn children_of(
    ms: Seq<ModuleView>,
    path: Seq<Seq<char>>,
    vars: Seq<(Seq<char>, ValueView)>,
) -> Seq<ChildView>
    decreases ms.len(),
{
    if ms.len() == 0 {
        Seq::empty()
    } else {
        let before = children_of(ms.drop_last(), path, vars);
        let m = ms.last();
        if local_source(m.source) {
            before.push(ChildView {
                name: m.name,
                source: m.source,
                path: path.push(m.name),
                inputs: if vars.len() > 0 { resolved_attrs(m.inputs, vars) } else { m.inputs },
            })
        } else {
            before
        }
    }
}

/// Copies a list of strings.
fn copy_path(v: &Vec<String>) -> (r: Vec<String>)
    ensures
        r@.map_values(|s: String| s@) == v@.map_values(|s: String| s@),
{
    let mut r: Vec<String> = Vec::new();
    let mut i: usize = 0;
    while i < v.len()
        invariant
            i <= v@.len(),
            r@.len() == i,
            forall|j: int| 0 <= j < i ==> (#[trigger] r@[j])@ == v@[j]@,
        decreases v.len() - i,
    {
        r.push(v[i].clone());
        i = i + 1;
    }
    assert(r@.map_values(|s: String| s@) =~= v@.map_values(|s: String| s@));
    r
}

/// Stores a resource of the module at `path` in the state.
fn place_resource(state: &mut State, resource: TfResource, path: &Vec<String>, vars: &Vec<TfAttribute>)
    ensures
        entries_view(final(state).resources@) == state_add(
            entries_view(old(state).resources@),
            placed(resource@, path@.map_values(|s: String| s@), attrs_view(vars@)),
        ),
{
    let ghost pv = path@.map_values(|s: String| s@);
    let mut r = resource;
    if vars.len() > 0 {
        proof {
            lemma_attrs_view(vars@);
        }
        resolve_variables(&mut r.attributes, vars);
    }
    let mut address = r.address;
    let ghost start = address@;
    let mut k: usize = path.len();
    while k > 0
        invariant
            k <= path@.len(),
            pv == path@.map_values(|s: String| s@),
            address@ == (AddressView { modules: start.modules + reversed(pv.subrange(k as int, pv.len() as int)), ..start }),
        decreases k,
    {
        k = k - 1;
        address = address.with_module(path[k].as_str());
        proof {
            let a = reversed(pv.subrange(k + 1, pv.len() as int));
            let b = reversed(pv.subrange(k as int, pv.len() as int));
            assert(b =~= a.push(pv[k as int]));
            assert(start.modules + b =~= (start.modules + a).push(pv[k as int]));
        }
    }
    assert(pv.subrange(0, pv.len() as int) =~= pv);
    let placed_resource = TfResource { address, attributes: r.attributes };
    proof {
        if vars.len() > 0 {
            lemma_attrs_view(vars@);
        } else {
            lemma_attrs_view(vars@);
            assert(attrs_view(vars@).len() == 0);
        }
    }
    state.add_resource(placed_resource);
}

/// Stores the resources of a file of the module at `path` in the state, and
/// returns the module calls of the file to follow, in order.
pub fn load_file(state: &mut State, file: ParseResult, path: &Vec<String>, vars: &Vec<TfAttribute>) -> (children: Vec<ChildModule>)
    ensures
        entries_view(final(state).resources@) == state_add_all(
            entries_view(old(state).resources@),
            file@.resources,
            path@.map_values(|s: String| s@),
            attrs_view(vars@),
        ),
        children@.map_values(|c: ChildModule| c@) == children_of(file@.modules, path@.map_values(|s: String| s@), attrs_view(vars@)),
{
    let ghost pv = path@.map_values(|s: String| s@);
    let ghost vv = attrs_view(vars@);
    let ghost rs = file@.resources;
    let ghost ms = file@.modules;
    let ParseResult { resources, modules, locals: _, variable_defaults: _ } = file;
    let mut resources = resources;
    let mut placed_count: usize = 0;
    let n = resources.len();
    // Take the resources from the back, and store them from the front.
    let mut pending: Vec<TfResource> = Vec::new();
    while resources.len() > 0
        invariant
            pending@.len() + resources@.len() == n,
            n == rs.len(),
            forall|j: int| 0 <= j < resources@.len() ==> (#[trigger] resources@[j])@ == rs[j],
            forall|j: int| 0 <= j < pending@.len() ==> (#[trigger] pending@[j])@ == rs[n - 1 - j],
        decreases resources.len(),
    {
        let r = resources.pop().unwrap();
        pending.push(r);
    }
    assert(entries_view(state.resources@) == state_add_all(entries_view(old(state).resources@), rs.subrange(0, 0), pv, vv));
    while pending.len() > 0
        invariant
            placed_count + pending@.len() == n,
            n == rs.len(),
            pv == path@.map_values(|s: String| s@),
            vv == attrs_view(vars@),
            forall|j: int| 0 <= j < pending@.len() ==> (#[trigger] pending@[j])@ == rs[n - 1 - j],
            entries_view(state.resources@) == state_add_all(entries_view(old(state).resources@), rs.subrange(0, placed_count as int), pv, vv),
        decreases pending.len(),
    {
        let r = pending.pop().unwrap();
        assert(r@ == rs[placed_count as int]);
        place_resource(state, r, path, vars);
        proof {
            let sub = rs.subrange(0, placed_count + 1);
            assert(sub.drop_last() =~= rs.subrange(0, placed_count as int));
        }
        placed_count = placed_count + 1;
    }
    assert(rs.subrange(0, placed_count as int) =~= rs);
    let mut children: Vec<ChildModule> = Vec::new();
    let mut i: usize = 0;
    assert(ms.subrange(0, 0) =~= Seq::<ModuleView>::empty());
    assert(children@.map_values(|c: ChildModule| c@) =~= children_of(ms.subrange(0, 0), pv, vv));
    while i < modules.len()
        invariant
            i <= modules@.len(),
            ms == modules@.map_values(|m: TfModule| m@),
            pv == path@.map_values(|s: String| s@),
            vv == attrs_view(vars@),
            children@.map_values(|c: ChildModule| c@) == children_of(ms.subrange(0, i as int), pv, vv),
        decreases modules.len() - i,
    {
        let m = &modules[i];
        proof {
            let sub = ms.subrange(0, i + 1);
            assert(sub.drop_last() =~= ms.subrange(0, i as int));
            assert(sub.last() == m@);
        }
        if is_local_source(m.source.as_str()) {
            let mut child_path = copy_path(path);
            child_path.push(m.name.clone());
            let mut inputs = crate::state::duplicate_attrs(&m.inputs);
            if vars.len() > 0 {
                proof {
                    lemma_attrs_view(vars@);
                }
                resolve_variables(&mut inputs, vars);
            }
            proof {
                lemma_attrs_view(vars@);
            }
            let c = ChildModule { name: m.name.clone(), source: m.source.clone(), path: child_path, inputs };
            assert(c@.path =~= pv.push(m@.name));
            let ghost before = children@;
            children.push(c);
            assert(children@.map_values(|x: ChildModule| x@) =~= before.map_values(|x: ChildModule| x@).push(c@));
        }
        i = i + 1;
    }
    assert(ms.subrange(0, i as int) =~= ms);
    children
}

/// The error for module calls nested too deep: `None` within the limit.
pub fn check_depth(depth: usize, dir: &str) -> (r: Result<(), PreciousError>)
    ensures
        depth <= MAX_MODULE_DEPTH ==> r is Ok,
        depth > MAX_MODULE_DEPTH ==> (r matches Err(e) && e@ == ErrorView::HclParse("module nesting depth exceeded 16 at "@ + dir@)),
{
    if depth > MAX_MODULE_DEPTH {
        Err(PreciousError::HclParse(concat("module nesting depth exceeded 16 at ", dir)))
    } else {
        Ok(())
    }
}

/// The directories being loaded, as a set of paths.
pub open spec fn loading_set(visited: Seq<String>) -> Set<Seq<char>> {
    visited.map_values(|s: String| s@).to_set()
}

/// Starts loading the module in `dir`, unless it is already being loaded (a
/// module that calls itself, directly or through others): then nothing
/// changes and the module is skipped.
pub fn enter_module(visited: &mut Vec<String>, dir: &str) -> (entered: bool)
    ensures
        entered == !loading_set(old(visited)@).contains(dir@),
        loading_set(final(visited)@) == loading_set(old(visited)@).insert(dir@),
{
    let ghost names = visited@.map_values(|s: String| s@);
    let mut i: usize = 0;
    while i < visited.len()
        invariant
            i <= visited@.len(),
            visited@ == old(visited)@,
            names == visited@.map_values(|s: String| s@),
            forall|j: int| 0 <= j < i ==> names[j] != dir@,
        decreases visited.len() - i,
    {
        let same = str_eq(visited[i].as_str(), dir);
        assert(names[i as int] == visited@[i as int]@);
        if same {
            assert(names.contains(dir@));
            assert(loading_set(old(visited)@).insert(dir@) =~= loading_set(old(visited)@));
            return false;
        }
        i = i + 1;
    }
    assert(!names.contains(dir@));
    visited.push(owned(dir));
    proof {
        assert(visited@.map_values(|s: String| s@) =~= names.push(dir@));
        names.lemma_push_to_set_commute(dir@);
    }
    true
}

/// Finishes loading the module in `dir`: it may be loaded again from another
/// caller.
pub fn leave_module(visited: &mut Vec<String>, dir: &str)
    ensures
        loading_set(final(visited)@) == loading_set(old(visited)@).remove(dir@),
{
    let ghost names = visited@.map_values(|s: String| s@);
    let mut kept: Vec<String> = Vec::new();
    let mut i: usize = 0;
    assert(names.subrange(0, 0).to_set() =~= Set::<Seq<char>>::empty());
    assert(kept@.map_values(|s: String| s@).to_set() =~= Set::<Seq<char>>::empty());
    while i < visited.len()
        invariant
            i <= visited@.len(),
            visited@ == old(visited)@,
            names == visited@.map_values(|s: String| s@),
            kept@.map_values(|s: String| s@).to_set() == names.subrange(0, i as int).to_set().remove(dir@),
        decreases visited.len() - i,
    {
        let ghost x = names[i as int];
        assert(x == visited@[i as int]@);
        let ghost before = kept@;
        proof {
            let ns = names.subrange(0, i as int);
            assert(names.subrange(0, i + 1) =~= ns.push(x));
            ns.lemma_push_to_set_commute(x);
        }
        if !str_eq(visited[i].as_str(), dir) {
            kept.push(owned(visited[i].as_str()));
            proof {
                let ks = before.map_values(|s: String| s@);
                assert(kept@.map_values(|s: String| s@) =~= ks.push(x));
                ks.lemma_push_to_set_commute(x);
                assert(kept@.map_values(|s: String| s@).to_set() =~= names.subrange(0, i + 1).to_set().remove(dir@));
            }
        } else {
            assert(kept@.map_values(|s: String| s@).to_set() =~= names.subrange(0, i + 1).to_set().remove(dir@));
        }
        i = i + 1;
    }
    assert(names.subrange(0, i as int) =~= names);
    *visited = kept;
}

/// Entering a module that is not being loaded and then leaving it gives back
/// the directories being loaded before: a module may be loaded again by a
/// later caller, but never inside itself.
pub proof fn lemma_enter_then_leave(s: Set<Seq<char>>, dir: Seq<char>)
    requires
        !s.contains(dir),
    ensures
        s.insert(dir).remove(dir) == s,
        s.insert(dir).contains(dir),
{
    assert(s.insert(dir).remove(dir) =~= s);
}

/// Whether a directory entry is hidden (its name starts with `.`); the search
/// for root modules does not enter hidden directories.
pub fn is_hidden(name: &str) -> (b: bool)
    ensures
        b == is_prefix("."@, name@),
{
    starts_with(name, ".")
}

/// The candidates that no module calls: the root modules, in candidate order.
pub open spec fn roots_of(candidates: Seq<Seq<char>>, children: Seq<Seq<char>>) -> Seq<Seq<char>>
    decreases candidates.len(),
{
    if candidates.len() == 0 {
        Seq::empty()
    } else {
        let before = roots_of(candidates.drop_last(), children);
        if children.contains(candidates.last()) {
            before
        } else {
            before.push(candidates.last())
        }
    }
}

/// The candidate directories that are not the local source of any module
/// call, in order.
pub fn select_roots(candidates: &Vec<String>, children: &Vec<String>) -> (r: Vec<String>)
    ensures
        r@.map_values(|s: String| s@) == roots_of(candidates@.map_values(|s: String| s@), children@.map_values(|s: String| s@)),
{
    let ghost cv = candidates@.map_values(|s: String| s@);
    let ghost kv = children@.map_values(|s: String| s@);
    let mut out: Vec<String> = Vec::new();
    let mut i: usize = 0;
    assert(cv.subrange(0, 0) =~= Seq::<Seq<char>>::empty());
    assert(out@.map_values(|s: String| s@) =~= roots_of(cv.subrange(0, 0), kv));
    while i < candidates.len()
        invariant
            i <= candidates@.len(),
            cv == candidates@.map_values(|s: String| s@),
            kv == children@.map_values(|s: String| s@),
            out@.map_values(|s: String| s@) == roots_of(cv.subrange(0, i as int), kv),
        decreases candidates.len() - i,
    {
        let c = candidates[i].as_str();
        let mut found = false;
        let mut j: usize = 0;
        while j < children.len()
            invariant
                j <= children@.len(),
                kv == children@.map_values(|s: String| s@),
                found == exists|x: int| 0 <= x < j && kv[x] == c@,
            decreases children.len() - j,
        {
            let is_match = str_eq(children[j].as_str(), c);
            assert(kv[j as int] == children@[j as int]@);
            if is_match {
                found = true;
                assert(kv[j as int] == c@);
            }
            j = j + 1;
        }
        proof {
            let sub = cv.subrange(0, i + 1);
            assert(sub.drop_last() =~= cv.subrange(0, i as int));
            assert(sub.last() == c@);
            if found {
                let x = choose|x: int| 0 <= x < j && kv[x] == c@;
                assert(kv.contains(c@));
            } else {
                assert(!kv.contains(c@));
            }
        }
        if !found {
            let ghost before = out@;
            out.push(owned(c));
            assert(out@.map_values(|s: String| s@) =~= before.map_values(|s: String| s@).push(c@));
        }
        i = i + 1;
    }
    assert(cv.subrange(0, i as int) =~= cv);
    out
}

} // verus!
