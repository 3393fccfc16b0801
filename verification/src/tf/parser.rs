//! The interpretation of an HCL body: resources, modules, locals and variable
//! defaults, with attribute values as Terraform values.
//!
//! The body itself is syntax as the `hcl` crate parses it, given here as the
//! library's own types (its numbers already converted by the program, which
//! holds the floating-point values).

use vstd::prelude::*;

use crate::error::{ErrorView, PreciousError};
use crate::resource::{AddressView, Cloud, ResourceAddress, ResourceKind};
use crate::state::{
    attr_get, attr_insert, attr_swap_remove, attrs_view, insert_attr, lemma_attrs_view, lookup, string_of_view,
    swap_remove_attr, Number, ResourceView, TfAttribute, TfResource, TfValue, ValueView,
};
use crate::text::{is_prefix, owned, starts_with, str_eq};

verus! {

broadcast use {vstd::std_specs::vec::axiom_vec_decreases_to_view, vstd::std_specs::vec::axiom_vec_index_decreases};

/// An HCL body: its attributes and its blocks, in source order.
#[derive(Debug)]
pub struct HclBody {
    pub attributes: Vec<HclAttribute>,
    pub blocks: Vec<HclBlock>,
}

/// A key and its expression (an attribute, or an entry of an object).
#[derive(Debug)]
pub struct HclAttribute {
    pub key: String,
    pub expr: HclExpr,
}

/// A block: its identifier, its labels and its body.
#[derive(Debug)]
pub struct HclBlock {
    pub identifier: String,
    pub labels: Vec<String>,
    pub body: HclBody,
}

/// An operator applied in a traversal.
#[derive(Debug)]
pub enum TraversalOperator {
    /// `.name`
    GetAttr(String),
    /// Any other operator (index, splat).
    Other,
}

/// An HCL expression.
#[derive(Debug)]
pub enum HclExpr {
    String(String),
    /// A number; `None` where it has no `f64` value.
    Number(Option<Number>),
    Bool(bool),
    Null,
    Array(Vec<HclExpr>),
    /// An object; each key as text.
    Object(Vec<HclAttribute>),
    Variable(String),
    /// A traversal: the variable it starts from, if it starts from one, and
    /// its operators.
    Traversal { root: Option<String>, operators: Vec<TraversalOperator> },
    /// Any other expression (function calls, operations, templates, ...).
    Other,
}

/// The value of a traversal: `var.x` and `local.x` refer to `x`; any other
/// traversal is unresolved (null).
pub open spec fn traversal_value(root: Option<String>, operators: Seq<TraversalOperator>) -> ValueView {
    match root {
        Some(r) => if (r@ == "var"@ || r@ == "local"@) && operators.len() == 1 {
            match operators[0] {
                TraversalOperator::GetAttr(a) => ValueView::VarRef(a@),
                TraversalOperator::Other => ValueView::Null,
            }
        } else {
            ValueView::Null
        },
        None => ValueView::Null,
    }
}

/// The Terraform value of an expression.
pub open spec fn expr_value(e: HclExpr) -> ValueView
    decreases e,
{
    match e {
        HclExpr::String(s) => ValueView::String(s@),
        HclExpr::Number(Some(n)) => ValueView::Number(n@),
        HclExpr::Number(None) => ValueView::Null,
        HclExpr::Bool(b) => ValueView::Bool(b),
        HclExpr::Null => ValueView::Null,
        HclExpr::Array(items) => ValueView::List(exprs_values(items@)),
        HclExpr::Object(entries) => ValueView::Object(entries_into(Seq::empty(), entries@)),
        HclExpr::Variable(v) => ValueView::VarRef(v@),
        HclExpr::Traversal { root, operators } => traversal_value(root, operators@),
        HclExpr::Other => ValueView::Null,
    }
}

/// The values of a sequence of expressions.
pub open spec fn exprs_values(s: Seq<HclExpr>) -> Seq<ValueView>
    decreases s,
{
    if s.len() == 0 {
        Seq::empty()
    } else {
        exprs_values(s.drop_last()).push(expr_value(s.last()))
    }
}

/// Keyed values `acc` with each entry's key set to its expression's value, in
/// order (a later entry with the same key replaces the value in place).
pub open spec fn entries_into(acc: Seq<(Seq<char>, ValueView)>, es: Seq<HclAttribute>) -> Seq<(Seq<char>, ValueView)>
    decreases es,
{
    if es.len() == 0 {
        acc
    } else {
        insert_attr(entries_into(acc, es.drop_last()), es.last().key@, expr_value(es.last().expr))
    }
}

/// The values of a list of expressions.
fn exprs_to_values(items: &Vec<HclExpr>) -> (out: Vec<TfValue>)
    ensures
        crate::state::list_view(out@) == exprs_values(items@),
    decreases items,
{
    let mut out: Vec<TfValue> = Vec::new();
    let mut i: usize = 0;
    while i < items.len()
        invariant
            i <= items@.len(),
            crate::state::list_view(out@) == exprs_values(items@.subrange(0, i as int)),
        decreases items.len() - i,
    {
        let x = expression_to_value(&items[i]);
        let ghost before = out@;
        out.push(x);
        proof {
            assert(out@.drop_last() =~= before);
            let sub = items@.subrange(0, i + 1);
            assert(sub.drop_last() =~= items@.subrange(0, i as int));
            reveal_with_fuel(crate::state::list_view, 2);
        }
        i = i + 1;
    }
    assert(items@.subrange(0, i as int) =~= items@);
    out
}

/// The keyed values of an object's entries.
fn entries_to_attrs(entries: &Vec<HclAttribute>) -> (out: Vec<TfAttribute>)
    ensures
        attrs_view(out@) == entries_into(Seq::empty(), entries@),
    decreases entries,
{
    let mut out: Vec<TfAttribute> = Vec::new();
    let mut i: usize = 0;
    assert(attrs_view(out@) =~= Seq::<(Seq<char>, ValueView)>::empty());
    while i < entries.len()
        invariant
            i <= entries@.len(),
            attrs_view(out@) == entries_into(Seq::empty(), entries@.subrange(0, i as int)),
        decreases entries.len() - i,
    {
        let x = expression_to_value(&entries[i].expr);
        attr_insert(&mut out, entries[i].key.clone(), x);
        proof {
            let sub = entries@.subrange(0, i + 1);
            assert(sub.drop_last() =~= entries@.subrange(0, i as int));
        }
        i = i + 1;
    }
    assert(entries@.subrange(0, i as int) =~= entries@);
    out
}

/// The attributes of a body: its attributes, then each block as an object
/// under the block's identifier.
pub open spec fn body_attrs(b: HclBody) -> Seq<(Seq<char>, ValueView)>
    decreases b,
{
    blocks_into(entries_into(Seq::empty(), b.attributes@), b.blocks@)
}

/// Keyed values `acc` with each block set, in order, under its identifier.
pub open spec fn blocks_into(acc: Seq<(Seq<char>, ValueView)>, bs: Seq<HclBlock>) -> Seq<(Seq<char>, ValueView)>
    decreases bs,
{
    if bs.len() == 0 {
        acc
    } else {
        insert_attr(blocks_into(acc, bs.drop_last()), bs.last().identifier@, ValueView::Object(body_attrs(bs.last().body)))
    }
}

/// The Terraform value of an expression.
pub fn expression_to_value(expr: &HclExpr) -> (v: TfValue)
    ensures
        v@ == expr_value(*expr),
    decreases expr,
{
    let v = match expr {
        HclExpr::String(s) => TfValue::String(s.clone()),
        HclExpr::Number(Some(n)) => TfValue::Number(n.duplicate()),
        HclExpr::Number(None) => TfValue::Null,
        HclExpr::Bool(b) => TfValue::Bool(*b),
        HclExpr::Null => TfValue::Null,
        HclExpr::Array(items) => {
            let out = exprs_to_values(items);
            let r = TfValue::List(out);
            proof {
                crate::state::lemma_value_view(r);
            }
            r
        },
        HclExpr::Object(entries) => {
            let out = entries_to_attrs(entries);
            let r = TfValue::Object(out);
            proof {
                crate::state::lemma_value_view(r);
            }
            r
        },
        HclExpr::Variable(v) => TfValue::VarRef(v.clone()),
        HclExpr::Traversal { root, operators } => {
            match root {
                Some(r) => {
                    if (str_eq(r.as_str(), "var") || str_eq(r.as_str(), "local")) && operators.len() == 1 {
                        match &operators[0] {
                            TraversalOperator::GetAttr(a) => TfValue::VarRef(a.clone()),
                            TraversalOperator::Other => TfValue::Null,
                        }
                    } else {
                        TfValue::Null
                    }
                },
                None => TfValue::Null,
            }
        },
        HclExpr::Other => TfValue::Null,
    };
    proof {
        crate::state::lemma_value_view(v);
    }
    v
}

/// The attributes of a body: its attributes, then each nested block as an
/// object under the block's identifier (a later key replaces an earlier one's
/// value in place).
pub fn extract_attributes(body: &HclBody) -> (m: Vec<TfAttribute>)
    ensures
        attrs_view(m@) == body_attrs(*body),
    decreases body,
{
    let mut out: Vec<TfAttribute> = Vec::new();
    let mut i: usize = 0;
    assert(attrs_view(out@) =~= Seq::<(Seq<char>, ValueView)>::empty());
    while i < body.attributes.len()
        invariant
            i <= body.attributes@.len(),
            attrs_view(out@) == entries_into(Seq::empty(), body.attributes@.subrange(0, i as int)),
        decreases body.attributes.len() - i,
    {
        let x = expression_to_value(&body.attributes[i].expr);
        attr_insert(&mut out, body.attributes[i].key.clone(), x);
        proof {
            let sub = body.attributes@.subrange(0, i + 1);
            assert(sub.drop_last() =~= body.attributes@.subrange(0, i as int));
        }
        i = i + 1;
    }
    assert(body.attributes@.subrange(0, i as int) =~= body.attributes@);
    let ghost base = attrs_view(out@);
    let mut j: usize = 0;
    assert(body.blocks@.subrange(0, 0) =~= Seq::<HclBlock>::empty());
    while j < body.blocks.len()
        invariant
            j <= body.blocks@.len(),
            base == entries_into(Seq::empty(), body.attributes@),
            attrs_view(out@) == blocks_into(base, body.blocks@.subrange(0, j as int)),
        decreases body.blocks.len() - j,
    {
        let nested = extract_attributes(&body.blocks[j].body);
        let v = TfValue::Object(nested);
        proof {
            crate::state::lemma_value_view(v);
        }
        attr_insert(&mut out, body.blocks[j].identifier.clone(), v);
        proof {
            let sub = body.blocks@.subrange(0, j + 1);
            assert(sub.drop_last() =~= body.blocks@.subrange(0, j as int));
        }
        j = j + 1;
    }
    assert(body.blocks@.subrange(0, j as int) =~= body.blocks@);
    out
}

/// The cloud of a resource type, by its provider prefix (AWS for any other).
pub open spec fn cloud_of(t: Seq<char>) -> Cloud {
    if is_prefix("aws_"@, t) {
        Cloud::Aws
    } else if is_prefix("azurerm_"@, t) {
        Cloud::Azure
    } else if is_prefix("google_"@, t) {
        Cloud::Gcp
    } else if is_prefix("digitalocean_"@, t) {
        Cloud::DigitalOcean
    } else if is_prefix("cloudflare_"@, t) {
        Cloud::Cloudflare
    } else if is_prefix("planetscale_"@, t) {
        Cloud::PlanetScale
    } else {
        Cloud::Aws
    }
}

/// The cloud of a resource type, by its provider prefix.
pub fn detect_cloud(tf_type: &str) -> (c: Cloud)
    ensures
        c == cloud_of(tf_type@),
{
    if starts_with(tf_type, "aws_") {
        Cloud::Aws
    } else if starts_with(tf_type, "azurerm_") {
        Cloud::Azure
    } else if starts_with(tf_type, "google_") {
        Cloud::Gcp
    } else if starts_with(tf_type, "digitalocean_") {
        Cloud::DigitalOcean
    } else if starts_with(tf_type, "cloudflare_") {
        Cloud::Cloudflare
    } else if starts_with(tf_type, "planetscale_") {
        Cloud::PlanetScale
    } else {
        Cloud::Aws
    }
}

/// A module call: its name, its source, and its inputs.
#[derive(Debug)]
pub struct TfModule {
    pub name: String,
    pub source: String,
    pub inputs: Vec<TfAttribute>,
}

/// A module call as plain values.
pub ghost struct ModuleView {
    pub name: Seq<char>,
    pub source: Seq<char>,
    pub inputs: Seq<(Seq<char>, ValueView)>,
}

impl View for TfModule {
    type V = ModuleView;

    open spec fn view(&self) -> ModuleView {
        ModuleView { name: self.name@, source: self.source@, inputs: attrs_view(self.inputs@) }
    }
}

/// What a file declares: its resources and module calls in order, its locals,
/// and the defaults of its variables.
#[derive(Debug)]
pub struct ParseResult {
    pub resources: Vec<TfResource>,
    pub modules: Vec<TfModule>,
    pub locals: Vec<TfAttribute>,
    pub variable_defaults: Vec<TfAttribute>,
}

/// What a file declares, as plain values.
pub ghost struct ParseView {
    pub resources: Seq<ResourceView>,
    pub modules: Seq<ModuleView>,
    pub locals: Seq<(Seq<char>, ValueView)>,
    pub variable_defaults: Seq<(Seq<char>, ValueView)>,
}

impl View for ParseResult {
    type V = ParseView;

    open spec fn view(&self) -> ParseView {
        ParseView {
            resources: self.resources@.map_values(|r: TfResource| r@),
            modules: self.modules@.map_values(|m: TfModule| m@),
            locals: attrs_view(self.locals@),
            variable_defaults: attrs_view(self.variable_defaults@),
        }
    }
}

/// Keyed values `m` with each of `kvs` set in turn.
pub open spec fn extend_attrs(m: Seq<(Seq<char>, ValueView)>, kvs: Seq<(Seq<char>, ValueView)>) -> Seq<(Seq<char>, ValueView)>
    decreases kvs.len(),
{
    if kvs.len() == 0 {
        m
    } else {
        insert_attr(extend_attrs(m, kvs.drop_last()), kvs.last().0, kvs.last().1)
    }
}

/// What a block adds to what the blocks before it declared: a `resource` with
/// a type and a name label; a `module` with a name label and a `source`
/// string (the source taken out of its inputs); the attributes of `locals`; the
/// non-null `default` of a `variable` with a name label. Anything else adds
/// nothing.
pub open spec fn block_effect(acc: ParseView, b: HclBlock) -> ParseView {
    let id = b.identifier@;
    let labels = b.labels@;
    let attrs = body_attrs(b.body);
    if id == "resource"@ {
        if labels.len() < 2 {
            acc
        } else {
            let t = labels[0]@;
            let r = ResourceView {
                address: AddressView { modules: Seq::empty(), cloud: cloud_of(t), tf_type: t, name: labels[1]@ },
                attributes: attrs,
            };
            ParseView { resources: acc.resources.push(r), ..acc }
        }
    } else if id == "module"@ {
        if labels.len() == 0 {
            acc
        } else {
            match string_of_view(lookup(attrs, "source"@)) {
                None => acc,
                Some(src) => ParseView {
                    modules: acc.modules.push(ModuleView { name: labels[0]@, source: src, inputs: swap_remove_attr(attrs, "source"@) }),
                    ..acc
                },
            }
        }
    } else if id == "locals"@ {
        ParseView { locals: extend_attrs(acc.locals, attrs), ..acc }
    } else if id == "variable"@ {
        if labels.len() == 0 {
            acc
        } else {
            match lookup(attrs, "default"@) {
                Some(v) => if v is Null {
                    acc
                } else {
                    ParseView { variable_defaults: insert_attr(acc.variable_defaults, labels[0]@, v), ..acc }
                },
                None => acc,
            }
        }
    } else {
        acc
    }
}

/// What a sequence of blocks declares, block by block.
pub open spec fn parse_blocks(bs: Seq<HclBlock>) -> ParseView
    decreases bs.len(),
{
    if bs.len() == 0 {
        ParseView { resources: Seq::empty(), modules: Seq::empty(), locals: Seq::empty(), variable_defaults: Seq::empty() }
    } else {
        block_effect(parse_blocks(bs.drop_last()), bs.last())
    }
}

/// Sets each of `kvs` into `m` in turn.
fn extend_into(m: &mut Vec<TfAttribute>, kvs: &Vec<TfAttribute>)
    ensures
        attrs_view(final(m)@) == extend_attrs(attrs_view(old(m)@), attrs_view(kvs@)),
{
    proof {
        lemma_attrs_view(kvs@);
    }
    let mut i: usize = 0;
    while i < kvs.len()
        invariant
            i <= kvs@.len(),
            attrs_view(kvs@).len() == kvs@.len(),
            forall|j: int| 0 <= j < kvs@.len() ==> #[trigger] attrs_view(kvs@)[j] == (kvs@[j].key@, kvs@[j].value@),
            attrs_view(m@) == extend_attrs(attrs_view(old(m)@), attrs_view(kvs@).subrange(0, i as int)),
        decreases kvs.len() - i,
    {
        attr_insert(m, kvs[i].key.clone(), kvs[i].value.duplicate());
        proof {
            let sub = attrs_view(kvs@).subrange(0, i + 1);
            assert(sub.drop_last() =~= attrs_view(kvs@).subrange(0, i as int));
            assert(sub.last() == attrs_view(kvs@)[i as int]);
        }
        i = i + 1;
    }
    assert(attrs_view(kvs@).subrange(0, i as int) =~= attrs_view(kvs@));
}

/// Adds what `block` declares to `result`.
fn apply_block(result: &mut ParseResult, block: &HclBlock)
    ensures
        final(result)@ == block_effect(old(result)@, *block),
{
    let id = block.identifier.as_str();
    if str_eq(id, "resource") {
        if block.labels.len() < 2 {
            return;
        }
        let t = block.labels[0].as_str();
        let kind = ResourceKind::new(detect_cloud(t), t);
        let address = ResourceAddress::new(kind, block.labels[1].as_str());
        let attributes = extract_attributes(&block.body);
        let r = TfResource { address, attributes };
        let ghost before = result.resources@;
        result.resources.push(r);
        assert(result@.resources =~= before.map_values(|x: TfResource| x@).push(r@));
    } else if str_eq(id, "module") {
        if block.labels.len() == 0 {
            return;
        }
        let mut attrs = extract_attributes(&block.body);
        let source = match attr_get(&attrs, "source") {
            Some(v) => match v.as_str() {
                Some(s) => owned(s),
                None => return,
            },
            None => return,
        };
        attr_swap_remove(&mut attrs, "source");
        let m = TfModule { name: block.labels[0].clone(), source, inputs: attrs };
        let ghost before = result.modules@;
        result.modules.push(m);
        assert(result@.modules =~= before.map_values(|x: TfModule| x@).push(m@));
    } else if str_eq(id, "locals") {
        let attrs = extract_attributes(&block.body);
        extend_into(&mut result.locals, &attrs);
    } else if str_eq(id, "variable") {
        if block.labels.len() == 0 {
            return;
        }
        let attrs = extract_attributes(&block.body);
        match attr_get(&attrs, "default") {
            Some(v) => {
                proof {
                    crate::state::lemma_value_view(*v);
                }
                match v {
                    TfValue::Null => {},
                    _ => attr_insert(&mut result.variable_defaults, block.labels[0].clone(), v.duplicate()),
                }
            },
            None => {},
        }
    }
}

/// What a body's blocks declare: its resources, module calls, locals and
/// variable defaults (its top-level attributes are ignored).
pub fn parse_body(body: &HclBody) -> (r: ParseResult)
    ensures
        r@ == parse_blocks(body.blocks@),
{
    let mut result = ParseResult { resources: Vec::new(), modules: Vec::new(), locals: Vec::new(), variable_defaults: Vec::new() };
    assert(body.blocks@.subrange(0, 0) =~= Seq::<HclBlock>::empty());
    assert(result@.resources =~= Seq::<ResourceView>::empty());
    assert(result@.modules =~= Seq::<ModuleView>::empty());
    assert(result@.locals =~= Seq::<(Seq<char>, ValueView)>::empty());
    assert(result@.variable_defaults =~= Seq::<(Seq<char>, ValueView)>::empty());
    assert(result@ == parse_blocks(body.blocks@.subrange(0, 0)));
    let mut i: usize = 0;
    while i < body.blocks.len()
        invariant
            i <= body.blocks@.len(),
            result@ == parse_blocks(body.blocks@.subrange(0, i as int)),
        decreases body.blocks.len() - i,
    {
        apply_block(&mut result, &body.blocks[i]);
        proof {
            let sub = body.blocks@.subrange(0, i + 1);
            assert(sub.drop_last() =~= body.blocks@.subrange(0, i as int));
        }
        i = i + 1;
    }
    assert(body.blocks@.subrange(0, i as int) =~= body.blocks@);
    result
}

/// What a file declares, from what the HCL parser made of it: its parse error
/// becomes an HCL parse error.
pub fn parse_hcl(parsed: Result<HclBody, String>) -> (r: Result<ParseResult, PreciousError>)
    ensures
        match (parsed, r) {
            (Ok(body), Ok(result)) => result@ == parse_blocks(body.blocks@),
            (Err(m), Err(e)) => e@ == ErrorView::HclParse(m@),
            _ => false,
        },
{
    match parsed {
        Ok(body) => Ok(parse_body(&body)),
        Err(m) => Err(PreciousError::HclParse(m)),
    }
}

} // verus!
