//! Loading a root module together with the local modules it calls, over a
//! directory tree read beforehand: each directory with what its files
//! declare and where its module sources lead.
//!
//! A module reached again through its own module calls is skipped, and a
//! directory may be loaded again by a later caller once its first load is
//! done.

use vstd::prelude::*;

use super::loader::{
    check_depth, children_of, effective_vars, enter_module, file_views, leave_module, load_file, loading_set, module_defaults,
    module_locals, module_variables, state_add_all, ChildModule, ChildView,
};
use super::parser::{ParseResult, ParseView, TfModule};
use crate::error::{ErrorView, PreciousError};
use crate::state::{attrs_view, duplicate_attrs, entries_view, ResourceView, State, TfAttribute, TfResource, ValueView};
use crate::text::str_eq;

verus! {

broadcast use {vstd::std_specs::vec::axiom_vec_decreases_to_view, vstd::std_specs::vec::axiom_vec_index_decreases};

/// A module source of a directory and where it leads: the index of the
/// directory it resolves to, or `None` where it does not resolve.
#[derive(Debug)]
pub struct ModuleSource {
    pub source: String,
    pub target: Option<usize>,
}

/// A directory of the tree: its canonical path, whether it is a directory,
/// what its `.tf` files declare in file-name order (`None` where they could
/// not be read or parsed), and where its module sources lead.
#[derive(Debug)]
pub struct ModuleDir {
    pub path: String,
    pub is_dir: bool,
    pub files: Option<Vec<ParseResult>>,
    pub sources: Vec<ModuleSource>,
}

/// A directory of the tree as plain values.
pub ghost struct DirView {
    pub path: Seq<char>,
    pub is_dir: bool,
    pub files: Option<Seq<ParseView>>,
    pub sources: Seq<(Seq<char>, Option<usize>)>,
}

/// The module sources of a directory as plain values.
pub open spec fn source_views(sources: Seq<ModuleSource>) -> Seq<(Seq<char>, Option<usize>)> {
    sources.map_values(|s: ModuleSource| (s.source@, s.target))
}

impl View for ModuleDir {
    type V = DirView;

    open spec fn view(&self) -> DirView {
        DirView {
            path: self.path@,
            is_dir: self.is_dir,
            files: match self.files {
                Some(fs) => Some(file_views(fs@)),
                None => None,
            },
            sources: source_views(self.sources@),
        }
    }
}

/// The views of the directories of a tree.
pub open spec fn dir_views(dirs: Seq<ModuleDir>) -> Seq<DirView> {
    dirs.map_values(|d: ModuleDir| d@)
}

/// Why loading a tree stopped: an error of the configuration (module calls
/// nested too deep), a module path that is not a directory, or a directory
/// whose files could not be read or parsed (both by the index of the
/// directory).
#[derive(Debug)]
pub enum LoadError {
    Failed(PreciousError),
    NotADirectory(usize),
    Unreadable(usize),
}

/// Why loading stopped, as plain values.
pub ghost enum LoadErrorView {
    Failed(ErrorView),
    NotADirectory(int),
    Unreadable(int),
}

impl View for LoadError {
    type V = LoadErrorView;

    open spec fn view(&self) -> LoadErrorView {
        match self {
            LoadError::Failed(e) => LoadErrorView::Failed(e@),
            LoadError::NotADirectory(i) => LoadErrorView::NotADirectory(*i as int),
            LoadError::Unreadable(i) => LoadErrorView::Unreadable(*i as int),
        }
    }
}

/// Where a load ends: why it stopped (`None` when it did not), the state
/// entries, and the directories being loaded.
pub ghost struct Outcome {
    pub err: Option<LoadErrorView>,
    pub es: Seq<(Seq<char>, ResourceView)>,
    pub visited: Set<Seq<char>>,
}

/// The directory index that `source` leads to among `n` directories: the
/// first entry for it, where that resolves to an index below `n`.
pub open spec fn target_of(srcs: Seq<(Seq<char>, Option<usize>)>, source: Seq<char>, n: nat) -> Option<usize>
    decreases srcs.len(),
{
    if srcs.len() == 0 {
        None
    } else if srcs[0].0 == source {
        match srcs[0].1 {
            Some(t) => if t < n { Some(t) } else { None },
            None => None,
        }
    } else {
        target_of(srcs.drop_first(), source, n)
    }
}

/// The message of the error for module calls nested too deep.
pub open spec fn depth_message(path: Seq<char>) -> Seq<char> {
    "module nesting depth exceeded 16 at "@ + path
}

/// Loading the module in directory `d` at module `path`, called with
/// `inputs`, at nesting `depth`, onto state entries `es` while the
/// directories `vis` are being loaded.
pub open spec fn load_dir(
    ds: Seq<DirView>,
    d: int,
    path: Seq<Seq<char>>,
    inputs: Seq<(Seq<char>, ValueView)>,
    es: Seq<(Seq<char>, ResourceView)>,
    vis: Set<Seq<char>>,
    depth: nat,
) -> Outcome
    decreases 17 - depth, 2int, 0nat,
{
    let dir = ds[d];
    if depth > 16 {
        Outcome { err: Some(LoadErrorView::Failed(ErrorView::HclParse(depth_message(dir.path)))), es, visited: vis }
    } else if !dir.is_dir {
        Outcome { err: Some(LoadErrorView::NotADirectory(d)), es, visited: vis }
    } else if vis.contains(dir.path) {
        Outcome { err: None, es, visited: vis }
    } else {
        match dir.files {
            None => Outcome { err: Some(LoadErrorView::Unreadable(d)), es, visited: vis.insert(dir.path) },
            Some(files) => {
                let vars = effective_vars(module_defaults(files), inputs, module_locals(files));
                let o = load_files(ds, dir.sources, files, files.len(), path, vars, es, vis.insert(dir.path), depth);
                if o.err is Some {
                    o
                } else {
                    Outcome { err: None, es: o.es, visited: o.visited.remove(dir.path) }
                }
            },
        }
    }
}

/// Loading the first `k` files of a module: the resources of each file, then
/// the modules it calls, in order, until one fails.
pub open spec fn load_files(
    ds: Seq<DirView>,
    srcs: Seq<(Seq<char>, Option<usize>)>,
    files: Seq<ParseView>,
    k: nat,
    path: Seq<Seq<char>>,
    vars: Seq<(Seq<char>, ValueView)>,
    es: Seq<(Seq<char>, ResourceView)>,
    vis: Set<Seq<char>>,
    depth: nat,
) -> Outcome
    decreases 17 - depth, 1int, k,
{
    if k == 0 {
        Outcome { err: None, es, visited: vis }
    } else {
        let o = load_files(ds, srcs, files, (k - 1) as nat, path, vars, es, vis, depth);
        if o.err is Some {
            o
        } else {
            let f = files[k - 1];
            let cs = children_of(f.modules, path, vars);
            load_children(ds, srcs, cs, cs.len(), state_add_all(o.es, f.resources, path, vars), o.visited, depth)
        }
    }
}

/// Following the first `j` module calls `cs` of a module at nesting `depth`,
/// until one fails; a call whose source does not resolve is passed over.
pub open spec fn load_children(
    ds: Seq<DirView>,
    srcs: Seq<(Seq<char>, Option<usize>)>,
    cs: Seq<ChildView>,
    j: nat,
    es: Seq<(Seq<char>, ResourceView)>,
    vis: Set<Seq<char>>,
    depth: nat,
) -> Outcome
    decreases 17 - depth, 0int, j,
{
    if j == 0 || depth > 16 {
        Outcome { err: None, es, visited: vis }
    } else {
        let o = load_children(ds, srcs, cs, (j - 1) as nat, es, vis, depth);
        if o.err is Some {
            o
        } else {
            let c = cs[j - 1];
            match target_of(srcs, c.source, ds.len()) {
                None => o,
                Some(t) => load_dir(ds, t as int, c.path, c.inputs, o.es, o.visited, depth + 1),
            }
        }
    }
}

/// A source leads to a directory of the tree.
pub proof fn lemma_target_in_range(srcs: Seq<(Seq<char>, Option<usize>)>, source: Seq<char>, n: nat)
    ensures
        target_of(srcs, source, n) matches Some(t) ==> t < n,
    decreases srcs.len(),
{
    if srcs.len() > 0 && srcs[0].0 != source {
        lemma_target_in_range(srcs.drop_first(), source, n);
    }
}

/// Once a module call has failed, the later ones are not followed.
proof fn lemma_children_stop(
    ds: Seq<DirView>,
    srcs: Seq<(Seq<char>, Option<usize>)>,
    cs: Seq<ChildView>,
    j: nat,
    j2: nat,
    es: Seq<(Seq<char>, ResourceView)>,
    vis: Set<Seq<char>>,
    depth: nat,
)
    requires
        j <= j2,
        load_children(ds, srcs, cs, j, es, vis, depth).err is Some,
    ensures
        load_children(ds, srcs, cs, j2, es, vis, depth) == load_children(ds, srcs, cs, j, es, vis, depth),
    decreases j2 - j,
{
    if j2 > j {
        lemma_children_stop(ds, srcs, cs, j, (j2 - 1) as nat, es, vis, depth);
    }
}

/// Once a file has failed, the later ones are not loaded.
proof fn lemma_files_stop(
    ds: Seq<DirView>,
    srcs: Seq<(Seq<char>, Option<usize>)>,
    files: Seq<ParseView>,
    k: nat,
    k2: nat,
    path: Seq<Seq<char>>,
    vars: Seq<(Seq<char>, ValueView)>,
    es: Seq<(Seq<char>, ResourceView)>,
    vis: Set<Seq<char>>,
    depth: nat,
)
    requires
        k <= k2,
        load_files(ds, srcs, files, k, path, vars, es, vis, depth).err is Some,
    ensures
        load_files(ds, srcs, files, k2, path, vars, es, vis, depth) == load_files(ds, srcs, files, k, path, vars, es, vis, depth),
    decreases k2 - k,
{
    if k2 > k {
        lemma_files_stop(ds, srcs, files, k, (k2 - 1) as nat, path, vars, es, vis, depth);
    }
}

/// A load that succeeds gives back the directories being loaded as it found
/// them: a module leaves the set once its own load is done, so a sibling
/// module may load the same directory again.
pub proof fn lemma_load_restores_visited(
    ds: Seq<DirView>,
    d: int,
    path: Seq<Seq<char>>,
    inputs: Seq<(Seq<char>, ValueView)>,
    es: Seq<(Seq<char>, ResourceView)>,
    vis: Set<Seq<char>>,
    depth: nat,
)
    requires
        0 <= d < ds.len(),
    ensures
        load_dir(ds, d, path, inputs, es, vis, depth).err is None ==> load_dir(ds, d, path, inputs, es, vis, depth).visited
            == vis,
    decreases 17 - depth, 2int, 0nat,
{
    let dir = ds[d];
    if depth <= 16 && dir.is_dir && !vis.contains(dir.path) {
        if let Some(files) = dir.files {
            let vars = effective_vars(module_defaults(files), inputs, module_locals(files));
            lemma_files_restore(ds, dir.sources, files, files.len(), path, vars, es, vis.insert(dir.path), depth);
            assert(vis.insert(dir.path).remove(dir.path) =~= vis);
        }
    }
}

/// Loading files that succeeds gives back the directories being loaded.
proof fn lemma_files_restore(
    ds: Seq<DirView>,
    srcs: Seq<(Seq<char>, Option<usize>)>,
    files: Seq<ParseView>,
    k: nat,
    path: Seq<Seq<char>>,
    vars: Seq<(Seq<char>, ValueView)>,
    es: Seq<(Seq<char>, ResourceView)>,
    vis: Set<Seq<char>>,
    depth: nat,
)
    ensures
        load_files(ds, srcs, files, k, path, vars, es, vis, depth).err is None ==> load_files(
            ds,
            srcs,
            files,
            k,
            path,
            vars,
            es,
            vis,
            depth,
        ).visited == vis,
    decreases 17 - depth, 1int, k,
{
    if k > 0 {
        lemma_files_restore(ds, srcs, files, (k - 1) as nat, path, vars, es, vis, depth);
        let o = load_files(ds, srcs, files, (k - 1) as nat, path, vars, es, vis, depth);
        if o.err is None {
            let f = files[k - 1];
            let cs = children_of(f.modules, path, vars);
            lemma_children_restore(ds, srcs, cs, cs.len(), state_add_all(o.es, f.resources, path, vars), o.visited, depth);
        }
    }
}

/// Following module calls that succeeds gives back the directories being
/// loaded.
proof fn lemma_children_restore(
    ds: Seq<DirView>,
    srcs: Seq<(Seq<char>, Option<usize>)>,
    cs: Seq<ChildView>,
    j: nat,
    es: Seq<(Seq<char>, ResourceView)>,
    vis: Set<Seq<char>>,
    depth: nat,
)
    ensures
        load_children(ds, srcs, cs, j, es, vis, depth).err is None ==> load_children(ds, srcs, cs, j, es, vis, depth).visited
            == vis,
    decreases 17 - depth, 0int, j,
{
    if j > 0 && depth <= 16 {
        lemma_children_restore(ds, srcs, cs, (j - 1) as nat, es, vis, depth);
        let o = load_children(ds, srcs, cs, (j - 1) as nat, es, vis, depth);
        if o.err is None {
            let c = cs[j - 1];
            lemma_target_in_range(srcs, c.source, ds.len());
            if let Some(t) = target_of(srcs, c.source, ds.len()) {
                lemma_load_restores_visited(ds, t as int, c.path, c.inputs, o.es, o.visited, depth + 1);
            }
        }
    }
}

/// The state entries after storing the resources of the first `k` files,
/// each file's resources in turn, at module `path` with variables `vars`.
pub open spec fn files_resources(
    es: Seq<(Seq<char>, ResourceView)>,
    files: Seq<ParseView>,
    k: nat,
    path: Seq<Seq<char>>,
    vars: Seq<(Seq<char>, ValueView)>,
) -> Seq<(Seq<char>, ResourceView)>
    decreases k,
{
    if k == 0 {
        es
    } else {
        state_add_all(files_resources(es, files, (k - 1) as nat, path, vars), files[k - 1].resources, path, vars)
    }
}

/// Files that call no module only add their resources.
proof fn lemma_files_without_calls(
    ds: Seq<DirView>,
    srcs: Seq<(Seq<char>, Option<usize>)>,
    files: Seq<ParseView>,
    k: nat,
    path: Seq<Seq<char>>,
    vars: Seq<(Seq<char>, ValueView)>,
    es: Seq<(Seq<char>, ResourceView)>,
    vis: Set<Seq<char>>,
    depth: nat,
)
    requires
        k <= files.len(),
        forall|i: int| 0 <= i < files.len() ==> (#[trigger] files[i]).modules.len() == 0,
    ensures
        load_files(ds, srcs, files, k, path, vars, es, vis, depth) == (Outcome {
            err: None,
            es: files_resources(es, files, k, path, vars),
            visited: vis,
        }),
    decreases k,
{
    if k > 0 {
        lemma_files_without_calls(ds, srcs, files, (k - 1) as nat, path, vars, es, vis, depth);
        let o = load_files(ds, srcs, files, (k - 1) as nat, path, vars, es, vis, depth);
        let f = files[k - 1];
        let cs = children_of(f.modules, path, vars);
        assert(f.modules.len() == 0);
        assert(cs.len() == 0);
        let es2 = state_add_all(o.es, f.resources, path, vars);
        assert(load_children(ds, srcs, cs, cs.len(), es2, o.visited, depth) == (Outcome { err: None, es: es2, visited: vis }));
        assert(load_files(ds, srcs, files, k, path, vars, es, vis, depth) == load_children(ds, srcs, cs, cs.len(), es2, o.visited, depth));
        assert(files_resources(es, files, k, path, vars) == es2);
    }
}

/// A module that calls no other module adds the resources of its files, in
/// file order, at its module path, resolved with its variable defaults,
/// overridden by the known inputs it was called with, then by its locals; the
/// directories being loaded are as before.
pub proof fn lemma_module_without_calls(
    ds: Seq<DirView>,
    d: int,
    path: Seq<Seq<char>>,
    inputs: Seq<(Seq<char>, ValueView)>,
    es: Seq<(Seq<char>, ResourceView)>,
    vis: Set<Seq<char>>,
    depth: nat,
    files: Seq<ParseView>,
)
    requires
        0 <= d < ds.len(),
        depth <= 16,
        ds[d].is_dir,
        !vis.contains(ds[d].path),
        ds[d].files == Some(files),
        forall|i: int| 0 <= i < files.len() ==> (#[trigger] files[i]).modules.len() == 0,
    ensures
        load_dir(ds, d, path, inputs, es, vis, depth) == (Outcome {
            err: None,
            es: files_resources(es, files, files.len(), path, effective_vars(module_defaults(files), inputs, module_locals(files))),
            visited: vis,
        }),
{
    let dir = ds[d];
    let vars = effective_vars(module_defaults(files), inputs, module_locals(files));
    lemma_files_without_calls(ds, dir.sources, files, files.len(), path, vars, es, vis.insert(dir.path), depth);
    assert(vis.insert(dir.path).remove(dir.path) =~= vis);
}

/// Following a module call loads the called directory with the call's
/// inputs: each resource of the called module lands at the call's module
/// path, resolved with the called module's variable defaults, overridden by
/// the known inputs of the call, then by the called module's locals.
pub proof fn lemma_call_passes_inputs(
    ds: Seq<DirView>,
    srcs: Seq<(Seq<char>, Option<usize>)>,
    cs: Seq<ChildView>,
    j: nat,
    es: Seq<(Seq<char>, ResourceView)>,
    vis: Set<Seq<char>>,
    depth: nat,
    t: usize,
    files: Seq<ParseView>,
)
    requires
        j < cs.len(),
        depth < 16,
        load_children(ds, srcs, cs, j, es, vis, depth).err is None,
        target_of(srcs, cs[j as int].source, ds.len()) == Some(t),
        ds[t as int].is_dir,
        ds[t as int].files == Some(files),
        !load_children(ds, srcs, cs, j, es, vis, depth).visited.contains(ds[t as int].path),
        forall|i: int| 0 <= i < files.len() ==> (#[trigger] files[i]).modules.len() == 0,
    ensures
        ({
            let before = load_children(ds, srcs, cs, j, es, vis, depth);
            let c = cs[j as int];
            load_children(ds, srcs, cs, j + 1, es, vis, depth) == (Outcome {
                err: None,
                es: files_resources(
                    before.es,
                    files,
                    files.len(),
                    c.path,
                    effective_vars(module_defaults(files), c.inputs, module_locals(files)),
                ),
                visited: before.visited,
            })
        }),
{
    let before = load_children(ds, srcs, cs, j, es, vis, depth);
    let c = cs[j as int];
    lemma_target_in_range(srcs, c.source, ds.len());
    lemma_module_without_calls(ds, t as int, c.path, c.inputs, before.es, before.visited, depth + 1, files);
    assert(load_children(ds, srcs, cs, j + 1, es, vis, depth) == load_dir(
        ds,
        t as int,
        c.path,
        c.inputs,
        before.es,
        before.visited,
        depth + 1,
    ));
}

/// A module that is already being loaded, reached again through its own
/// module calls, is skipped: its load succeeds and changes neither the state
/// nor the directories being loaded.
pub proof fn lemma_cycle_adds_nothing(
    ds: Seq<DirView>,
    d: int,
    path: Seq<Seq<char>>,
    inputs: Seq<(Seq<char>, ValueView)>,
    es: Seq<(Seq<char>, ResourceView)>,
    vis: Set<Seq<char>>,
    depth: nat,
)
    requires
        0 <= d < ds.len(),
        depth <= 16,
        ds[d].is_dir,
        vis.contains(ds[d].path),
    ensures
        load_dir(ds, d, path, inputs, es, vis, depth) == (Outcome { err: None, es, visited: vis }),
{
}

/// A copy of a module call.
fn duplicate_module(m: &TfModule) -> (r: TfModule)
    ensures
        r@ == m@,
{
    TfModule { name: m.name.clone(), source: m.source.clone(), inputs: duplicate_attrs(&m.inputs) }
}

/// A copy of what a file declares.
fn duplicate_file(f: &ParseResult) -> (r: ParseResult)
    ensures
        r@ == f@,
{
    let mut resources: Vec<TfResource> = Vec::new();
    let mut i: usize = 0;
    while i < f.resources.len()
        invariant
            i <= f.resources@.len(),
            resources@.len() == i,
            forall|j: int| 0 <= j < i ==> (#[trigger] resources@[j])@ == f.resources@[j]@,
        decreases f.resources.len() - i,
    {
        resources.push(f.resources[i].duplicate());
        i = i + 1;
    }
    let mut modules: Vec<TfModule> = Vec::new();
    let mut i: usize = 0;
    while i < f.modules.len()
        invariant
            i <= f.modules@.len(),
            modules@.len() == i,
            forall|j: int| 0 <= j < i ==> (#[trigger] modules@[j])@ == f.modules@[j]@,
        decreases f.modules.len() - i,
    {
        modules.push(duplicate_module(&f.modules[i]));
        i = i + 1;
    }
    let r = ParseResult {
        resources,
        modules,
        locals: duplicate_attrs(&f.locals),
        variable_defaults: duplicate_attrs(&f.variable_defaults),
    };
    assert(r@.resources =~= f@.resources);
    assert(r@.modules =~= f@.modules);
    r
}

/// The directory index that `source` leads to among `n` directories.
fn find_target(sources: &Vec<ModuleSource>, source: &str, n: usize) -> (t: Option<usize>)
    ensures
        t == target_of(source_views(sources@), source@, n as nat),
{
    let ghost sv = source_views(sources@);
    let mut i: usize = 0;
    assert(sv.subrange(0, sv.len() as int) =~= sv);
    while i < sources.len()
        invariant
            i <= sources@.len(),
            sv == source_views(sources@),
            target_of(sv, source@, n as nat) == target_of(sv.subrange(i as int, sv.len() as int), source@, n as nat),
        decreases sources.len() - i,
    {
        let ghost rest = sv.subrange(i as int, sv.len() as int);
        assert(rest.drop_first() =~= sv.subrange(i + 1, sv.len() as int));
        assert(rest[0] == (sources@[i as int].source@, sources@[i as int].target));
        if str_eq(sources[i].source.as_str(), source) {
            return match sources[i].target {
                Some(t) => if t < n { Some(t) } else { None },
                None => None,
            };
        }
        i = i + 1;
    }
    None
}

/// Whether `r`, the state entries and the directories being loaded are
/// those of outcome `o`.
pub open spec fn ends_as(o: Outcome, r: Result<(), LoadError>, state: State, visited: Seq<String>) -> bool {
    &&& entries_view(state.resources@) == o.es
    &&& loading_set(visited) == o.visited
    &&& match r {
        Ok(_) => o.err is None,
        Err(e) => o.err == Some(e@),
    }
}

/// Loads the module in directory `d` of the tree at module `path`, called
/// with `inputs`, at nesting `depth`.
fn load_module(
    dirs: &Vec<ModuleDir>,
    d: usize,
    path: &Vec<String>,
    inputs: &Vec<TfAttribute>,
    state: &mut State,
    visited: &mut Vec<String>,
    depth: usize,
) -> (r: Result<(), LoadError>)
    requires
        d < dirs@.len(),
        depth <= 17,
    ensures
        ends_as(
            load_dir(
                dir_views(dirs@),
                d as int,
                path@.map_values(|s: String| s@),
                attrs_view(inputs@),
                entries_view(old(state).resources@),
                loading_set(old(visited)@),
                depth as nat,
            ),
            r,
            *final(state),
            final(visited)@,
        ),
    decreases 17 - depth,
{
    let ghost ds = dir_views(dirs@);
    let ghost pv = path@.map_values(|s: String| s@);
    let ghost es0 = entries_view(state.resources@);
    let ghost vis0 = loading_set(visited@);
    let dir = &dirs[d];
    assert(ds[d as int] == dir@);
    if let Err(e) = check_depth(depth, dir.path.as_str()) {
        return Err(LoadError::Failed(e));
    }
    if !dir.is_dir {
        return Err(LoadError::NotADirectory(d));
    }
    if !enter_module(visited, dir.path.as_str()) {
        assert(vis0.insert(dir@.path) =~= vis0);
        return Ok(());
    }
    let ghost vis1 = loading_set(visited@);
    assert(vis1 == vis0.insert(dir@.path));
    match &dir.files {
        None => Err(LoadError::Unreadable(d)),
        Some(files) => {
            let ghost fv = file_views(files@);
            let ghost srcs = dir@.sources;
            assert(dir@.files == Some(fv));
            let vars = module_variables(files, inputs);
            let ghost vv = attrs_view(vars@);
            let ghost ld = load_dir(ds, d as int, pv, attrs_view(inputs@), es0, vis0, depth as nat);
            let ghost lf = load_files(ds, srcs, fv, fv.len(), pv, vv, es0, vis1, depth as nat);
            assert(lf.err is Some ==> ld == lf);
            assert(lf.err is None ==> ld == (Outcome { err: None, es: lf.es, visited: lf.visited.remove(dir@.path) }));
            let mut k: usize = 0;
            while k < files.len()
                invariant
                    k <= files@.len(),
                    d < dirs@.len(),
                    depth <= 16,
                    ds == dir_views(dirs@),
                    dir == &dirs@[d as int],
                    dir@.files == Some(fv),
                    srcs == dir@.sources,
                    fv == file_views(files@),
                    fv.len() == files@.len(),
                    pv == path@.map_values(|s: String| s@),
                    vv == attrs_view(vars@),
                    es0 == entries_view(old(state).resources@),
                    vis0 == loading_set(old(visited)@),
                    ld == load_dir(ds, d as int, pv, attrs_view(inputs@), es0, vis0, depth as nat),
                    lf == load_files(ds, srcs, fv, fv.len(), pv, vv, es0, vis1, depth as nat),
                    lf.err is Some ==> ld == lf,
                    lf.err is None ==> ld == (Outcome { err: None, es: lf.es, visited: lf.visited.remove(dir@.path) }),
                    load_files(ds, srcs, fv, k as nat, pv, vv, es0, vis1, depth as nat).err is None,
                    entries_view(state.resources@) == load_files(ds, srcs, fv, k as nat, pv, vv, es0, vis1, depth as nat).es,
                    loading_set(visited@) == load_files(ds, srcs, fv, k as nat, pv, vv, es0, vis1, depth as nat).visited,
                decreases files.len() - k,
            {
                let ghost o = load_files(ds, srcs, fv, k as nat, pv, vv, es0, vis1, depth as nat);
                let file = duplicate_file(&files[k]);
                assert(file@ == fv[k as int]);
                let children = load_file(state, file, path, &vars);
                let ghost cs = children_of(fv[k as int].modules, pv, vv);
                let ghost es2 = entries_view(state.resources@);
                let ghost vis2 = loading_set(visited@);
                assert(load_files(ds, srcs, fv, (k + 1) as nat, pv, vv, es0, vis1, depth as nat)
                    == load_children(ds, srcs, cs, cs.len(), es2, vis2, depth as nat));
                let mut j: usize = 0;
                while j < children.len()
                    invariant
                        j <= children@.len(),
                        d < dirs@.len(),
                        depth <= 16,
                        ds == dir_views(dirs@),
                        dir == &dirs@[d as int],
                        srcs == dir@.sources,
                        k < fv.len(),
                        es0 == entries_view(old(state).resources@),
                        vis0 == loading_set(old(visited)@),
                        pv == path@.map_values(|s: String| s@),
                        ld == load_dir(ds, d as int, pv, attrs_view(inputs@), es0, vis0, depth as nat),
                        lf == load_files(ds, srcs, fv, fv.len(), pv, vv, es0, vis1, depth as nat),
                        lf.err is Some ==> ld == lf,
                        load_files(ds, srcs, fv, (k + 1) as nat, pv, vv, es0, vis1, depth as nat)
                            == load_children(ds, srcs, cs, cs.len(), es2, vis2, depth as nat),
                        children@.map_values(|c: ChildModule| c@) == cs,
                        load_children(ds, srcs, cs, j as nat, es2, vis2, depth as nat).err is None,
                        entries_view(state.resources@) == load_children(ds, srcs, cs, j as nat, es2, vis2, depth as nat).es,
                        loading_set(visited@) == load_children(ds, srcs, cs, j as nat, es2, vis2, depth as nat).visited,
                    decreases children.len() - j,
                {
                    let c = &children[j];
                    assert(c@ == cs[j as int]);
                    let t = find_target(&dir.sources, c.source.as_str(), dirs.len());
                    proof {
                        lemma_target_in_range(srcs, cs[j as int].source, ds.len());
                    }
                    match t {
                        None => {},
                        Some(t) => {
                            let r = load_module(dirs, t, &c.path, &c.inputs, state, visited, depth + 1);
                            if r.is_err() {
                                // The failed call ends the load of this module and of its callers.
                                proof {
                                    let o = load_children(ds, srcs, cs, j as nat, es2, vis2, depth as nat);
                                    assert(ds.len() == dirs@.len());
                                    assert(load_children(ds, srcs, cs, (j + 1) as nat, es2, vis2, depth as nat)
                                        == load_dir(ds, t as int, cs[j as int].path, cs[j as int].inputs, o.es, o.visited, (depth + 1) as nat));
                                    assert(load_children(ds, srcs, cs, (j + 1) as nat, es2, vis2, depth as nat).err is Some);
                                    lemma_children_stop(ds, srcs, cs, (j + 1) as nat, cs.len(), es2, vis2, depth as nat);
                                    lemma_files_stop(ds, srcs, fv, (k + 1) as nat, fv.len(), pv, vv, es0, vis1, depth as nat);
                                    assert(lf == load_children(ds, srcs, cs, (j + 1) as nat, es2, vis2, depth as nat));
                                    assert(ld == lf);
                                }
                                return r;
                            }
                        },
                    }
                    j = j + 1;
                }
                k = k + 1;
            }
            leave_module(visited, dir.path.as_str());
            Ok(())
        },
    }
}

/// Loads the root module in directory `root` of the tree, with the local
/// modules it calls, onto an empty state.
pub fn load_tree(dirs: &Vec<ModuleDir>, root: usize) -> (r: Result<State, LoadError>)
    requires
        root < dirs@.len(),
    ensures
        ({
            let o = load_dir(dir_views(dirs@), root as int, Seq::empty(), Seq::empty(), Seq::empty(), Set::empty(), 0);
            match r {
                Ok(s) => o.err is None && entries_view(s.resources@) == o.es,
                Err(e) => o.err == Some(e@),
            }
        }),
{
    let mut state = State::new();
    let mut visited: Vec<String> = Vec::new();
    let path: Vec<String> = Vec::new();
    let inputs: Vec<TfAttribute> = Vec::new();
    assert(path@.map_values(|s: String| s@) =~= Seq::<Seq<char>>::empty());
    assert(entries_view(state.resources@) =~= Seq::<(Seq<char>, ResourceView)>::empty());
    assert(loading_set(visited@) =~= Set::<Seq<char>>::empty());
    proof {
        crate::state::lemma_attrs_view(inputs@);
        assert(attrs_view(inputs@) =~= Seq::<(Seq<char>, ValueView)>::empty());
    }
    match load_module(dirs, root, &path, &inputs, &mut state, &mut visited, 0) {
        Ok(()) => Ok(state),
        Err(e) => Err(e),
    }
}

} // verus!
