use precious::decimal::Decimal;
use precious::resource::{Cloud, ResourceAddress, ResourceKind};
use precious::state::{attr_get, Number, State, TfAttribute, TfResource, TfValue};
use precious::tf::loader::{
    check_depth, effective_variables, enter_module, leave_module, is_hidden, is_local_source, load_file, module_variables, resolve_variables,
    select_roots, MAX_MODULE_DEPTH,
};
use precious::tf::parser::{
    detect_cloud, expression_to_value, extract_attributes, parse_body, parse_hcl, HclAttribute, HclBlock, HclBody,
    HclExpr, ParseResult, TfModule, TraversalOperator,
};
use precious::tf::tree::{load_tree, LoadError, ModuleDir, ModuleSource};

fn number(n: u32) -> Number {
    let f = n as f64;
    Number { bits: f.to_bits(), decimal: Ok(Decimal::from_u32(n)), text: format!("{}", f), retained_div_1024: None }
}

fn a(k: &str, e: HclExpr) -> HclAttribute {
    HclAttribute { key: k.to_string(), expr: e }
}

fn st(v: &str) -> HclExpr {
    HclExpr::String(v.to_string())
}

fn var(name: &str) -> HclExpr {
    HclExpr::Traversal { root: Some("var".to_string()), operators: vec![TraversalOperator::GetAttr(name.to_string())] }
}

fn block(id: &str, labels: &[&str], attributes: Vec<HclAttribute>, blocks: Vec<HclBlock>) -> HclBlock {
    HclBlock {
        identifier: id.to_string(),
        labels: labels.iter().map(|l| l.to_string()).collect(),
        body: HclBody { attributes, blocks },
    }
}

fn kv(k: &str, v: TfValue) -> TfAttribute {
    TfAttribute { key: k.to_string(), value: v }
}

fn text(v: Option<&TfValue>) -> Option<String> {
    v.and_then(|x| x.as_str()).map(|s| s.to_string())
}

#[test]
fn clouds_by_prefix() {
    assert_eq!(detect_cloud("aws_instance"), Cloud::Aws);
    assert_eq!(detect_cloud("azurerm_subnet"), Cloud::Azure);
    assert_eq!(detect_cloud("google_compute_instance"), Cloud::Gcp);
    assert_eq!(detect_cloud("digitalocean_droplet"), Cloud::DigitalOcean);
    assert_eq!(detect_cloud("cloudflare_record"), Cloud::Cloudflare);
    assert_eq!(detect_cloud("planetscale_vitess_branch"), Cloud::PlanetScale);
    assert_eq!(detect_cloud("random_id"), Cloud::Aws);
}

#[test]
fn expressions_to_values() {
    assert!(matches!(expression_to_value(&var("size")), TfValue::VarRef(ref n) if n == "size"));
    let local = HclExpr::Traversal { root: Some("local".to_string()), operators: vec![TraversalOperator::GetAttr("x".to_string())] };
    assert!(matches!(expression_to_value(&local), TfValue::VarRef(ref n) if n == "x"));
    let deep = HclExpr::Traversal {
        root: Some("var".to_string()),
        operators: vec![TraversalOperator::GetAttr("x".to_string()), TraversalOperator::GetAttr("y".to_string())],
    };
    assert!(matches!(expression_to_value(&deep), TfValue::Null));
    let other = HclExpr::Traversal { root: Some("module".to_string()), operators: vec![TraversalOperator::GetAttr("x".to_string())] };
    assert!(matches!(expression_to_value(&other), TfValue::Null));
    assert!(matches!(expression_to_value(&HclExpr::Variable("each".to_string())), TfValue::VarRef(ref n) if n == "each"));
    assert!(matches!(expression_to_value(&HclExpr::Other), TfValue::Null));
    assert!(matches!(expression_to_value(&HclExpr::Number(None)), TfValue::Null));
    let list = HclExpr::Array(vec![st("a"), HclExpr::Bool(true), HclExpr::Number(Some(number(3)))]);
    match expression_to_value(&list) {
        TfValue::List(items) => {
            assert_eq!(items.len(), 3);
            assert_eq!(items[0].as_str(), Some("a"));
            assert_eq!(items[1].as_bool(), Some(true));
            assert_eq!(items[2].as_number().unwrap().text, "3");
        },
        other => panic!("unexpected {:?}", other),
    }
    let obj = HclExpr::Object(vec![a("k", st("1")), a("j", st("2")), a("k", st("3"))]);
    match expression_to_value(&obj) {
        TfValue::Object(m) => {
            assert_eq!(m.len(), 2);
            assert_eq!(m[0].key, "k");
            assert_eq!(m[0].value.as_str(), Some("3"));
        },
        other => panic!("unexpected {:?}", other),
    }
}

#[test]
fn nested_blocks_become_objects() {
    let body = HclBody {
        attributes: vec![a("name", st("x"))],
        blocks: vec![block("sku", &[], vec![a("name", st("P1"))], vec![])],
    };
    let attrs = extract_attributes(&body);
    assert_eq!(attrs.len(), 2);
    assert_eq!(attrs[1].key, "sku");
    match &attrs[1].value {
        TfValue::Object(m) => assert_eq!(text(attr_get(m, "name")), Some("P1".to_string())),
        other => panic!("unexpected {:?}", other),
    }
}

#[test]
fn blocks_of_a_file() {
    let body = HclBody {
        attributes: vec![],
        blocks: vec![
            block("resource", &["aws_instance", "web"], vec![a("instance_type", var("type"))], vec![]),
            block("resource", &["aws_instance"], vec![], vec![]),
            block("module", &["net"], vec![a("source", st("./net")), a("cidr", st("10.0.0.0/16")), a("zone", st("a"))], vec![]),
            block("module", &["nosource"], vec![a("cidr", st("x"))], vec![]),
            block("locals", &[], vec![a("env", st("prod"))], vec![]),
            block("variable", &["type"], vec![a("default", st("t3.micro"))], vec![]),
            block("variable", &["nodefault"], vec![a("default", HclExpr::Null)], vec![]),
            block("output", &["ip"], vec![a("value", st("x"))], vec![]),
        ],
    };
    let r = parse_body(&body);
    assert_eq!(r.resources.len(), 1);
    assert_eq!(r.resources[0].address.to_string(), "aws_instance.web");
    assert_eq!(r.resources[0].address.kind.cloud, Cloud::Aws);
    assert_eq!(r.modules.len(), 1);
    assert_eq!(r.modules[0].name, "net");
    assert_eq!(r.modules[0].source, "./net");
    let keys: Vec<&str> = r.modules[0].inputs.iter().map(|x| x.key.as_str()).collect();
    assert_eq!(keys, vec!["zone", "cidr"]);
    assert_eq!(r.locals.len(), 1);
    assert_eq!(r.variable_defaults.len(), 1);
    assert_eq!(r.variable_defaults[0].key, "type");
}

#[test]
fn parse_errors_are_hcl_errors() {
    match parse_hcl(Err("unexpected token".to_string())) {
        Err(e) => assert_eq!(e.message(), "failed to parse HCL: unexpected token"),
        Ok(_) => panic!("expected an error"),
    }
    assert!(parse_hcl(Ok(HclBody { attributes: vec![], blocks: vec![] })).unwrap().resources.is_empty());
}

#[test]
fn variables_are_resolved() {
    let vars = vec![kv("size", TfValue::String("large".to_string())), kv("tier", TfValue::String("gold".to_string())), kv("ref", TfValue::VarRef("x".to_string()))];
    let mut attrs = vec![
        kv("a", TfValue::VarRef("size".to_string())),
        kv("tier", TfValue::Null),
        kv("b", TfValue::VarRef("missing".to_string())),
        kv("c", TfValue::VarRef("ref".to_string())),
        kv("nested", TfValue::Object(vec![kv("d", TfValue::VarRef("size".to_string()))])),
    ];
    resolve_variables(&mut attrs, &vars);
    assert_eq!(attrs.len(), 5);
    assert_eq!(attrs[0].value.as_str(), Some("large"));
    assert_eq!(attrs[1].value.as_str(), Some("gold"));
    assert!(matches!(attrs[2].value, TfValue::VarRef(_)));
    assert!(matches!(attrs[3].value, TfValue::VarRef(_)));
    match &attrs[4].value {
        TfValue::Object(m) => assert_eq!(m[0].value.as_str(), Some("large")),
        other => panic!("unexpected {:?}", other),
    }
    let mut untouched = vec![kv("a", TfValue::VarRef("size".to_string())), kv("z", TfValue::Null)];
    resolve_variables(&mut untouched, &vec![]);
    assert!(matches!(untouched[0].value, TfValue::VarRef(_)));
    assert!(matches!(untouched[1].value, TfValue::Null));
}

#[test]
fn effective_variables_order() {
    let defaults = vec![kv("a", TfValue::String("default".to_string())), kv("b", TfValue::String("default".to_string()))];
    let inputs = vec![kv("a", TfValue::String("input".to_string())), kv("b", TfValue::VarRef("x".to_string()))];
    let locals = vec![kv("c", TfValue::String("local".to_string())), kv("a", TfValue::Null)];
    let eff = effective_variables(&defaults, &inputs, &locals);
    assert_eq!(eff.len(), 3);
    assert_eq!(text(attr_get(&eff, "a")), Some("input".to_string()));
    assert_eq!(text(attr_get(&eff, "b")), Some("default".to_string()));
    assert_eq!(text(attr_get(&eff, "c")), Some("local".to_string()));
}

#[test]
fn module_scope_from_files() {
    let f1 = ParseResult { resources: vec![], modules: vec![], locals: vec![kv("env", TfValue::String("dev".to_string()))], variable_defaults: vec![kv("n", TfValue::String("1".to_string()))] };
    let f2 = ParseResult { resources: vec![], modules: vec![], locals: vec![kv("env", TfValue::String("prod".to_string()))], variable_defaults: vec![] };
    let vars = module_variables(&vec![f1, f2], &vec![kv("n", TfValue::String("2".to_string()))]);
    assert_eq!(text(attr_get(&vars, "env")), Some("prod".to_string()));
    assert_eq!(text(attr_get(&vars, "n")), Some("2".to_string()));
}

#[test]
fn files_place_resources_and_follow_local_modules() {
    let body = HclBody {
        attributes: vec![],
        blocks: vec![
            block("resource", &["azurerm_storage_account", "data"], vec![a("location", var("region"))], vec![]),
            block("module", &["app"], vec![a("source", st("../app")), a("region", var("region"))], vec![]),
            block("module", &["remote"], vec![a("source", st("git::https://example.com/x"))], vec![]),
        ],
    };
    let file = parse_body(&body);
    let mut state = State::new();
    let path = vec!["outer".to_string(), "inner".to_string()];
    let vars = vec![kv("region", TfValue::String("westeurope".to_string()))];
    let children = load_file(&mut state, file, &path, &vars);
    assert_eq!(state.resources.len(), 1);
    assert_eq!(state.resources[0].key, "module.inner.module.outer.azurerm_storage_account.data");
    assert_eq!(state.resources[0].resource.get_string("location"), Some("westeurope"));
    assert_eq!(children.len(), 1);
    assert_eq!(children[0].name, "app");
    assert_eq!(children[0].source, "../app");
    assert_eq!(children[0].path, vec!["outer".to_string(), "inner".to_string(), "app".to_string()]);
    assert_eq!(text(attr_get(&children[0].inputs, "region")), Some("westeurope".to_string()));
}

#[test]
fn module_sources_and_depth() {
    assert!(is_local_source("./modules/net"));
    assert!(is_local_source("../shared"));
    assert!(!is_local_source("hashicorp/consul/aws"));
    assert!(!is_local_source(".terraform"));
    assert!(check_depth(MAX_MODULE_DEPTH, "/x").is_ok());
    match check_depth(17, "/deep") {
        Err(e) => assert_eq!(e.message(), "failed to parse HCL: module nesting depth exceeded 16 at /deep"),
        Ok(()) => panic!("expected an error"),
    }
}

#[test]
fn roots_exclude_called_modules() {
    let candidates = vec!["/r".to_string(), "/r/modules/net".to_string(), "/other".to_string()];
    let children = vec!["/r/modules/net".to_string()];
    assert_eq!(select_roots(&candidates, &children), vec!["/r".to_string(), "/other".to_string()]);
    assert!(select_roots(&vec![], &children).is_empty());
    assert!(is_hidden(".git"));
    assert!(!is_hidden("modules"));
}

#[test]
fn modules_are_not_entered_inside_themselves() {
    let mut visited: Vec<String> = Vec::new();
    assert!(enter_module(&mut visited, "/root"));
    assert!(enter_module(&mut visited, "/root/modules/net"));
    assert!(!enter_module(&mut visited, "/root"));
    assert_eq!(visited.len(), 2);
    leave_module(&mut visited, "/root/modules/net");
    assert_eq!(visited, vec!["/root".to_string()]);
    assert!(enter_module(&mut visited, "/root/modules/net"));
    leave_module(&mut visited, "/absent");
    assert_eq!(visited.len(), 2);
}

fn tf_file(resources: &[&str], calls: &[(&str, &str)]) -> ParseResult {
    ParseResult {
        resources: resources
            .iter()
            .map(|n| TfResource { address: ResourceAddress::new(ResourceKind::new(Cloud::Aws, "aws_instance"), n), attributes: vec![] })
            .collect(),
        modules: calls.iter().map(|(n, s)| TfModule { name: n.to_string(), source: s.to_string(), inputs: vec![] }).collect(),
        locals: vec![],
        variable_defaults: vec![],
    }
}

fn module_dir(path: &str, files: Vec<ParseResult>, sources: &[(&str, Option<usize>)]) -> ModuleDir {
    ModuleDir {
        path: path.to_string(),
        is_dir: true,
        files: Some(files),
        sources: sources.iter().map(|(s, t)| ModuleSource { source: s.to_string(), target: *t }).collect(),
    }
}

fn keys(state: &State) -> Vec<String> {
    state.resources.iter().map(|e| e.key.clone()).collect()
}

#[test]
fn a_module_calling_its_caller_is_skipped() {
    let dirs = vec![
        module_dir("/root", vec![tf_file(&["a"], &[("child", "./child")])], &[("./child", Some(1))]),
        module_dir("/root/child", vec![tf_file(&["b"], &[("back", "../")])], &[("../", Some(0))]),
    ];
    let state = load_tree(&dirs, 0).unwrap();
    assert_eq!(keys(&state), vec!["aws_instance.a", "module.child.aws_instance.b"]);
}

#[test]
fn sibling_modules_may_share_a_directory() {
    let dirs = vec![
        module_dir("/root", vec![tf_file(&[], &[("x", "./m"), ("y", "./m")])], &[("./m", Some(1))]),
        module_dir("/root/m", vec![tf_file(&["b"], &[])], &[]),
    ];
    let state = load_tree(&dirs, 0).unwrap();
    assert_eq!(keys(&state), vec!["module.x.aws_instance.b", "module.y.aws_instance.b"]);
}

#[test]
fn unresolved_and_remote_sources_are_passed_over() {
    let dirs = vec![module_dir(
        "/root",
        vec![tf_file(&["a"], &[("gone", "./gone"), ("vpc", "terraform-aws-modules/vpc/aws")])],
        &[("./gone", None)],
    )];
    let state = load_tree(&dirs, 0).unwrap();
    assert_eq!(keys(&state), vec!["aws_instance.a"]);
}

#[test]
fn tree_load_errors_name_the_directory() {
    let mut file_target = vec![
        module_dir("/root", vec![tf_file(&["a"], &[("f", "./f")])], &[("./f", Some(1))]),
        module_dir("/root/f", vec![], &[]),
    ];
    file_target[1].is_dir = false;
    assert!(matches!(load_tree(&file_target, 0), Err(LoadError::NotADirectory(1))));
    let mut unreadable = vec![
        module_dir("/root", vec![tf_file(&["a"], &[("u", "./u")])], &[("./u", Some(1))]),
        module_dir("/root/u", vec![], &[]),
    ];
    unreadable[1].files = None;
    assert!(matches!(load_tree(&unreadable, 0), Err(LoadError::Unreadable(1))));
}

#[test]
fn tree_nesting_deeper_than_the_limit_fails() {
    let mut dirs = Vec::new();
    for i in 0..20 {
        let source = format!("./m{}", i + 1);
        dirs.push(module_dir(&format!("/d{i}"), vec![tf_file(&[], &[("m", &source)])], &[(&source, Some(i + 1))]));
    }
    dirs.push(module_dir("/d20", vec![], &[]));
    match load_tree(&dirs, 0) {
        Err(LoadError::Failed(e)) => assert_eq!(e.message(), "failed to parse HCL: module nesting depth exceeded 16 at /d17"),
        other => panic!("unexpected {:?}", other.map(|s| s.resources.len())),
    }
}
