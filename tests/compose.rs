use libcnb::compose::{compose, BuildLayers, DuplicateLayerError, LayerEnv};
use libcnb::env::{Env, EnvModification, Operation, Scope, Stage};
use libcnb::identifier::LayerName;

fn modification(variable: &str, operation: Operation, delimiter: Option<&str>, value: &str, scope: Scope) -> EnvModification {
    EnvModification {
        variable: String::from(variable),
        operation,
        delimiter: delimiter.map(String::from),
        value: String::from(value),
        scope,
    }
}

fn layer(mods: Vec<EnvModification>) -> LayerEnv {
    let mut l = LayerEnv::new();
    for m in mods {
        l.push(m);
    }
    l
}

fn base_with(variable: &str, value: &str) -> Env {
    let mut e = Env::new();
    e.insert(String::from(variable), String::from(value));
    e
}

fn value_of(e: &Env, variable: &str) -> Option<String> {
    e.get(&String::from(variable)).cloned()
}

#[test]
fn appends_follow_declared_layer_order() {
    let base = base_with("PATH", "/usr/bin");
    let a = || layer(vec![modification("PATH", Operation::Append, None, ":/a/bin", Scope::All)]);
    let b = || layer(vec![modification("PATH", Operation::Append, None, ":/b/bin", Scope::All)]);
    let ab = compose(&base, &vec![a(), b()], Stage::Build);
    assert_eq!(value_of(&ab, "PATH").as_deref(), Some("/usr/bin:/a/bin:/b/bin"));
    let ba = compose(&base, &vec![b(), a()], Stage::Build);
    assert_eq!(value_of(&ba, "PATH").as_deref(), Some("/usr/bin:/b/bin:/a/bin"));
    assert_eq!(value_of(&base, "PATH").as_deref(), Some("/usr/bin"));
}

#[test]
fn override_resets_earlier_accumulation() {
    let base = base_with("X", "start");
    let layers = vec![
        layer(vec![modification("X", Operation::Append, Some(":"), "early", Scope::All)]),
        layer(vec![modification("X", Operation::Override, None, "val1", Scope::All)]),
        layer(vec![modification("X", Operation::Append, Some(":"), "val2", Scope::All)]),
    ];
    let e = compose(&base, &layers, Stage::Launch);
    assert_eq!(value_of(&e, "X").as_deref(), Some("val1:val2"));
}

#[test]
fn default_sets_only_unset_variables() {
    let base = base_with("SET", "kept");
    let layers = vec![layer(vec![
        modification("SET", Operation::Default, None, "ignored", Scope::All),
        modification("UNSET", Operation::Default, None, "fresh", Scope::All),
    ])];
    let e = compose(&base, &layers, Stage::Build);
    assert_eq!(value_of(&e, "SET").as_deref(), Some("kept"));
    assert_eq!(value_of(&e, "UNSET").as_deref(), Some("fresh"));
    assert_eq!(e.len(), 2);
    let (k, v) = e.entry_at(1);
    assert_eq!((k.as_str(), v.as_str()), ("UNSET", "fresh"));
}

#[test]
fn prepend_uses_delimiter_and_unset_takes_value() {
    let base = base_with("PATH", "/usr/bin");
    let layers = vec![layer(vec![
        modification("PATH", Operation::Prepend, Some(":"), "/layer/bin", Scope::All),
        modification("NEW", Operation::Prepend, Some(":"), "/only", Scope::All),
        modification("NEW", Operation::Append, None, "tail", Scope::All),
    ])];
    let e = compose(&base, &layers, Stage::Build);
    assert_eq!(value_of(&e, "PATH").as_deref(), Some("/layer/bin:/usr/bin"));
    assert_eq!(value_of(&e, "NEW").as_deref(), Some("/onlytail"));
}

#[test]
fn stage_selects_modifications() {
    let base = Env::new();
    let layers = vec![layer(vec![
        modification("B", Operation::Override, None, "build", Scope::Build),
        modification("L", Operation::Override, None, "launch", Scope::Launch),
        modification("A", Operation::Override, None, "all", Scope::All),
    ])];
    let build = compose(&base, &layers, Stage::Build);
    assert_eq!(value_of(&build, "B").as_deref(), Some("build"));
    assert_eq!(value_of(&build, "L"), None);
    assert_eq!(value_of(&build, "A").as_deref(), Some("all"));
    let launch = compose(&base, &layers, Stage::Launch);
    assert_eq!(value_of(&launch, "B"), None);
    assert_eq!(value_of(&launch, "L").as_deref(), Some("launch"));
    assert_eq!(launch.len(), 2);
}

#[test]
fn compose_is_repeatable() {
    let base = base_with("PATH", "/usr/bin");
    let layers = vec![layer(vec![modification("PATH", Operation::Append, Some(":"), "/x", Scope::All)])];
    let first = compose(&base, &layers, Stage::Build);
    let second = compose(&base, &layers, Stage::Build);
    assert_eq!(value_of(&first, "PATH"), value_of(&second, "PATH"));
    assert_eq!(first.len(), second.len());
}

#[test]
fn apply_leaves_original_untouched() {
    let base = base_with("X", "a");
    let m = modification("X", Operation::Append, Some(","), "b", Scope::All);
    let next = base.apply(&m);
    assert_eq!(value_of(&next, "X").as_deref(), Some("a,b"));
    assert_eq!(value_of(&base, "X").as_deref(), Some("a"));
}

#[test]
fn insert_replaces_in_place() {
    let mut e = Env::new();
    e.insert(String::from("A"), String::from("1"));
    e.insert(String::from("B"), String::from("2"));
    e.insert(String::from("A"), String::from("3"));
    assert_eq!(e.len(), 2);
    let (k, v) = e.entry_at(0);
    assert_eq!((k.as_str(), v.as_str()), ("A", "3"));
}

#[test]
fn build_layers_refuse_duplicate_names() {
    let mut layers = BuildLayers::new();
    let ruby = LayerName::parse("ruby").unwrap();
    assert_eq!(layers.declare(ruby.clone(), LayerEnv::new()), Ok(()));
    let bundler = LayerName::parse("bundler").unwrap();
    let env = layer(vec![modification("GEM_HOME", Operation::Override, None, "/layers/bundler", Scope::All)]);
    assert_eq!(layers.declare(bundler, env), Ok(()));
    assert_eq!(
        layers.declare(ruby, LayerEnv::new()),
        Err(DuplicateLayerError { name: String::from("ruby") })
    );
    assert_eq!(layers.names.len(), 2);
    let e = layers.environment(&Env::new(), Stage::Launch);
    assert_eq!(value_of(&e, "GEM_HOME").as_deref(), Some("/layers/bundler"));
}

#[test]
fn declared_layers_are_known() {
    let mut layers = BuildLayers::new();
    let ruby = LayerName::parse("ruby").unwrap();
    assert!(!layers.is_declared(&ruby));
    assert_eq!(layers.declare(ruby.clone(), LayerEnv::new()), Ok(()));
    assert!(layers.is_declared(&ruby));
}
