use libcnb::identifier::{LayerName, LayerNameError};
use libcnb::layer::{decide, sidecar_file_name, LayerContentMetadata, LayerDecision, LayerTypes};

fn content(metadata: &str, launch: bool) -> LayerContentMetadata {
    LayerContentMetadata {
        types: LayerTypes { build: true, launch, cache: true },
        metadata: String::from(metadata),
    }
}

#[test]
fn identical_metadata_reuses_layer() {
    let cached = content("version = \"3.1\"\n", true);
    let candidate = content("version = \"3.1\"\n", true);
    assert_eq!(decide(Some(&cached), true, &candidate, false), LayerDecision::Reuse);
}

#[test]
fn changed_metadata_rebuilds_layer() {
    let cached = content("version = \"3.1\"\n", true);
    let candidate = content("version = \"3.2\"\n", true);
    assert_eq!(decide(Some(&cached), true, &candidate, false), LayerDecision::Rebuild);
}

#[test]
fn changed_types_rebuild_layer() {
    let cached = content("v = 1\n", true);
    let candidate = content("v = 1\n", false);
    assert_eq!(decide(Some(&cached), true, &candidate, false), LayerDecision::Rebuild);
}

#[test]
fn missing_cache_rebuilds_layer() {
    let candidate = content("v = 1\n", true);
    let cached = content("v = 1\n", true);
    assert_eq!(decide(None, true, &candidate, false), LayerDecision::Rebuild);
    assert_eq!(decide(Some(&cached), false, &candidate, false), LayerDecision::Rebuild);
    assert_eq!(decide(None, false, &candidate, false), LayerDecision::Rebuild);
}

#[test]
fn forced_rebuild_ignores_cache() {
    let cached = content("v = 1\n", true);
    let candidate = content("v = 1\n", true);
    assert_eq!(decide(Some(&cached), true, &candidate, true), LayerDecision::Rebuild);
}

#[test]
fn sidecar_sits_beside_layer() {
    let name = LayerName::parse("ruby").unwrap();
    assert_eq!(sidecar_file_name(&name), "ruby.toml");
}

#[test]
fn layer_name_rejects_separators() {
    assert_eq!(LayerName::parse("a/b"), Err(LayerNameError::InvalidValue(String::from("a/b"))));
    assert_eq!(LayerName::parse("x.y-z_1").map(|n| String::from(n.as_str())), Ok(String::from("x.y-z_1")));
}

use libcnb::layer::{resolve_step, ResolveAction, ResolveEvent, ResolvePhase};

#[test]
fn resolution_reuses_matching_cache() {
    let candidate = content("v = 1\n", true);
    let event = ResolveEvent::Observed { sidecar: Some(content("v = 1\n", true)), directory_exists: true };
    assert_eq!(
        resolve_step(ResolvePhase::Observe, &event, &candidate, false),
        (ResolvePhase::Reused, ResolveAction::Finish)
    );
}

#[test]
fn resolution_rebuilds_in_order() {
    let candidate = content("v = 2\n", true);
    let event = ResolveEvent::Observed { sidecar: Some(content("v = 1\n", true)), directory_exists: true };
    let (phase, action) = resolve_step(ResolvePhase::Observe, &event, &candidate, false);
    assert_eq!((phase, action), (ResolvePhase::Clear, ResolveAction::RemoveLayer));
    let (phase, action) = resolve_step(phase, &ResolveEvent::Completed, &candidate, false);
    assert_eq!((phase, action), (ResolvePhase::Populate, ResolveAction::CreateAndPopulate));
    let (phase, action) = resolve_step(phase, &ResolveEvent::Completed, &candidate, false);
    assert_eq!((phase, action), (ResolvePhase::Persist, ResolveAction::WriteSidecar));
    let (phase, action) = resolve_step(phase, &ResolveEvent::Completed, &candidate, false);
    assert_eq!((phase, action), (ResolvePhase::Rebuilt, ResolveAction::Finish));
}

#[test]
fn failed_population_removes_directory() {
    let candidate = content("v = 2\n", true);
    let (phase, action) = resolve_step(ResolvePhase::Populate, &ResolveEvent::AuthorFailed, &candidate, false);
    assert_eq!((phase, action), (ResolvePhase::Cleanup, ResolveAction::RemoveDirectory));
    let (phase, action) = resolve_step(phase, &ResolveEvent::Completed, &candidate, false);
    assert_eq!((phase, action), (ResolvePhase::Failed, ResolveAction::Abort));
    assert_eq!(
        resolve_step(ResolvePhase::Clear, &ResolveEvent::IoFailed, &candidate, false),
        (ResolvePhase::Failed, ResolveAction::Abort)
    );
}
