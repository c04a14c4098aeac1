use rdkafka_src::{source_dir, Build};

#[test]
fn source_dir_names_vendored_tree() {
    assert_eq!(source_dir(), "librdkafka");
}

#[test]
fn workspace_paths_are_derived_from_root_and_version() {
    let b = Build::new("/tmp/out", "2.6");
    assert_eq!(b.build_dir().as_str(), "/tmp/out/librdkafka-build/2.6");
    assert_eq!(b.install_dir().as_str(), "/tmp/out/librdkafka/2.6");
}

#[test]
fn workspace_paths_are_deterministic() {
    let b1 = Build::new("/tmp/out", "2.6");
    let b2 = Build::new("/tmp/out", "2.6");
    assert_eq!(b1.build_dir(), b2.build_dir());
    assert_eq!(b1.install_dir(), b2.install_dir());
    let a1 = b1.artifacts();
    let a2 = b2.artifacts();
    assert_eq!(a1, a2);
}

#[test]
fn distinct_versions_use_distinct_workspaces() {
    let b1 = Build::new("/tmp/out", "2.6");
    let b2 = Build::new("/tmp/out", "2.7");
    assert_ne!(b1.build_dir(), b2.build_dir());
    assert_ne!(b1.install_dir(), b2.install_dir());
}

#[test]
fn artifact_paths_are_derived_from_install_dir() {
    let b = Build::new("/tmp/out", "2.6");
    let art = b.artifacts();
    assert_eq!(art.install_dir, "/tmp/out/librdkafka/2.6");
    assert_eq!(art.include_dir, "/tmp/out/librdkafka/2.6/include");
    assert_eq!(art.lib_dir, "/tmp/out/librdkafka/2.6/lib");
}

#[test]
fn source_dir_override_is_kept() {
    let b = Build::new("/tmp/out", "2.6").source_dir(String::from("/srv/vendored/librdkafka"));
    // After the two resets, the pipeline stages from the overridden tree.
    let ok = || rdkafka_src::pipeline::Event::Succeeded { output: Vec::new() };
    let (s1, _) = b.start();
    let (s2, _) = b.step(s1, ok(), 4);
    let (_, action) = b.step(s2, ok(), 4);
    match action {
        rdkafka_src::pipeline::Action::StageTree { src, dst } => {
            assert_eq!(src, "/srv/vendored/librdkafka");
            assert_eq!(dst, "/tmp/out/librdkafka-build/2.6");
        }
        other => panic!("expected the staging action, got {:?}", other),
    }
}
