use obamify::naming::bump_version_name;
use obamify::settings::GenerationSettings;

#[test]
fn copies_count_versions_up() {
    let mut s = GenerationSettings::default(uuid::Uuid::new_v4(), "foo v9".to_string());
    s.proximity_importance = 20;
    let a = s.clone_with_new_id();
    assert_eq!(a.name, "foo v10");
    assert_ne!(a.id, s.id);
    assert_eq!(a.proximity_importance, 20);
    let b = a.clone_with_new_id();
    assert_eq!(b.name, "foo v11");
    assert_ne!(b.id, a.id);
}

#[test]
fn unversioned_name_gets_two_then_three() {
    let s = GenerationSettings::default(uuid::Uuid::new_v4(), "pic".to_string());
    let a = s.clone_with_new_id();
    assert_eq!(a.name, "pic v2");
    assert_eq!(a.clone_with_new_id().name, "pic v3");
}

#[test]
fn version_suffix_edge_cases() {
    assert_eq!(bump_version_name(""), " v2");
    assert_eq!(bump_version_name("a v"), "a v v2");
    assert_eq!(bump_version_name("a vx"), "a vx v2");
    assert_eq!(bump_version_name("x v+5"), "x v+5 v2");
    assert_eq!(bump_version_name("x v-5"), "x v-5 v2");
    assert_eq!(bump_version_name("x v 5"), "x v 5 v2");
    assert_eq!(bump_version_name("x v07"), "x v8");
    assert_eq!(bump_version_name("a v1 b v3"), "a v1 b v4");
    assert_eq!(bump_version_name("x v4294967295"), "x v4294967296");
    assert_eq!(bump_version_name("x v4294967296"), "x v4294967297");
    assert_eq!(bump_version_name("x v99999999999999999999999"), "x v100000000000000000000000");
    assert_eq!(bump_version_name("x v99"), "x v100");
    assert_eq!(bump_version_name("x v0"), "x v1");
    assert_eq!(bump_version_name("x v000"), "x v1");
    assert_eq!(bump_version_name("x v109"), "x v110");
    assert_eq!(bump_version_name("héllo v1"), "héllo v2");
}
