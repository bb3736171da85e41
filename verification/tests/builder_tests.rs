use builder_gen::manifest::{CargoToml, Package, Workspace};
use builder_gen::runtime::{FieldSchema, RecordBuilder};

fn required(name: &str) -> FieldSchema {
    FieldSchema { name: name.to_string(), required: true }
}

fn optional(name: &str) -> FieldSchema {
    FieldSchema { name: name.to_string(), required: false }
}

#[test]
fn fresh_all_required_reports_first_field() {
    let mut b: RecordBuilder<String> = RecordBuilder::new(vec![required("alpha"), required("beta")]);
    let r = b.build();
    let e = r.expect_err("a fresh builder over required fields must fail");
    assert_eq!(e.field, "alpha");
    assert_eq!(e.message(), "alpha is not set");
}

#[test]
fn first_unset_required_field_is_reported() {
    let mut b: RecordBuilder<String> = RecordBuilder::new(vec![required("alpha"), required("beta")]);
    b.set(0, "a".to_string());
    let r = b.build();
    let e = r.expect_err("beta was never set");
    assert_eq!(e.field, "beta");
}

#[test]
fn unset_optional_field_comes_out_absent() {
    let mut b: RecordBuilder<String> = RecordBuilder::new(vec![optional("nick"), required("name")]);
    b.set(1, "x".to_string());
    let vals = b.build().expect("every required field was set");
    assert_eq!(vals[0], None);
    assert_eq!(vals[1], Some("x".to_string()));
}

#[test]
fn setter_overwrites_previous_value() {
    let mut b: RecordBuilder<String> = RecordBuilder::new(vec![required("name")]);
    b.set(0, "first".to_string());
    b.set(0, "second".to_string());
    let vals = b.build().expect("the field was set");
    assert_eq!(vals[0], Some("second".to_string()));
}

#[test]
fn rebuild_after_drain_fails_on_required_fields() {
    let mut b: RecordBuilder<String> = RecordBuilder::new(vec![required("name"), optional("nick")]);
    b.set(0, "x".to_string());
    b.set(1, "y".to_string());
    let vals = b.build().expect("the required field was set");
    assert_eq!(vals[0], Some("x".to_string()));
    assert_eq!(vals[1], Some("y".to_string()));
    let again = b.build();
    let e = again.expect_err("the first build drained every slot");
    assert_eq!(e.field, "name");
}

#[test]
fn failed_build_clears_taken_slots_only() {
    let mut b: RecordBuilder<String> = RecordBuilder::new(vec![
        optional("nick"),
        required("name"),
        optional("note"),
    ]);
    b.set(0, "n".to_string());
    b.set(2, "kept".to_string());
    let e = b.build().expect_err("name was never set");
    assert_eq!(e.field, "name");
    // Slots up to and including the offending one were taken; the rest stand.
    b.set(1, "now".to_string());
    let vals = b.build().expect("name is set this time");
    assert_eq!(vals[0], None);
    assert_eq!(vals[1], Some("now".to_string()));
    assert_eq!(vals[2], Some("kept".to_string()));
}

#[test]
fn package_builder_unset_name_is_absent() {
    let mut b = Package::builder();
    let p = b.build();
    assert_eq!(p.name, None);
}

#[test]
fn required_name_unset_fails_by_name() {
    let mut b: RecordBuilder<String> = RecordBuilder::new(vec![required("name")]);
    let e = b.build().expect_err("name was never set");
    assert_eq!(e.field, "name");
    assert_eq!(e.message(), "name is not set");
}

#[test]
fn required_name_set_builds_record() {
    let mut b: RecordBuilder<String> = RecordBuilder::new(vec![required("name")]);
    b.set(0, "x".to_string());
    let vals = b.build().expect("name was set");
    assert_eq!(vals[0], Some("x".to_string()));
}

#[test]
fn workspace_builder_unset_members_fails_by_name() {
    let mut b = Workspace::builder();
    let e = b.build().expect_err("members was never set");
    assert_eq!(e.field, "members");
    assert_eq!(e.message(), "members is not set");
}

#[test]
fn workspace_builder_chained_build_succeeds() {
    let w = Workspace::builder()
        .members(vec!["core".to_string(), "cli".to_string()])
        .build()
        .expect("members was set");
    assert_eq!(w.members, vec!["core".to_string(), "cli".to_string()]);
}

#[test]
fn package_builder_setter_overwrites() {
    let mut b = Package::builder();
    b.name("first".to_string());
    b.name("second".to_string());
    let p = b.build();
    assert_eq!(p.name, Some("second".to_string()));
}

#[test]
fn package_builder_drains_on_build() {
    let mut b = Package::builder();
    b.name("x".to_string());
    let first = b.build();
    assert_eq!(first.name, Some("x".to_string()));
    let second = b.build();
    assert_eq!(second.name, None);
}

#[test]
fn nested_manifest_with_one_section_set() {
    let mut pb = Package::builder();
    pb.name("demo".to_string());
    let package = pb.build();

    let mut cb = CargoToml::builder();
    cb.package(package);
    let manifest = cb.build();

    assert_eq!(manifest.workspace, None);
    assert_eq!(manifest.package, Some(Package { name: Some("demo".to_string()) }));
}

#[test]
fn manifest_builder_chains_both_sections() {
    let manifest = CargoToml::builder()
        .package(Package { name: Some("demo".to_string()) })
        .workspace(Workspace { members: vec!["core".to_string()] })
        .build();
    assert_eq!(manifest.package, Some(Package { name: Some("demo".to_string()) }));
    assert_eq!(manifest.workspace, Some(Workspace { members: vec!["core".to_string()] }));
}

#[test]
fn defaults_are_empty() {
    assert_eq!(CargoToml::default(), CargoToml { package: None, workspace: None });
    assert_eq!(Package::default(), Package { name: None });
    assert_eq!(Workspace::default(), Workspace { members: Vec::new() });
}
