use builder_gen::runtime::RecordBuilder;
use builder_gen::schema::{analyze, FieldSpec, StructDecl, StructFields};
use builder_gen::synth::{synthesize, BuilderDef};

fn option_of(inner: &str) -> builder_gen::type_expr::TypeExpr {
    builder_gen::type_expr::TypeExpr::Generic {
        head: "Option".to_string(),
        args: vec![builder_gen::type_expr::GenericArg::TypeArg(inner.to_string())],
    }
}

fn text(t: &str) -> builder_gen::type_expr::TypeExpr {
    builder_gen::type_expr::TypeExpr::Text(t.to_string())
}

fn demo_def() -> BuilderDef {
    let decl = StructDecl {
        name: "Record".to_string(),
        fields: StructFields::Named(vec![
            FieldSpec { name: "id".to_string(), declared_type: text("u64") },
            FieldSpec { name: "nick".to_string(), declared_type: option_of("String") },
        ]),
    };
    synthesize(analyze(decl).expect("named fields"))
}

#[test]
fn builder_name_appends_builder() {
    let def = demo_def();
    assert_eq!(def.record_name, "Record");
    assert_eq!(def.builder_name, "RecordBuilder");
}

#[test]
fn required_slot_is_option_wrapped() {
    let def = demo_def();
    assert_eq!(def.slots[0].name, "id");
    assert_eq!(def.slots[0].slot_type.render(), "Option<u64>");
    assert_eq!(def.slots[0].render(), "id: Option<u64>");
}

#[test]
fn optional_slot_keeps_declared_type() {
    let def = demo_def();
    assert_eq!(def.slots[1].name, "nick");
    assert_eq!(def.slots[1].slot_type.render(), "Option<String>");
    assert_eq!(def.slots[1].render(), "nick: Option<String>");
}

#[test]
fn every_slot_initializes_empty() {
    let def = demo_def();
    assert_eq!(def.slots[0].render_init(), "id: None");
    assert_eq!(def.slots[1].render_init(), "nick: None");
}

#[test]
fn setter_takes_declared_type_when_required() {
    let def = demo_def();
    assert_eq!(def.setters[0].param_type.render(), "u64");
    assert_eq!(
        def.setters[0].render(),
        "pub fn id(&mut self, id: u64) -> &mut Self { self.id = Some(id); self }"
    );
}

#[test]
fn setter_takes_inner_type_when_optional() {
    let def = demo_def();
    assert_eq!(def.setters[1].param_type.render(), "String");
    assert_eq!(
        def.setters[1].render(),
        "pub fn nick(&mut self, nick: String) -> &mut Self { self.nick = Some(nick); self }"
    );
}

#[test]
fn build_step_demands_required_field_by_name() {
    let def = demo_def();
    assert!(def.build_steps[0].required);
    assert_eq!(
        def.build_steps[0].render(),
        "id: self.id.take().expect(\"id is not set\")"
    );
}

#[test]
fn build_step_takes_optional_field_as_it_stands() {
    let def = demo_def();
    assert!(!def.build_steps[1].required);
    assert_eq!(def.build_steps[1].render(), "nick: self.nick.take()");
}

#[test]
fn storage_and_factory_render_whole_declarations() {
    let def = demo_def();
    assert_eq!(
        def.render_storage(),
        "pub struct RecordBuilder { id: Option<u64>, nick: Option<String> }"
    );
    assert_eq!(
        def.render_factory(),
        "impl Record { pub fn builder() -> RecordBuilder { RecordBuilder { id: None, nick: None } } }"
    );
}

#[test]
fn full_render_of_single_required_field() {
    let decl = StructDecl {
        name: "S".to_string(),
        fields: StructFields::Named(vec![FieldSpec {
            name: "name".to_string(),
            declared_type: text("String"),
        }]),
    };
    let def = synthesize(analyze(decl).expect("named fields"));
    let expected = "impl S { pub fn builder() -> SBuilder { SBuilder { name: None } } } \
pub struct SBuilder { name: Option<String> } \
impl SBuilder { \
pub fn name(&mut self, name: String) -> &mut Self { self.name = Some(name); self } \
pub fn build(&mut self) -> S { S { name: self.name.take().expect(\"name is not set\") } } }";
    assert_eq!(def.render(), expected);
}

#[test]
fn zero_field_named_struct_synthesizes_empty_builder() {
    let decl = StructDecl {
        name: "Empty".to_string(),
        fields: StructFields::Named(Vec::new()),
    };
    let def = synthesize(analyze(decl).expect("named fields, even none, are supported"));
    assert_eq!(def.builder_name, "EmptyBuilder");
    assert_eq!(def.slots.len(), 0);
    assert_eq!(def.setters.len(), 0);
    assert_eq!(def.build_steps.len(), 0);
}

#[test]
fn empty_schema_builds_empty_record() {
    let mut b: RecordBuilder<String> = RecordBuilder::new(Vec::new());
    let vals = b.build().expect("nothing is required");
    assert_eq!(vals.len(), 0);
}

#[test]
fn synthesized_schema_drives_the_runtime_model() {
    let def = demo_def();
    let schema = def.runtime_schema();
    let mut b: RecordBuilder<String> = RecordBuilder::new(schema);
    let e = b.build().expect_err("id was never set");
    assert_eq!(e.field, "id");
    b.set(0, "7".to_string());
    let vals = b.build().expect("id is set now");
    assert_eq!(vals[0], Some("7".to_string()));
    assert_eq!(vals[1], None);
}
