//! The code synthesizer.
//!
//! From an analyzed schema it derives the builder definition: the builder
//! type's name, one storage slot per field (the declared type unchanged when
//! the field is optional, an optional-wrapped version of it otherwise), one
//! setter per field (whose parameter is the wrapped inner type when optional,
//! the declared type otherwise), and one finalizer step per field (which
//! takes the slot as it stands when optional, and demands a present value by
//! name otherwise). Each derived artifact can be rendered to source text.

use vstd::prelude::*;
use crate::runtime::FieldSchema;
use crate::schema::{AnnotatedFieldSpec, StructSpec};
use crate::type_expr::{
    GenericArg, GenericArgModel, TypeExpr, TypeExprModel, option_inner_type, render_type_model,
};

verus! {

/// The declared storage for one field of the builder.
#[derive(Debug, Clone, PartialEq, Eq)]
pub struct SlotDef {
    pub name: String,
    pub slot_type: TypeExpr,
}

/// The setter for one field of the builder.
#[derive(Debug, Clone, PartialEq, Eq)]
pub struct SetterDef {
    pub name: String,
    pub param_type: TypeExpr,
}

/// What the finalizer does for one field: take the slot, and when the field
/// is required, fail by name on an empty slot.
#[derive(Debug, Clone, PartialEq, Eq)]
pub struct BuildStep {
    pub name: String,
    pub required: bool,
}

/// The full builder definition synthesized for one record schema.
#[derive(Debug, Clone, PartialEq, Eq)]
pub struct BuilderDef {
    pub record_name: String,
    pub builder_name: String,
    pub slots: Vec<SlotDef>,
    pub setters: Vec<SetterDef>,
    pub build_steps: Vec<BuildStep>,
}

/// The declared type wrapped in the recognized optional wrapper, the wrapped
/// type carried as its rendered text.
pub open spec fn option_wrapped(t: TypeExprModel) -> TypeExprModel {
    TypeExprModel::Generic {
        head: "Option"@,
        args: seq![GenericArgModel::TypeArg(render_type_model(t))],
    }
}

/// The storage slot type for a field: the declared type unchanged when the
/// field is optional, an optional-wrapped version of it otherwise.
pub open spec fn slot_type_for(f: AnnotatedFieldSpec) -> TypeExprModel {
    if f.is_optional {
        f.declared_type@
    } else {
        option_wrapped(f.declared_type@)
    }
}

/// The setter parameter type for a field: the wrapped inner type when the
/// field is optional, the declared type otherwise.
pub open spec fn setter_param_for(f: AnnotatedFieldSpec) -> TypeExprModel {
    if f.is_optional {
        option_inner_type(f.declared_type@)
    } else {
        f.declared_type@
    }
}

/// The three synthesized artifacts for one field say exactly what the
/// annotated field prescribes.
pub open spec fn synthesizes_field(
    slot: SlotDef,
    setter: SetterDef,
    step: BuildStep,
    f: AnnotatedFieldSpec,
) -> bool {
    &&& slot.name@ == f.name@
    &&& slot.slot_type@ == slot_type_for(f)
    &&& setter.name@ == f.name@
    &&& setter.param_type@ == setter_param_for(f)
    &&& step.name@ == f.name@
    &&& step.required == !f.is_optional
}

/// Wraps a declared type in the recognized optional wrapper.
fn wrap_in_option(t: &TypeExpr) -> (r: TypeExpr)
    ensures
        r@ == option_wrapped(t@),
{
    let text = t.render();
    let mut args: Vec<GenericArg> = Vec::new();
    args.push(GenericArg::TypeArg(text));
    let r = TypeExpr::Generic { head: String::from_str("Option"), args };
    proof {
        assert(r@->Generic_args =~= option_wrapped(t@)->Generic_args);
    }
    r
}

/// Synthesizes the builder definition for an analyzed schema: the builder's
/// name is the record's name followed by `Builder`, and every field yields
/// its slot, its setter and its finalizer step, in declared order.
pub fn synthesize(sp: StructSpec) -> (b: BuilderDef)
    requires
        sp.wf(),
    ensures
        b.record_name == sp.name,
        b.builder_name@ == sp.name@ + "Builder"@,
        b.slots@.len() == sp.fields@.len(),
        b.setters@.len() == sp.fields@.len(),
        b.build_steps@.len() == sp.fields@.len(),
        forall|i: int|
            0 <= i < sp.fields@.len() ==> synthesizes_field(
                #[trigger] b.slots@[i],
                b.setters@[i],
                b.build_steps@[i],
                sp.fields@[i],
            ),
{
    let builder_name = sp.name.clone().concat("Builder");
    let ghost orig = sp.fields@;
    let mut rest = sp.fields;
    let mut slots: Vec<SlotDef> = Vec::new();
    let mut setters: Vec<SetterDef> = Vec::new();
    let mut build_steps: Vec<BuildStep> = Vec::new();
    while rest.len() > 0
        invariant
            slots@.len() + rest@.len() == orig.len(),
            setters@.len() == slots@.len(),
            build_steps@.len() == slots@.len(),
            rest@ == orig.skip(slots@.len() as int),
            forall|i: int| 0 <= i < orig.len() ==> (#[trigger] orig[i]).wf(),
            forall|i: int|
                0 <= i < slots@.len() ==> synthesizes_field(
                    #[trigger] slots@[i],
                    setters@[i],
                    build_steps@[i],
                    orig[i],
                ),
        decreases rest@.len(),
    {
        let f = rest.remove(0);
        let slot_name = f.name.clone();
        let step_name = f.name.clone();
        let required = !f.is_optional;
        if f.is_optional {
            let param = match f.inner_type {
                Some(inner) => inner,
                None => TypeExpr::Text(String::new()),  // unreachable: the schema is well-formed
            };
            slots.push(SlotDef { name: slot_name, slot_type: f.declared_type });
            setters.push(SetterDef { name: f.name, param_type: param });
        } else {
            let slot_type = wrap_in_option(&f.declared_type);
            slots.push(SlotDef { name: slot_name, slot_type });
            setters.push(SetterDef { name: f.name, param_type: f.declared_type });
        }
        build_steps.push(BuildStep { name: step_name, required });
        proof {
            assert(rest@ =~= orig.skip(slots@.len() as int));
        }
    }
    BuilderDef { record_name: sp.name, builder_name, slots, setters, build_steps }
}

/// Texts joined by a separator, in order.
pub open spec fn joined_with(items: Seq<Seq<char>>, sep: Seq<char>) -> Seq<char>
    decreases items.len(),
{
    if items.len() == 0 {
        Seq::empty()
    } else if items.len() == 1 {
        items[0]
    } else {
        joined_with(items.drop_last(), sep) + sep + items.last()
    }
}

/// Joins rendered pieces with a separator.
fn join_with(items: &Vec<String>, sep: &str) -> (r: String)
    ensures
        r@ == joined_with(items@.map_values(|s: String| s@), sep@),
{
    let ghost iv = items@.map_values(|s: String| s@);
    let mut r = String::new();
    let n = items.len();
    let mut i: usize = 0;
    while i < n
        invariant
            i <= n,
            n == items@.len(),
            iv == items@.map_values(|s: String| s@),
            r@ == joined_with(iv.take(i as int), sep@),
        decreases n - i,
    {
        if i > 0 {
            r.append(sep);
        }
        r.append(items[i].as_str());
        proof {
            assert(iv.take(i + 1).drop_last() =~= iv.take(i as int));
            assert(iv.take(i + 1).last() == iv[i as int]);
            assert(r@ =~= joined_with(iv.take(i + 1), sep@));
        }
        i = i + 1;
    }
    proof {
        assert(iv.take(n as int) =~= iv);
    }
    r
}

/// The storage declaration for one slot: `name: SlotType`.
pub open spec fn slot_decl_text(s: SlotDef) -> Seq<char> {
    s.name@ + ": "@ + render_type_model(s.slot_type@)
}

/// The initializer for one slot: `name: None`, required or not.
pub open spec fn init_text(name: Seq<char>) -> Seq<char> {
    name + ": None"@
}

/// One setter: named after the field, taking the setter parameter type,
/// storing the value as present and returning the builder for chaining.
pub open spec fn setter_text(s: SetterDef) -> Seq<char> {
    "pub fn "@ + s.name@ + "(&mut self, "@ + s.name@ + ": "@ + render_type_model(s.param_type@)
        + ") -> &mut Self { self."@ + s.name@ + " = Some("@ + s.name@ + "); self }"@
}

/// One finalizer step: take the slot, and when the field is required, demand
/// a present value with a message naming the field.
pub open spec fn build_step_text(s: BuildStep) -> Seq<char> {
    if s.required {
        s.name@ + ": self."@ + s.name@ + ".take().expect(\""@ + s.name@ + " is not set\")"@
    } else {
        s.name@ + ": self."@ + s.name@ + ".take()"@
    }
}

impl SlotDef {
    /// Renders this slot's storage declaration.
    pub fn render(&self) -> (r: String)
        ensures
            r@ == slot_decl_text(*self),
    {
        let ty = self.slot_type.render();
        let mut r = self.name.clone();
        r.append(": ");
        r.append(ty.as_str());
        r
    }

    /// Renders this slot's initializer.
    pub fn render_init(&self) -> (r: String)
        ensures
            r@ == init_text(self.name@),
    {
        let mut r = self.name.clone();
        r.append(": None");
        r
    }
}

impl SetterDef {
    /// Renders this setter method.
    pub fn render(&self) -> (r: String)
        ensures
            r@ == setter_text(*self),
    {
        let ty = self.param_type.render();
        let mut r = String::from_str("pub fn ");
        r.append(self.name.as_str());
        r.append("(&mut self, ");
        r.append(self.name.as_str());
        r.append(": ");
        r.append(ty.as_str());
        r.append(") -> &mut Self { self.");
        r.append(self.name.as_str());
        r.append(" = Some(");
        r.append(self.name.as_str());
        r.append("); self }");
        r
    }
}

impl BuildStep {
    /// Renders this finalizer step.
    pub fn render(&self) -> (r: String)
        ensures
            r@ == build_step_text(*self),
    {
        let mut r = self.name.clone();
        r.append(": self.");
        r.append(self.name.as_str());
        if self.required {
            r.append(".take().expect(\"");
            r.append(self.name.as_str());
            r.append(" is not set\")");
        } else {
            r.append(".take()");
        }
        r
    }
}

/// The builder type's storage layout: one slot per field.
pub open spec fn storage_decl_text(b: BuilderDef) -> Seq<char> {
    "pub struct "@ + b.builder_name@ + " { "@ + joined_with(
        b.slots@.map_values(|s: SlotDef| slot_decl_text(s)),
        ", "@,
    ) + " }"@
}

/// The record type's factory method: a fresh builder, every slot empty.
pub open spec fn factory_text(b: BuilderDef) -> Seq<char> {
    "impl "@ + b.record_name@ + " { pub fn builder() -> "@ + b.builder_name@ + " { "@
        + b.builder_name@ + " { "@ + joined_with(
        b.slots@.map_values(|s: SlotDef| init_text(s.name@)),
        ", "@,
    ) + " } } }"@
}

/// The builder's own impl block: every setter, then the finalizer.
pub open spec fn builder_impl_text(b: BuilderDef) -> Seq<char> {
    "impl "@ + b.builder_name@ + " { "@ + joined_with(
        b.setters@.map_values(|s: SetterDef| setter_text(s)),
        " "@,
    ) + " pub fn build(&mut self) -> "@ + b.record_name@ + " { "@ + b.record_name@ + " { "@
        + joined_with(b.build_steps@.map_values(|s: BuildStep| build_step_text(s)), ", "@)
        + " } } }"@
}

impl BuilderDef {
    /// Renders the builder type's storage layout.
    pub fn render_storage(&self) -> (r: String)
        ensures
            r@ == storage_decl_text(*self),
    {
        let mut pieces: Vec<String> = Vec::new();
        let n = self.slots.len();
        let mut i: usize = 0;
        while i < n
            invariant
                i <= n,
                n == self.slots@.len(),
                pieces@.len() == i,
                forall|k: int| 0 <= k < i ==> (#[trigger] pieces@[k])@ == slot_decl_text(
                    self.slots@[k],
                ),
            decreases n - i,
        {
            pieces.push(self.slots[i].render());
            i = i + 1;
        }
        proof {
            assert(pieces@.map_values(|s: String| s@) =~= self.slots@.map_values(
                |s: SlotDef| slot_decl_text(s),
            ));
        }
        let joined = join_with(&pieces, ", ");
        let mut r = String::from_str("pub struct ");
        r.append(self.builder_name.as_str());
        r.append(" { ");
        r.append(joined.as_str());
        r.append(" }");
        r
    }

    /// Renders the record type's factory method.
    pub fn render_factory(&self) -> (r: String)
        ensures
            r@ == factory_text(*self),
    {
        let mut pieces: Vec<String> = Vec::new();
        let n = self.slots.len();
        let mut i: usize = 0;
        while i < n
            invariant
                i <= n,
                n == self.slots@.len(),
                pieces@.len() == i,
                forall|k: int| 0 <= k < i ==> (#[trigger] pieces@[k])@ == init_text(
                    self.slots@[k].name@,
                ),
            decreases n - i,
        {
            pieces.push(self.slots[i].render_init());
            i = i + 1;
        }
        proof {
            assert(pieces@.map_values(|s: String| s@) =~= self.slots@.map_values(
                |s: SlotDef| init_text(s.name@),
            ));
        }
        let joined = join_with(&pieces, ", ");
        let mut r = String::from_str("impl ");
        r.append(self.record_name.as_str());
        r.append(" { pub fn builder() -> ");
        r.append(self.builder_name.as_str());
        r.append(" { ");
        r.append(self.builder_name.as_str());
        r.append(" { ");
        r.append(joined.as_str());
        r.append(" } } }");
        r
    }

    /// Renders the builder's own impl block: every setter, then the finalizer.
    pub fn render_builder_impl(&self) -> (r: String)
        ensures
            r@ == builder_impl_text(*self),
    {
        let mut setter_pieces: Vec<String> = Vec::new();
        let n = self.setters.len();
        let mut i: usize = 0;
        while i < n
            invariant
                i <= n,
                n == self.setters@.len(),
                setter_pieces@.len() == i,
                forall|k: int| 0 <= k < i ==> (#[trigger] setter_pieces@[k])@ == setter_text(
                    self.setters@[k],
                ),
            decreases n - i,
        {
            setter_pieces.push(self.setters[i].render());
            i = i + 1;
        }
        let mut step_pieces: Vec<String> = Vec::new();
        let m = self.build_steps.len();
        let mut j: usize = 0;
        while j < m
            invariant
                j <= m,
                m == self.build_steps@.len(),
                step_pieces@.len() == j,
                forall|k: int| 0 <= k < j ==> (#[trigger] step_pieces@[k])@ == build_step_text(
                    self.build_steps@[k],
                ),
            decreases m - j,
        {
            step_pieces.push(self.build_steps[j].render());
            j = j + 1;
        }
        proof {
            assert(setter_pieces@.map_values(|s: String| s@) =~= self.setters@.map_values(
                |s: SetterDef| setter_text(s),
            ));
            assert(step_pieces@.map_values(|s: String| s@) =~= self.build_steps@.map_values(
                |s: BuildStep| build_step_text(s),
            ));
        }
        let setters_joined = join_with(&setter_pieces, " ");
        let steps_joined = join_with(&step_pieces, ", ");
        let mut r = String::from_str("impl ");
        r.append(self.builder_name.as_str());
        r.append(" { ");
        r.append(setters_joined.as_str());
        r.append(" pub fn build(&mut self) -> ");
        r.append(self.record_name.as_str());
        r.append(" { ");
        r.append(self.record_name.as_str());
        r.append(" { ");
        r.append(steps_joined.as_str());
        r.append(" } } }");
        r
    }

    /// The field schema the synthesized finalizer enforces, as the runtime
    /// model reads it: one entry per field, in declared order.
    pub fn runtime_schema(&self) -> (s: Vec<FieldSchema>)
        ensures
            s@.len() == self.build_steps@.len(),
            forall|i: int|
                0 <= i < s@.len() ==> (#[trigger] s@[i]).name@ == self.build_steps@[i].name@
                    && s@[i].required == self.build_steps@[i].required,
    {
        let mut s: Vec<FieldSchema> = Vec::new();
        let n = self.build_steps.len();
        let mut i: usize = 0;
        while i < n
            invariant
                i <= n,
                n == self.build_steps@.len(),
                s@.len() == i,
                forall|k: int|
                    0 <= k < i ==> (#[trigger] s@[k]).name@ == self.build_steps@[k].name@
                        && s@[k].required == self.build_steps@[k].required,
            decreases n - i,
        {
            s.push(
                FieldSchema {
                    name: self.build_steps[i].name.clone(),
                    required: self.build_steps[i].required,
                },
            );
            i = i + 1;
        }
        s
    }

    /// Renders every synthesized artifact: the factory, the storage layout,
    /// and the builder's impl block, in that order.
    pub fn render(&self) -> (r: String)
        ensures
            r@ == factory_text(*self) + " "@ + storage_decl_text(*self) + " "@ + builder_impl_text(
                *self,
            ),
    {
        let storage = self.render_storage();
        let builder_impl = self.render_builder_impl();
        let mut r = self.render_factory();
        r.append(" ");
        r.append(storage.as_str());
        r.append(" ");
        r.append(builder_impl.as_str());
        r
    }
}

} // verus!
