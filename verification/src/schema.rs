//! The schema extractor and the annotated schema it feeds the synthesizer.
//!
//! A record declaration comes in as a `StructDecl`. Extraction succeeds only
//! for declarations whose fields are in named form; tuple-positional and
//! field-less shapes are rejected wholesale with `GenError::UnsupportedShape`
//! and no partial output. Annotation then decides, field by field, whether
//! the declared type is the recognized optional wrapper, and extracts the
//! wrapped inner type when it is.

use vstd::prelude::*;
use crate::type_expr::{TypeExpr, is_option_type, option_inner_type};

verus! {

/// One named field of a record declaration: its identifier and declared type.
#[derive(Debug, Clone, PartialEq, Eq)]
pub struct FieldSpec {
    pub name: String,
    pub declared_type: TypeExpr,
}

/// The field list of a record declaration, in each shape a declaration can take.
pub enum StructFields {
    /// Named fields, in declaration order.
    Named(Vec<FieldSpec>),
    /// Tuple-positional fields.
    Positional(Vec<TypeExpr>),
    /// No fields at all.
    Unit,
}

/// A record type declaration: its name and its fields.
pub struct StructDecl {
    pub name: String,
    pub fields: StructFields,
}

/// A generation-time failure. Generation aborts wholesale; no artifact is produced.
#[derive(Debug, Clone, PartialEq, Eq)]
pub enum GenError {
    /// The declaration's fields are not in named form.
    UnsupportedShape,
}

/// A field descriptor together with the analyzer's verdict on it.
#[derive(Debug, Clone, PartialEq, Eq)]
pub struct AnnotatedFieldSpec {
    pub name: String,
    pub declared_type: TypeExpr,
    pub is_optional: bool,
    pub inner_type: Option<TypeExpr>,
}

impl AnnotatedFieldSpec {
    /// The analyzer's verdict is internally consistent: `is_optional` repeats
    /// what the declared type shows, and `inner_type` is present if and only
    /// if the field is optional, holding exactly the wrapped type.
    pub open spec fn wf(self) -> bool {
        &&& self.is_optional == is_option_type(self.declared_type@)
        &&& (self.inner_type matches Some(t) ==> self.is_optional && t@ == option_inner_type(
            self.declared_type@,
        ))
        &&& (self.is_optional ==> self.inner_type is Some)
    }
}

/// `inner_type` is present if and only if the field is optional.
pub proof fn lemma_inner_iff_optional(a: AnnotatedFieldSpec)
    requires
        a.wf(),
    ensures
        a.is_optional <==> a.inner_type is Some,
{
}

/// An annotated field faithfully describes the given declared field.
pub open spec fn annotates(a: AnnotatedFieldSpec, f: FieldSpec) -> bool {
    &&& a.name == f.name
    &&& a.declared_type == f.declared_type
    &&& a.wf()
}

/// A fully analyzed record schema, field order preserved from the declaration.
#[derive(Debug, Clone, PartialEq, Eq)]
pub struct StructSpec {
    pub name: String,
    pub fields: Vec<AnnotatedFieldSpec>,
}

impl StructSpec {
    pub open spec fn wf(self) -> bool {
        forall|i: int| 0 <= i < self.fields@.len() ==> (#[trigger] self.fields@[i]).wf()
    }
}

/// Extracts the named fields of a declaration, rejecting every other shape.
pub fn extract(decl: StructDecl) -> (r: Result<(String, Vec<FieldSpec>), GenError>)
    ensures
        match r {
            Ok(p) => decl.fields matches StructFields::Named(fs) && p.0 == decl.name && p.1 == fs,
            Err(e) => !(decl.fields is Named) && e is UnsupportedShape,
        },
{
    match decl.fields {
        StructFields::Named(fs) => Ok((decl.name, fs)),
        StructFields::Positional(_) => Err(GenError::UnsupportedShape),
        StructFields::Unit => Err(GenError::UnsupportedShape),
    }
}

/// Runs the optionality analyzer over every field, in order.
pub fn annotate(fields: Vec<FieldSpec>) -> (out: Vec<AnnotatedFieldSpec>)
    ensures
        out@.len() == fields@.len(),
        forall|i: int| 0 <= i < out@.len() ==> annotates(#[trigger] out@[i], fields@[i]),
{
    let ghost orig = fields@;
    let mut rest = fields;
    let mut out: Vec<AnnotatedFieldSpec> = Vec::new();
    while rest.len() > 0
        invariant
            out@.len() + rest@.len() == orig.len(),
            rest@ == orig.skip(out@.len() as int),
            forall|i: int| 0 <= i < out@.len() ==> annotates(#[trigger] out@[i], orig[i]),
        decreases rest@.len(),
    {
        let f = rest.remove(0);
        let optional = f.declared_type.is_option();
        let inner = f.declared_type.inner_type();
        out.push(
            AnnotatedFieldSpec {
                name: f.name,
                declared_type: f.declared_type,
                is_optional: optional,
                inner_type: inner,
            },
        );
        proof {
            assert(rest@ =~= orig.skip(out@.len() as int));
        }
    }
    out
}

/// Analyzes a record declaration end to end: extraction, then annotation.
pub fn analyze(decl: StructDecl) -> (r: Result<StructSpec, GenError>)
    ensures
        match r {
            Ok(sp) => {
                &&& decl.fields matches StructFields::Named(fs)
                &&& sp.name == decl.name
                &&& sp.fields@.len() == fs@.len()
                &&& forall|i: int|
                    0 <= i < sp.fields@.len() ==> annotates(#[trigger] sp.fields@[i], fs@[i])
                &&& sp.wf()
            },
            Err(e) => !(decl.fields is Named) && e is UnsupportedShape,
        },
{
    match extract(decl) {
        Ok((name, fields)) => {
            let annotated = annotate(fields);
            Ok(StructSpec { name, fields: annotated })
        },
        Err(e) => Err(e),
    }
}

} // verus!
