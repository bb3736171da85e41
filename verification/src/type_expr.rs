//! The type-expression model and the optionality analyzer.
//!
//! A `TypeExpr` records exactly what the analyzer reads of a declared field
//! type: the spelling of its outermost ("head") constructor and its
//! angle-bracketed argument list, when it has one in that shape. Every other
//! type is carried as plain source text and is never inspected further.
//!
//! Optionality detection is purely textual: a type counts as optional iff its
//! head constructor is spelled exactly `Option` and its first angle-bracketed
//! argument is a type argument. A locally defined type that shares that name
//! and shape is therefore misclassified as optional; this is a documented
//! limitation of the detection, not a defect to repair here. A head spelled
//! `Option` with an empty argument list is treated as not optional (a checked
//! access in place of an unchecked extraction of the first argument).

use vstd::prelude::*;

verus! {

/// One angle-bracketed generic argument, carried as source text.
#[derive(Debug, Clone, PartialEq, Eq)]
pub enum GenericArg {
    /// A type argument.
    TypeArg(String),
    /// A lifetime argument.
    LifetimeArg(String),
    /// A const argument.
    ConstArg(String),
}

/// The mathematical image of a `GenericArg`.
pub enum GenericArgModel {
    TypeArg(Seq<char>),
    LifetimeArg(Seq<char>),
    ConstArg(Seq<char>),
}

impl View for GenericArg {
    type V = GenericArgModel;

    open spec fn view(&self) -> GenericArgModel {
        match self {
            GenericArg::TypeArg(s) => GenericArgModel::TypeArg(s@),
            GenericArg::LifetimeArg(s) => GenericArgModel::LifetimeArg(s@),
            GenericArg::ConstArg(s) => GenericArgModel::ConstArg(s@),
        }
    }
}

/// A declared type, as far as the analyzer reads it.
#[derive(Debug, Clone, PartialEq, Eq)]
pub enum TypeExpr {
    /// A type whose outermost constructor is a single identifier carrying an
    /// angle-bracketed argument list: `head<args, ...>`.
    Generic { head: String, args: Vec<GenericArg> },
    /// Any other type, held as its source text and never inspected.
    Text(String),
}

/// The mathematical image of a `TypeExpr`.
pub enum TypeExprModel {
    Generic { head: Seq<char>, args: Seq<GenericArgModel> },
    Text(Seq<char>),
}

impl View for TypeExpr {
    type V = TypeExprModel;

    open spec fn view(&self) -> TypeExprModel {
        match self {
            TypeExpr::Generic { head, args } => TypeExprModel::Generic {
                head: head@,
                args: args@.map_values(|a: GenericArg| a@),
            },
            TypeExpr::Text(s) => TypeExprModel::Text(s@),
        }
    }
}

/// The text of a generic argument, whatever its kind.
pub open spec fn arg_text(a: GenericArgModel) -> Seq<char> {
    match a {
        GenericArgModel::TypeArg(s) => s,
        GenericArgModel::LifetimeArg(s) => s,
        GenericArgModel::ConstArg(s) => s,
    }
}

/// A type is optional iff its head constructor is spelled `Option` and its
/// first angle-bracketed argument is a type argument.
pub open spec fn is_option_type(t: TypeExprModel) -> bool {
    match t {
        TypeExprModel::Generic { head, args } => {
            &&& head == "Option"@
            &&& args.len() > 0
            &&& args[0] is TypeArg
        },
        TypeExprModel::Text(_) => false,
    }
}

/// The inner type of an optional wrapper: its first argument, as text.
/// Meaningful only when `is_option_type` holds.
pub open spec fn option_inner_type(t: TypeExprModel) -> TypeExprModel
    recommends
        is_option_type(t),
{
    match t {
        TypeExprModel::Generic { head, args } => TypeExprModel::Text(arg_text(args[0])),
        TypeExprModel::Text(s) => TypeExprModel::Text(s),
    }
}

/// The argument list's source text: the arguments' texts, comma-separated.
pub open spec fn args_joined(args: Seq<GenericArgModel>) -> Seq<char>
    decreases args.len(),
{
    if args.len() == 0 {
        Seq::empty()
    } else if args.len() == 1 {
        arg_text(args[0])
    } else {
        args_joined(args.drop_last()) + ", "@ + arg_text(args.last())
    }
}

/// The source text of a type: its head constructor with its bracketed
/// argument list, or the text it is carried as.
pub open spec fn render_type_model(t: TypeExprModel) -> Seq<char> {
    match t {
        TypeExprModel::Generic { head, args } => head + "<"@ + args_joined(args) + ">"@,
        TypeExprModel::Text(s) => s,
    }
}

impl GenericArg {
    /// The text of this argument, whatever its kind.
    pub fn text(&self) -> (r: &String)
        ensures
            r@ == arg_text(self@),
    {
        match self {
            GenericArg::TypeArg(s) => s,
            GenericArg::LifetimeArg(s) => s,
            GenericArg::ConstArg(s) => s,
        }
    }
}

impl TypeExpr {
    /// Renders this type back to source text.
    pub fn render(&self) -> (r: String)
        ensures
            r@ == render_type_model(self@),
    {
        match self {
            TypeExpr::Text(s) => s.clone(),
            TypeExpr::Generic { head, args } => {
                let ghost av = args@.map_values(|a: GenericArg| a@);
                let mut r = head.clone();
                r.append("<");
                let n = args.len();
                let mut i: usize = 0;
                while i < n
                    invariant
                        i <= n,
                        n == args@.len(),
                        av == args@.map_values(|a: GenericArg| a@),
                        r@ == head@ + "<"@ + args_joined(av.take(i as int)),
                    decreases n - i,
                {
                    if i > 0 {
                        r.append(", ");
                    }
                    let piece = args[i].text();
                    r.append(piece.as_str());
                    proof {
                        assert(av.take(i + 1).drop_last() =~= av.take(i as int));
                        assert(av.take(i + 1).last() == av[i as int]);
                        assert(av[i as int] == args@[i as int]@);
                        assert(r@ =~= head@ + "<"@ + args_joined(av.take(i + 1)));
                    }
                    i = i + 1;
                }
                r.append(">");
                proof {
                    assert(av.take(n as int) =~= av);
                    assert(r@ =~= head@ + "<"@ + args_joined(av) + ">"@);
                }
                r
            },
        }
    }

    /// Decides whether this type is the recognized optional wrapper.
    pub fn is_option(&self) -> (b: bool)
        ensures
            b == is_option_type(self@),
    {
        match self {
            TypeExpr::Generic { head, args } => {
                if args.len() > 0 {
                    let opt = String::from_str("Option");
                    match &args[0] {
                        GenericArg::TypeArg(_) => head.eq(&opt),
                        GenericArg::LifetimeArg(_) => false,
                        GenericArg::ConstArg(_) => false,
                    }
                } else {
                    false
                }
            },
            TypeExpr::Text(_) => false,
        }
    }

    /// Extracts the wrapped inner type when this type is the recognized
    /// optional wrapper, and reports `None` otherwise.
    pub fn inner_type(&self) -> (r: Option<TypeExpr>)
        ensures
            match r {
                Some(inner) => is_option_type(self@) && inner@ == option_inner_type(self@),
                None => !is_option_type(self@),
            },
    {
        match self {
            TypeExpr::Generic { head, args } => {
                if args.len() > 0 {
                    let opt = String::from_str("Option");
                    match &args[0] {
                        GenericArg::TypeArg(s) => {
                            if head.eq(&opt) {
                                Some(TypeExpr::Text(s.clone()))
                            } else {
                                None
                            }
                        },
                        GenericArg::LifetimeArg(_) => None,
                        GenericArg::ConstArg(_) => None,
                    }
                } else {
                    None
                }
            },
            TypeExpr::Text(_) => None,
        }
    }
}

} // verus!
