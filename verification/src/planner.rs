//! Per-field transform planning: the classification of a field's declared type
//! by its nominal name, and the decision table that turns a classification into
//! an emitted transform or a fatal build-time diagnostic.

use vstd::prelude::*;
use vstd::string::StringExecFns;

use crate::render::{render, spec_render};
use crate::signature::{contains, nominal_name, spec_contains, spec_nominal_name, str_eq,
    TypeSignature};

verus! {

/// One named, typed field of a record declaration.
pub struct FieldDescriptor {
    /// The field's identifier.
    pub name: String,
    /// The field's declared type.
    pub ty: TypeSignature,
}

/// The top-level classification of a field's declared type.  Only a `Named`
/// type is inspected; every other shape is structurally opaque, whatever it
/// contains.
#[derive(Clone, Copy, PartialEq, Eq, Structural, Debug)]
pub enum Classification {
    /// The text-string type itself.
    DirectText,
    /// The optional-wrapper type.
    OptionWrapper,
    /// The single-type-parameter sequence type.
    SequenceWrapper,
    /// Any other nominal type.
    OtherNamed,
    /// A top-level type that is not nominal.
    StructurallyOpaque,
}

/// What the first generic argument of a wrapper type turned out to be.
#[derive(Clone, Copy, PartialEq, Eq, Structural, Debug)]
pub enum ArgFinding {
    /// A nominal type whose nominal name is the text-string type's.
    WrapsText,
    /// A nominal type with some other nominal name.
    WrapsOther,
    /// Absent, or not a simple nominal type.
    NotInspectable,
}

/// The transform the emitter writes for one field of the generated method.
#[derive(Clone, Copy, PartialEq, Eq, Structural, Debug)]
pub enum FieldTransform {
    /// Pass the value through the cleaning routine.
    SanitizeDirect,
    /// Map the cleaning routine over a present optional value.
    SanitizeOptional,
    /// Apply the cleaning routine to every element of a sequence.
    SanitizeEach,
    /// Copy the value unchanged, without invoking the cleaning routine.
    PassThrough,
}

/// Classifies a type by the nominal name of its top-level `Named` path.
pub open spec fn spec_classify(ty: TypeSignature) -> Classification {
    match ty {
        TypeSignature::Named { path, args } => {
            let n = spec_nominal_name(path@);
            if n == "String"@ {
                Classification::DirectText
            } else if n == "Option"@ {
                Classification::OptionWrapper
            } else if n == "Vec"@ {
                Classification::SequenceWrapper
            } else {
                Classification::OtherNamed
            }
        },
        _ => Classification::StructurallyOpaque,
    }
}

/// Inspects the first generic argument of a wrapper's argument list.
pub open spec fn spec_arg_finding(args: Seq<TypeSignature>) -> ArgFinding {
    if args.len() > 0 {
        match args[0] {
            TypeSignature::Named { path, args: _ } => if spec_nominal_name(path@) == "String"@ {
                ArgFinding::WrapsText
            } else {
                ArgFinding::WrapsOther
            },
            _ => ArgFinding::NotInspectable,
        }
    } else {
        ArgFinding::NotInspectable
    }
}

/// The finding for a field's type: its first generic argument if the type is
/// nominal, otherwise nothing to inspect.
pub open spec fn spec_wrapper_finding(ty: TypeSignature) -> ArgFinding {
    match ty {
        TypeSignature::Named { path: _, args } => spec_arg_finding(args@),
        _ => ArgFinding::NotInspectable,
    }
}

/// The diagnostic for a nominal field type that structurally contains the
/// text-string type in a position the decision table does not special-case.
pub open spec fn spec_fatal_message(ty: TypeSignature) -> Seq<char> {
    "Unhandled field type containing String: "@ + spec_render(ty)
}

/// The decision table, evaluated over the classification of `ty`:
/// the text-string type is cleaned directly; a wrapper around text is cleaned
/// through the wrapper; a wrapper around something else, and any other nominal
/// type, is fatal exactly when it structurally contains the text-string type,
/// and is otherwise copied unchanged; a non-nominal top-level type is copied
/// unchanged unconditionally, even where it contains text (a deliberate,
/// documented gap of the policy).
pub open spec fn spec_plan_field(ty: TypeSignature) -> Result<FieldTransform, Seq<char>> {
    match spec_classify(ty) {
        Classification::DirectText => Ok(FieldTransform::SanitizeDirect),
        Classification::OptionWrapper => match spec_wrapper_finding(ty) {
            ArgFinding::WrapsText => Ok(FieldTransform::SanitizeOptional),
            ArgFinding::WrapsOther => if spec_contains(ty, "String"@) {
                Err(spec_fatal_message(ty))
            } else {
                Ok(FieldTransform::PassThrough)
            },
            ArgFinding::NotInspectable => Ok(FieldTransform::PassThrough),
        },
        Classification::SequenceWrapper => match spec_wrapper_finding(ty) {
            ArgFinding::WrapsText => Ok(FieldTransform::SanitizeEach),
            ArgFinding::WrapsOther => if spec_contains(ty, "String"@) {
                Err(spec_fatal_message(ty))
            } else {
                Ok(FieldTransform::PassThrough)
            },
            ArgFinding::NotInspectable => Ok(FieldTransform::PassThrough),
        },
        Classification::OtherNamed => if spec_contains(ty, "String"@) {
            Err(spec_fatal_message(ty))
        } else {
            Ok(FieldTransform::PassThrough)
        },
        Classification::StructurallyOpaque => Ok(FieldTransform::PassThrough),
    }
}

/// Classifies a field's declared type.
pub fn classify(ty: &TypeSignature) -> (c: Classification)
    ensures
        c == spec_classify(*ty),
{
    match ty {
        TypeSignature::Named { path, args: _ } => {
            let n = nominal_name(path);
            if str_eq(n.as_str(), "String") {
                Classification::DirectText
            } else if str_eq(n.as_str(), "Option") {
                Classification::OptionWrapper
            } else if str_eq(n.as_str(), "Vec") {
                Classification::SequenceWrapper
            } else {
                Classification::OtherNamed
            }
        },
        _ => Classification::StructurallyOpaque,
    }
}

/// Inspects the first generic argument of a nominal field type.
pub fn wrapper_finding(ty: &TypeSignature) -> (f: ArgFinding)
    ensures
        f == spec_wrapper_finding(*ty),
{
    match ty {
        TypeSignature::Named { path: _, args } => {
            if args.len() > 0 {
                match &args[0] {
                    TypeSignature::Named { path, args: _ } => {
                        let n = nominal_name(path);
                        if str_eq(n.as_str(), "String") {
                            ArgFinding::WrapsText
                        } else {
                            ArgFinding::WrapsOther
                        }
                    },
                    _ => ArgFinding::NotInspectable,
                }
            } else {
                ArgFinding::NotInspectable
            }
        },
        _ => ArgFinding::NotInspectable,
    }
}

/// Builds the fatal diagnostic for `ty`.
fn fatal_message(ty: &TypeSignature) -> (m: String)
    ensures
        m@ == spec_fatal_message(*ty),
{
    let mut m = String::from_str("Unhandled field type containing String: ");
    let rendered = render(ty);
    m.append(rendered.as_str());
    m
}

/// Plans the transform for one field, or returns the fatal diagnostic that
/// aborts generation for the whole record.
pub fn plan_field(ty: &TypeSignature) -> (r: Result<FieldTransform, String>)
    ensures
        match spec_plan_field(*ty) {
            Ok(t) => r matches Ok(t2) && t2 == t,
            Err(m) => r matches Err(s) && s@ == m,
        },
{
    match classify(ty) {
        Classification::DirectText => Ok(FieldTransform::SanitizeDirect),
        Classification::OptionWrapper => match wrapper_finding(ty) {
            ArgFinding::WrapsText => Ok(FieldTransform::SanitizeOptional),
            ArgFinding::WrapsOther => if contains(ty, "String") {
                Err(fatal_message(ty))
            } else {
                Ok(FieldTransform::PassThrough)
            },
            ArgFinding::NotInspectable => Ok(FieldTransform::PassThrough),
        },
        Classification::SequenceWrapper => match wrapper_finding(ty) {
            ArgFinding::WrapsText => Ok(FieldTransform::SanitizeEach),
            ArgFinding::WrapsOther => if contains(ty, "String") {
                Err(fatal_message(ty))
            } else {
                Ok(FieldTransform::PassThrough)
            },
            ArgFinding::NotInspectable => Ok(FieldTransform::PassThrough),
        },
        Classification::OtherNamed => if contains(ty, "String") {
            Err(fatal_message(ty))
        } else {
            Ok(FieldTransform::PassThrough)
        },
        Classification::StructurallyOpaque => Ok(FieldTransform::PassThrough),
    }
}

} // verus!
