//! The structural model of a field's declared type, and the recursive check
//! that decides whether a type structurally contains the text-string type.

use vstd::prelude::*;
use vstd::string::StringExecFns;

verus! {

/// A field's declared type, as the schema reader hands it over: an immutable,
/// finite tree mirroring one type expression in a record declaration.
pub enum TypeSignature {
    /// A nominal, possibly generic type: the identifiers of its path segments
    /// and, flattened into one ordered sequence, its generic type arguments.
    Named { path: Vec<String>, args: Vec<TypeSignature> },
    /// A reference to an inner type.
    Reference(Box<TypeSignature>),
    /// A raw-pointer type.
    Pointer(Box<TypeSignature>),
    /// An array of an inner type.
    Array(Box<TypeSignature>),
    /// A tuple of element types.
    Tuple(Vec<TypeSignature>),
    /// A function signature: parameter types and an optional return type.
    Function { params: Vec<TypeSignature>, ret: Option<Box<TypeSignature>> },
    /// A capability-bound type with no further structure: only the textual
    /// rendering of each bound is kept.
    TraitObject { bounds: Vec<String> },
    /// Anything else.
    Opaque,
}

/// Whether `target` appears anywhere in the structural decomposition of `ty`.
///
/// A `Named` type matches when its last path segment equals `target`, and is
/// otherwise searched through every generic argument; wrappers are searched
/// through their inner type; a trait object matches when some bound's textual
/// rendering equals `target` exactly; an opaque type never matches.
pub open spec fn spec_contains(ty: TypeSignature, target: Seq<char>) -> bool
    decreases ty,
{
    match ty {
        TypeSignature::Named { path, args } => (path@.len() > 0 && path@.last()@ == target)
            || (exists|i: int| 0 <= i < args@.len() && spec_contains(#[trigger] args@[i], target)),
        TypeSignature::Reference(inner) => spec_contains(*inner, target),
        TypeSignature::Pointer(inner) => spec_contains(*inner, target),
        TypeSignature::Array(inner) => spec_contains(*inner, target),
        TypeSignature::Tuple(elements) => exists|i: int|
            0 <= i < elements@.len() && spec_contains(#[trigger] elements@[i], target),
        TypeSignature::Function { params, ret } => (exists|i: int|
            0 <= i < params@.len() && spec_contains(#[trigger] params@[i], target)) || (match ret {
            Some(r) => spec_contains(*r, target),
            None => false,
        }),
        TypeSignature::TraitObject { bounds } => exists|i: int|
            0 <= i < bounds@.len() && (#[trigger] bounds@[i])@ == target,
        TypeSignature::Opaque => false,
    }
}

/// String comparison by contents.
pub fn str_eq(a: &str, b: &str) -> (r: bool)
    ensures
        r == (a@ == b@),
{
    let x: String = a.to_owned();
    let y: String = b.to_owned();
    x == y
}

/// Recursively searches `ty` and stops at the first occurrence of `target`.
#[verifier::loop_isolation(false)]
pub fn contains(ty: &TypeSignature, target: &str) -> (r: bool)
    ensures
        r == spec_contains(*ty, target@),
    decreases *ty,
{
    match ty {
        TypeSignature::Named { path, args } => {
            if path.len() > 0 && str_eq(path[path.len() - 1].as_str(), target) {
                return true;
            }
            let mut i: usize = 0;
            while i < args.len()
                invariant
                    i <= args@.len(),
                    forall|j: int| 0 <= j < i ==> !spec_contains(args@[j], target@),
                decreases args@.len() - i,
            {
                if contains(&args[i], target) {
                    return true;
                }
                i += 1;
            }
            false
        },
        TypeSignature::Reference(inner) => contains(inner, target),
        TypeSignature::Pointer(inner) => contains(inner, target),
        TypeSignature::Array(inner) => contains(inner, target),
        TypeSignature::Tuple(elements) => {
            let mut i: usize = 0;
            while i < elements.len()
                invariant
                    i <= elements@.len(),
                    forall|j: int| 0 <= j < i ==> !spec_contains(elements@[j], target@),
                decreases elements@.len() - i,
            {
                if contains(&elements[i], target) {
                    return true;
                }
                i += 1;
            }
            false
        },
        TypeSignature::Function { params, ret } => {
            let mut i: usize = 0;
            while i < params.len()
                invariant
                    i <= params@.len(),
                    forall|j: int| 0 <= j < i ==> !spec_contains(params@[j], target@),
                decreases params@.len() - i,
            {
                if contains(&params[i], target) {
                    return true;
                }
                i += 1;
            }
            match ret {
                Some(r) => contains(r, target),
                None => false,
            }
        },
        TypeSignature::TraitObject { bounds } => {
            let mut i: usize = 0;
            while i < bounds.len()
                invariant
                    i <= bounds@.len(),
                    forall|j: int| 0 <= j < i ==> bounds@[j]@ != target@,
                decreases bounds@.len() - i,
            {
                if str_eq(bounds[i].as_str(), target) {
                    return true;
                }
                i += 1;
            }
            false
        },
        TypeSignature::Opaque => false,
    }
}

/// The nominal name of a `Named` type: every path segment's identifier,
/// concatenated in order into one string.
pub open spec fn spec_nominal_name(path: Seq<String>) -> Seq<char>
    decreases path.len(),
{
    if path.len() == 0 {
        Seq::empty()
    } else {
        spec_nominal_name(path.drop_last()) + path.last()@
    }
}

/// Concatenates the identifiers of a type path into its nominal name, the
/// dispatch key of the classifier.
pub fn nominal_name(path: &Vec<String>) -> (r: String)
    ensures
        r@ == spec_nominal_name(path@),
{
    let mut s = String::new();
    let mut i: usize = 0;
    while i < path.len()
        invariant
            i <= path@.len(),
            s@ == spec_nominal_name(path@.take(i as int)),
        decreases path@.len() - i,
    {
        s.append(path[i].as_str());
        proof {
            assert(path@.take(i as int + 1).drop_last() =~= path@.take(i as int));
            assert(path@.take(i as int + 1).last() == path@[i as int]);
        }
        i += 1;
    }
    proof {
        assert(path@.take(path@.len() as int) =~= path@);
    }
    s
}

} // verus!
