//! Textual rendering of a `TypeSignature`, used by fatal diagnostics so that a
//! message names the offending field's full type.

use vstd::prelude::*;
use vstd::string::StringExecFns;

use crate::signature::TypeSignature;

verus! {

/// The identifiers of `parts`, joined by `sep`.
pub open spec fn spec_join_idents(parts: Seq<String>, sep: Seq<char>) -> Seq<char>
    decreases parts.len(),
{
    if parts.len() == 0 {
        Seq::empty()
    } else if parts.len() == 1 {
        parts[0]@
    } else {
        spec_join_idents(parts.drop_last(), sep) + sep + parts.last()@
    }
}

/// The rendering of one type tree: a nominal type as its `::`-joined path with
/// angle-bracketed arguments, wrappers with their usual sigils, a trait object
/// as its `+`-joined bounds, and an opaque type as `_`.
pub open spec fn spec_render(ty: TypeSignature) -> Seq<char>
    decreases ty,
{
    match ty {
        TypeSignature::Named { path, args } => if args@.len() == 0 {
            spec_join_idents(path@, "::"@)
        } else {
            spec_join_idents(path@, "::"@) + "<"@ + spec_render_list(args@) + ">"@
        },
        TypeSignature::Reference(inner) => "&"@ + spec_render(*inner),
        TypeSignature::Pointer(inner) => "*"@ + spec_render(*inner),
        TypeSignature::Array(inner) => "["@ + spec_render(*inner) + "]"@,
        TypeSignature::Tuple(elements) => "("@ + spec_render_list(elements@) + ")"@,
        TypeSignature::Function { params, ret } => match ret {
            Some(r) => "fn("@ + spec_render_list(params@) + ")"@ + " -> "@ + spec_render(*r),
            None => "fn("@ + spec_render_list(params@) + ")"@,
        },
        TypeSignature::TraitObject { bounds } => "dyn "@ + spec_join_idents(bounds@, " + "@),
        TypeSignature::Opaque => "_"@,
    }
}

/// The renderings of `tys`, joined by a comma and a space.
pub open spec fn spec_render_list(tys: Seq<TypeSignature>) -> Seq<char>
    decreases tys,
{
    if tys.len() == 0 {
        Seq::empty()
    } else if tys.len() == 1 {
        spec_render(tys[0])
    } else {
        spec_render_list(tys.drop_last()) + ", "@ + spec_render(tys.last())
    }
}

/// Joins identifiers with a separator.
#[verifier::loop_isolation(false)]
pub fn join_idents(parts: &Vec<String>, sep: &str) -> (r: String)
    ensures
        r@ == spec_join_idents(parts@, sep@),
{
    let mut s = String::new();
    let mut i: usize = 0;
    while i < parts.len()
        invariant
            i <= parts@.len(),
            s@ == spec_join_idents(parts@.take(i as int), sep@),
        decreases parts@.len() - i,
    {
        if i > 0 {
            s.append(sep);
        }
        s.append(parts[i].as_str());
        proof {
            assert(parts@.take(i as int + 1).drop_last() =~= parts@.take(i as int));
            assert(parts@.take(i as int + 1).last() == parts@[i as int]);
            if i == 0 {
                assert(parts@.take(1)[0] == parts@[0]);
            }
        }
        i += 1;
    }
    proof {
        assert(parts@.take(parts@.len() as int) =~= parts@);
    }
    s
}

/// Renders one type tree as text.
#[verifier::loop_isolation(false)]
pub fn render(ty: &TypeSignature) -> (r: String)
    ensures
        r@ == spec_render(*ty),
    decreases *ty,
{
    match ty {
        TypeSignature::Named { path, args } => {
            let mut s = join_idents(path, "::");
            if args.len() > 0 {
                s.append("<");
                let list = render_list(args);
                s.append(list.as_str());
                s.append(">");
            }
            s
        },
        TypeSignature::Reference(inner) => {
            let mut s = String::from_str("&");
            let t = render(inner);
            s.append(t.as_str());
            s
        },
        TypeSignature::Pointer(inner) => {
            let mut s = String::from_str("*");
            let t = render(inner);
            s.append(t.as_str());
            s
        },
        TypeSignature::Array(inner) => {
            let mut s = String::from_str("[");
            let t = render(inner);
            s.append(t.as_str());
            s.append("]");
            s
        },
        TypeSignature::Tuple(elements) => {
            let mut s = String::from_str("(");
            let list = render_list(elements);
            s.append(list.as_str());
            s.append(")");
            s
        },
        TypeSignature::Function { params, ret } => {
            let mut s = String::from_str("fn(");
            let list = render_list(params);
            s.append(list.as_str());
            s.append(")");
            match ret {
                Some(r) => {
                    s.append(" -> ");
                    let t = render(r);
                    s.append(t.as_str());
                },
                None => {},
            }
            s
        },
        TypeSignature::TraitObject { bounds } => {
            let mut s = String::from_str("dyn ");
            let list = join_idents(bounds, " + ");
            s.append(list.as_str());
            s
        },
        TypeSignature::Opaque => String::from_str("_"),
    }
}

/// Renders a sequence of type trees, comma-separated.
#[verifier::loop_isolation(false)]
pub fn render_list(tys: &Vec<TypeSignature>) -> (r: String)
    ensures
        r@ == spec_render_list(tys@),
    decreases tys@,
{
    let mut s = String::new();
    let mut i: usize = 0;
    while i < tys.len()
        invariant
            i <= tys@.len(),
            s@ == spec_render_list(tys@.take(i as int)),
        decreases tys@.len() - i,
    {
        if i > 0 {
            s.append(", ");
        }
        let t = render(&tys[i]);
        s.append(t.as_str());
        proof {
            assert(tys@.take(i as int + 1).drop_last() =~= tys@.take(i as int));
            assert(tys@.take(i as int + 1).last() == tys@[i as int]);
            if i == 0 {
                assert(tys@.take(1)[0] == tys@[0]);
            }
        }
        i += 1;
    }
    proof {
        assert(tys@.take(tys@.len() as int) =~= tys@);
    }
    s
}

} // verus!
