//! The guarantees of the generation policy, stated over the planner's decision
//! table and the value-level meaning of the emitted transforms.

use vstd::prelude::*;

use crate::clean_of;
use crate::emitter::{spec_body, spec_field_line, spec_generate, RecordSchema};
use crate::planner::{spec_classify, spec_plan_field, spec_wrapper_finding, ArgFinding,
    Classification, FieldDescriptor, FieldTransform};
use crate::semantics::{spec_apply_plan, spec_apply_transform, FieldValueModel};
use crate::signature::{spec_contains, spec_nominal_name, TypeSignature};

verus! {

/// In a record whose fields each either are the text-string type itself and
/// hold a text value, or plan to a pass-through, the generated method cleans
/// exactly the text fields and copies every other field unchanged.
pub proof fn lemma_plain_record_sanitize(
    fields: Seq<FieldDescriptor>,
    ts: Seq<FieldTransform>,
    vs: Seq<FieldValueModel>,
)
    requires
        fields.len() == ts.len(),
        fields.len() == vs.len(),
        forall|i: int|
            0 <= i < fields.len() ==> spec_plan_field(#[trigger] fields[i].ty) == Ok::<
                FieldTransform,
                Seq<char>,
            >(ts[i]),
        forall|i: int|
            0 <= i < fields.len() ==> ((spec_classify(#[trigger] fields[i].ty)
                == Classification::DirectText && vs[i] is Text) || ts[i]
                == FieldTransform::PassThrough),
    ensures
        forall|i: int|
            0 <= i < fields.len() && spec_classify(#[trigger] fields[i].ty)
                == Classification::DirectText ==> spec_apply_plan(ts, vs)[i]
                == FieldValueModel::Text(clean_of(vs[i]->Text_0)),
        forall|i: int|
            0 <= i < fields.len() && spec_classify(#[trigger] fields[i].ty)
                != Classification::DirectText ==> spec_apply_plan(ts, vs)[i] == vs[i],
{
}

/// A field whose type is the optional wrapper around the text-string type
/// plans to the optional transform, which maps the cleaner over a present
/// value and leaves an absent one absent.
pub proof fn lemma_option_wrapping_text(ty: TypeSignature, o: Option<Seq<char>>)
    requires
        spec_classify(ty) == Classification::OptionWrapper,
        spec_wrapper_finding(ty) == ArgFinding::WrapsText,
    ensures
        spec_plan_field(ty) == Ok::<FieldTransform, Seq<char>>(FieldTransform::SanitizeOptional),
        spec_apply_transform(FieldTransform::SanitizeOptional, FieldValueModel::OptionalText(o))
            == FieldValueModel::OptionalText(
            match o {
                Some(s) => Some(clean_of(s)),
                None => None,
            },
        ),
{
}

/// A field whose type is the sequence wrapper around the text-string type
/// plans to the element-wise transform, which cleans every element and
/// preserves both length and order.
pub proof fn lemma_sequence_wrapping_text(ty: TypeSignature, ss: Seq<Seq<char>>)
    requires
        spec_classify(ty) == Classification::SequenceWrapper,
        spec_wrapper_finding(ty) == ArgFinding::WrapsText,
    ensures
        spec_plan_field(ty) == Ok::<FieldTransform, Seq<char>>(FieldTransform::SanitizeEach),
        spec_apply_transform(FieldTransform::SanitizeEach, FieldValueModel::TextSequence(ss))
            matches FieldValueModel::TextSequence(cs) && cs.len() == ss.len() && (forall|i: int|
            0 <= i < ss.len() ==> cs[i] == clean_of(ss[i])),
{
}

/// A field whose type nowhere contains the text-string type never aborts
/// generation: every fatal row of the decision table demands containment.
pub proof fn lemma_text_free_field_never_fatal(ty: TypeSignature)
    requires
        !spec_contains(ty, "String"@),
    ensures
        spec_plan_field(ty) is Ok,
{
}

/// The nominal dispatch consults only single-identifier paths: the field's
/// top-level path, and the first generic argument's path if there is one, are
/// at most one segment long.  A multi-segment path whose segments concatenate
/// to a dispatch key behaves differently (a known fragility of the heuristic).
pub open spec fn single_segment_heads(ty: TypeSignature) -> bool {
    match ty {
        TypeSignature::Named { path, args } => path@.len() <= 1 && (args@.len() > 0
            ==> match args@[0] {
            TypeSignature::Named { path: p, args: _ } => p@.len() <= 1,
            _ => true,
        }),
        _ => true,
    }
}

/// A field whose type nowhere contains the text-string type is passed through
/// and so keeps its value bit for bit, provided the nominal dispatch sees only
/// single-identifier paths (see `single_segment_heads`).
pub proof fn lemma_text_free_field_untouched(ty: TypeSignature, v: FieldValueModel)
    requires
        !spec_contains(ty, "String"@),
        single_segment_heads(ty),
    ensures
        spec_plan_field(ty) == Ok::<FieldTransform, Seq<char>>(FieldTransform::PassThrough),
        spec_apply_transform(FieldTransform::PassThrough, v) == v,
{
    reveal_strlit("String");
    reveal_with_fuel(spec_nominal_name, 3);
    match ty {
        TypeSignature::Named { path, args } => {
            if spec_nominal_name(path@) == "String"@ {
                assert(path@.len() == 1) by {
                    if path@.len() == 0 {
                        assert(spec_nominal_name(path@).len() == 0);
                    }
                }
                assert(Seq::empty() + path@[0]@ =~= path@[0]@);
                assert(path@.last()@ == "String"@);
                assert(spec_contains(ty, "String"@));
            }
            if spec_wrapper_finding(ty) == ArgFinding::WrapsText {
                match args@[0] {
                    TypeSignature::Named { path: p, args: _ } => {
                        assert(spec_nominal_name(p@) == "String"@);
                        assert(p@.len() == 1) by {
                            if p@.len() == 0 {
                                assert(spec_nominal_name(p@).len() == 0);
                            }
                        }
                        assert(Seq::empty() + p@[0]@ =~= p@[0]@);
                        assert(p@.last()@ == "String"@);
                        assert(spec_contains(args@[0], "String"@));
                        assert(spec_contains(ty, "String"@));
                    },
                    _ => {},
                }
            }
        },
        _ => {},
    }
}

/// The generated body exists exactly when every field's plan succeeded.
proof fn lemma_body_ok_iff(fields: Seq<FieldDescriptor>)
    ensures
        spec_body(fields) is Ok <==> (forall|i: int|
            0 <= i < fields.len() ==> spec_field_line(#[trigger] fields[i]) is Ok),
    decreases fields.len(),
{
    if fields.len() > 0 {
        lemma_body_ok_iff(fields.drop_last());
        assert(forall|i: int|
            0 <= i < fields.len() - 1 ==> #[trigger] fields[i] == fields.drop_last()[i]);
        if spec_body(fields) is Ok {
            assert(forall|i: int|
                0 <= i < fields.len() ==> spec_field_line(#[trigger] fields[i]) is Ok) by {
                assert(spec_field_line(fields.last()) is Ok);
            }
        }
    }
}

/// There is no partial output: generation succeeds exactly when every field's
/// plan succeeds, so one failing field fails the entire record.
pub proof fn lemma_one_failing_field_fails_the_record(schema: RecordSchema, module: Seq<char>)
    ensures
        spec_generate(schema, module) is Ok <==> (forall|i: int|
            0 <= i < schema.fields@.len() ==> spec_plan_field(
                #[trigger] schema.fields@[i].ty,
            ) is Ok),
{
    lemma_body_ok_iff(schema.fields@);
    assert(forall|i: int|
        0 <= i < schema.fields@.len() ==> (spec_field_line(#[trigger] schema.fields@[i]) is Ok
            <==> spec_plan_field(schema.fields@[i].ty) is Ok));
}

/// One transform applied twice is the transform applied once, given that the
/// cleaner is idempotent on its own output.
pub proof fn lemma_transform_idempotent(t: FieldTransform, v: FieldValueModel)
    requires
        forall|s: Seq<char>| #[trigger] clean_of(clean_of(s)) == clean_of(s),
    ensures
        spec_apply_transform(t, spec_apply_transform(t, v)) == spec_apply_transform(t, v),
{
    match (t, v) {
        (FieldTransform::SanitizeEach, FieldValueModel::TextSequence(ss)) => {
            let once = ss.map_values(|s: Seq<char>| clean_of(s));
            assert(once.map_values(|s: Seq<char>| clean_of(s)) =~= once);
        },
        _ => {},
    }
}

/// Sanitizing a record twice equals sanitizing it once, given that the cleaner
/// is idempotent on its own output.
pub proof fn lemma_sanitize_idempotent(ts: Seq<FieldTransform>, vs: Seq<FieldValueModel>)
    requires
        ts.len() == vs.len(),
        forall|s: Seq<char>| #[trigger] clean_of(clean_of(s)) == clean_of(s),
    ensures
        spec_apply_plan(ts, spec_apply_plan(ts, vs)) == spec_apply_plan(ts, vs),
{
    let once = spec_apply_plan(ts, vs);
    let twice = spec_apply_plan(ts, once);
    assert forall|i: int| 0 <= i < vs.len() implies twice[i] == once[i] by {
        lemma_transform_idempotent(ts[i], vs[i]);
    }
    assert(twice =~= once);
}

} // verus!

