//! The value-level meaning of the emitted transforms: what the generated
//! `sanitize` method does to each field's value.  The generated code
//! instantiates exactly these transforms, one per field, in declaration order;
//! the guarantees that follow are stated and proved in `laws`.

use vstd::prelude::*;

use crate::clean_of;
use crate::sanitize_html_option_string;
use crate::sanitize_html_string;
use crate::planner::FieldTransform;

verus! {

/// A field value of one of the shapes the planner's transforms touch: the
/// text-string type, the optional wrapper or the sequence wrapper around it,
/// or a plain scalar standing for any untouched field.
#[derive(Debug, PartialEq, Eq)]
pub enum FieldValue {
    /// A text-string value.
    Text(String),
    /// An optional text-string value.
    OptionalText(Option<String>),
    /// A sequence of text-string values.
    TextSequence(Vec<String>),
    /// A value of any other field type, copied bit for bit.
    Scalar(u64),
}

/// The mathematical model of a field value.
pub enum FieldValueModel {
    /// A text-string value.
    Text(Seq<char>),
    /// An optional text-string value.
    OptionalText(Option<Seq<char>>),
    /// A sequence of text-string values.
    TextSequence(Seq<Seq<char>>),
    /// A value of any other field type.
    Scalar(u64),
}

impl View for FieldValue {
    type V = FieldValueModel;

    open spec fn view(&self) -> FieldValueModel {
        match self {
            FieldValue::Text(s) => FieldValueModel::Text(s@),
            FieldValue::OptionalText(o) => FieldValueModel::OptionalText(
                match o {
                    Some(s) => Some(s@),
                    None => None,
                },
            ),
            FieldValue::TextSequence(v) => FieldValueModel::TextSequence(
                v@.map_values(|s: String| s@),
            ),
            FieldValue::Scalar(n) => FieldValueModel::Scalar(*n),
        }
    }
}

/// What one transform does to one field value: cleaning a text value, mapping
/// the cleaner over a present optional value, cleaning a sequence element-wise,
/// or passing the value through unchanged.  A transform applied to a value of
/// another shape leaves it unchanged; the planner only ever pairs a transform
/// with the matching shape.
pub open spec fn spec_apply_transform(t: FieldTransform, v: FieldValueModel) -> FieldValueModel {
    match t {
        FieldTransform::SanitizeDirect => match v {
            FieldValueModel::Text(s) => FieldValueModel::Text(clean_of(s)),
            _ => v,
        },
        FieldTransform::SanitizeOptional => match v {
            FieldValueModel::OptionalText(o) => FieldValueModel::OptionalText(
                match o {
                    Some(s) => Some(clean_of(s)),
                    None => None,
                },
            ),
            _ => v,
        },
        FieldTransform::SanitizeEach => match v {
            FieldValueModel::TextSequence(ss) => FieldValueModel::TextSequence(
                ss.map_values(|s: Seq<char>| clean_of(s)),
            ),
            _ => v,
        },
        FieldTransform::PassThrough => v,
    }
}

/// The generated method over a whole record, at value level: each field's
/// transform applied to that field's value, in declaration order.
pub open spec fn spec_apply_plan(ts: Seq<FieldTransform>, vs: Seq<FieldValueModel>) -> Seq<
    FieldValueModel,
> {
    Seq::new(vs.len(), |i: int| spec_apply_transform(ts[i], vs[i]))
}

/// Copies a field value unchanged.
#[verifier::loop_isolation(false)]
fn clone_value(v: &FieldValue) -> (r: FieldValue)
    ensures
        r@ == v@,
{
    match v {
        FieldValue::Text(s) => FieldValue::Text(s.clone()),
        FieldValue::OptionalText(o) => FieldValue::OptionalText(
            match o {
                Some(s) => Some(s.clone()),
                None => None,
            },
        ),
        FieldValue::TextSequence(ss) => {
            let mut out: Vec<String> = Vec::new();
            let mut i: usize = 0;
            while i < ss.len()
                invariant
                    i <= ss@.len(),
                    out@.len() == i,
                    forall|j: int| 0 <= j < i ==> out@[j]@ == ss@[j]@,
                decreases ss@.len() - i,
            {
                out.push(ss[i].clone());
                i += 1;
            }
            proof {
                assert(out@.map_values(|s: String| s@) =~= ss@.map_values(|s: String| s@));
            }
            FieldValue::TextSequence(out)
        },
        FieldValue::Scalar(n) => FieldValue::Scalar(*n),
    }
}

/// Applies one planned transform to one field value.
#[verifier::loop_isolation(false)]
pub fn apply_transform(t: &FieldTransform, v: &FieldValue) -> (r: FieldValue)
    ensures
        r@ == spec_apply_transform(*t, v@),
{
    match t {
        FieldTransform::SanitizeDirect => match v {
            FieldValue::Text(s) => FieldValue::Text(sanitize_html_string(s.as_str())),
            _ => clone_value(v),
        },
        FieldTransform::SanitizeOptional => match v {
            FieldValue::OptionalText(o) => FieldValue::OptionalText(
                sanitize_html_option_string(o.as_ref()),
            ),
            _ => clone_value(v),
        },
        FieldTransform::SanitizeEach => match v {
            FieldValue::TextSequence(ss) => {
                let mut out: Vec<String> = Vec::new();
                let mut i: usize = 0;
                while i < ss.len()
                    invariant
                        i <= ss@.len(),
                        out@.len() == i,
                        forall|j: int| 0 <= j < i ==> out@[j]@ == clean_of(ss@[j]@),
                    decreases ss@.len() - i,
                {
                    out.push(sanitize_html_string(ss[i].as_str()));
                    i += 1;
                }
                proof {
                    assert(out@.map_values(|s: String| s@) =~= ss@.map_values(
                        |s: String| s@,
                    ).map_values(|s: Seq<char>| clean_of(s)));
                }
                FieldValue::TextSequence(out)
            },
            _ => clone_value(v),
        },
        FieldTransform::PassThrough => clone_value(v),
    }
}

/// Applies a record's planned transforms to its field values, field by field
/// in declaration order.
#[verifier::loop_isolation(false)]
pub fn apply_plan(ts: &Vec<FieldTransform>, vs: &Vec<FieldValue>) -> (r: Vec<FieldValue>)
    requires
        ts@.len() == vs@.len(),
    ensures
        r@.len() == vs@.len(),
        forall|i: int|
            0 <= i < r@.len() ==> r@[i]@ == spec_apply_transform(ts@[i], vs@[i]@),
{
    let mut out: Vec<FieldValue> = Vec::new();
    let mut i: usize = 0;
    while i < vs.len()
        invariant
            i <= vs@.len(),
            out@.len() == i,
            forall|j: int| 0 <= j < i ==> out@[j]@ == spec_apply_transform(ts@[j], vs@[j]@),
        decreases vs@.len() - i,
    {
        let next = apply_transform(&ts[i], &vs[i]);
        out.push(next);
        i += 1;
    }
    out
}

} // verus!
