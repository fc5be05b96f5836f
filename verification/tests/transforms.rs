use html_sanitize::planner::FieldTransform;
use html_sanitize::semantics::{apply_plan, apply_transform, FieldValue};

#[test]
fn test_apply_transform_direct_cleans_text() {
    let v = FieldValue::Text("<script>alert(1)</script>".to_string());
    assert_eq!(apply_transform(&FieldTransform::SanitizeDirect, &v), FieldValue::Text("".to_string()));
    // the cleaner really ran: the dirty value does not come back unchanged
    assert_ne!(apply_transform(&FieldTransform::SanitizeDirect, &v), v);
}

#[test]
fn test_apply_transform_optional() {
    let some = FieldValue::OptionalText(Some("<img src=x onerror='alert(1)'>".to_string()));
    assert_eq!(
        apply_transform(&FieldTransform::SanitizeOptional, &some),
        FieldValue::OptionalText(Some("<img src=\"x\">".to_string()))
    );
    let none = FieldValue::OptionalText(None);
    assert_eq!(
        apply_transform(&FieldTransform::SanitizeOptional, &none),
        FieldValue::OptionalText(None)
    );
}

#[test]
fn test_apply_transform_each_keeps_order_and_length() {
    let v = FieldValue::TextSequence(vec![
        "<b>first</b>".to_string(),
        "<script>x()</script>second".to_string(),
        "third".to_string(),
    ]);
    assert_eq!(
        apply_transform(&FieldTransform::SanitizeEach, &v),
        FieldValue::TextSequence(vec![
            "<b>first</b>".to_string(),
            "second".to_string(),
            "third".to_string(),
        ])
    );
}

#[test]
fn test_apply_transform_pass_through_is_identity() {
    let v = FieldValue::Scalar(7);
    assert_eq!(apply_transform(&FieldTransform::PassThrough, &v), FieldValue::Scalar(7));
    let v = FieldValue::Text("<script>kept as is</script>".to_string());
    assert_eq!(
        apply_transform(&FieldTransform::PassThrough, &v),
        FieldValue::Text("<script>kept as is</script>".to_string())
    );
    let v = FieldValue::TextSequence(vec!["<i>kept</i>".to_string()]);
    assert_eq!(
        apply_transform(&FieldTransform::PassThrough, &v),
        FieldValue::TextSequence(vec!["<i>kept</i>".to_string()])
    );
}

#[test]
fn test_apply_plan_field_by_field() {
    let ts = vec![
        FieldTransform::SanitizeDirect,
        FieldTransform::SanitizeOptional,
        FieldTransform::SanitizeEach,
        FieldTransform::PassThrough,
    ];
    let vs = vec![
        FieldValue::Text("<script>a()</script>".to_string()),
        FieldValue::OptionalText(Some("<img src=x onerror='a()'>".to_string())),
        FieldValue::TextSequence(vec!["<b>x</b>".to_string()]),
        FieldValue::Scalar(7),
    ];
    let expected = vec![
        FieldValue::Text("".to_string()),
        FieldValue::OptionalText(Some("<img src=\"x\">".to_string())),
        FieldValue::TextSequence(vec!["<b>x</b>".to_string()]),
        FieldValue::Scalar(7),
    ];
    assert_eq!(apply_plan(&ts, &vs), expected);
}

#[test]
fn test_apply_plan_twice_is_once() {
    let ts = vec![
        FieldTransform::SanitizeDirect,
        FieldTransform::SanitizeOptional,
        FieldTransform::SanitizeEach,
        FieldTransform::PassThrough,
    ];
    let vs = vec![
        FieldValue::Text("mixed <script>bad()</script> and <em>fine</em>".to_string()),
        FieldValue::OptionalText(Some("<a href='http://x' onclick='y()'>link</a>".to_string())),
        FieldValue::TextSequence(vec![
            "<b>one</b>".to_string(),
            "<script>two()</script>".to_string(),
        ]),
        FieldValue::Scalar(42),
    ];
    let once = apply_plan(&ts, &vs);
    let twice = apply_plan(&ts, &once);
    assert_eq!(twice, once);
}
