use html_sanitize::emitter::{generate, generate_declaration, resolve_module_name, Declaration,
    GenerationOutcome, ModuleLookup, RecordSchema};
use html_sanitize::planner::{classify, plan_field, wrapper_finding, ArgFinding, Classification,
    FieldDescriptor, FieldTransform};
use html_sanitize::render::render;
use html_sanitize::signature::{contains, nominal_name, TypeSignature};

fn named(segments: &[&str], args: Vec<TypeSignature>) -> TypeSignature {
    TypeSignature::Named {
        path: segments.iter().map(|s| s.to_string()).collect(),
        args,
    }
}

fn string_ty() -> TypeSignature {
    named(&["String"], vec![])
}

fn field(name: &str, ty: TypeSignature) -> FieldDescriptor {
    FieldDescriptor { name: name.to_string(), ty }
}

#[test]
fn test_contains_walks_every_shape() {
    assert!(contains(&string_ty(), "String"));
    assert!(!contains(&named(&["u64"], vec![]), "String"));
    // last segment decides a named match
    assert!(contains(&named(&["std", "string", "String"], vec![]), "String"));
    assert!(!contains(&named(&["String", "Wrapper"], vec![]), "String"));
    // generic arguments are searched
    assert!(contains(&named(&["HashMap"], vec![named(&["u64"], vec![]), string_ty()]), "String"));
    // wrappers recurse into the inner type
    assert!(contains(&TypeSignature::Reference(Box::new(string_ty())), "String"));
    assert!(contains(&TypeSignature::Pointer(Box::new(string_ty())), "String"));
    assert!(contains(&TypeSignature::Array(Box::new(string_ty())), "String"));
    assert!(!contains(&TypeSignature::Array(Box::new(named(&["u8"], vec![]))), "String"));
    // tuples search each element
    assert!(contains(&TypeSignature::Tuple(vec![named(&["u8"], vec![]), string_ty()]), "String"));
    // function signatures search parameters and the return type
    assert!(contains(
        &TypeSignature::Function { params: vec![string_ty()], ret: None },
        "String"
    ));
    assert!(contains(
        &TypeSignature::Function {
            params: vec![named(&["u8"], vec![])],
            ret: Some(Box::new(string_ty())),
        },
        "String"
    ));
    assert!(!contains(
        &TypeSignature::Function { params: vec![named(&["u8"], vec![])], ret: None },
        "String"
    ));
    // a trait object matches on the exact rendering of a bound
    assert!(contains(
        &TypeSignature::TraitObject { bounds: vec!["String".to_string()] },
        "String"
    ));
    assert!(!contains(
        &TypeSignature::TraitObject { bounds: vec!["Display".to_string()] },
        "String"
    ));
    assert!(!contains(&TypeSignature::Opaque, "String"));
}

#[test]
fn test_nominal_name_concatenates_segments() {
    let path: Vec<String> = vec!["std".to_string(), "string".to_string(), "String".to_string()];
    assert_eq!(nominal_name(&path), "stdstringString");
    let single: Vec<String> = vec!["Option".to_string()];
    assert_eq!(nominal_name(&single), "Option");
}

#[test]
fn test_classify_by_nominal_name() {
    assert_eq!(classify(&string_ty()), Classification::DirectText);
    assert_eq!(classify(&named(&["Option"], vec![string_ty()])), Classification::OptionWrapper);
    assert_eq!(classify(&named(&["Vec"], vec![string_ty()])), Classification::SequenceWrapper);
    assert_eq!(classify(&named(&["u64"], vec![])), Classification::OtherNamed);
    // a qualified path is concatenated, so it misses the dispatch key
    assert_eq!(
        classify(&named(&["std", "string", "String"], vec![])),
        Classification::OtherNamed
    );
    assert_eq!(classify(&TypeSignature::Opaque), Classification::StructurallyOpaque);
    assert_eq!(
        classify(&TypeSignature::Tuple(vec![string_ty()])),
        Classification::StructurallyOpaque
    );
}

#[test]
fn test_wrapper_finding_inspects_first_argument() {
    assert_eq!(wrapper_finding(&named(&["Option"], vec![string_ty()])), ArgFinding::WrapsText);
    assert_eq!(
        wrapper_finding(&named(&["Option"], vec![named(&["u64"], vec![])])),
        ArgFinding::WrapsOther
    );
    assert_eq!(wrapper_finding(&named(&["Option"], vec![])), ArgFinding::NotInspectable);
    assert_eq!(
        wrapper_finding(&named(&["Option"], vec![TypeSignature::Tuple(vec![string_ty()])])),
        ArgFinding::NotInspectable
    );
}

#[test]
fn test_plan_field_decision_table() {
    // the text-string type is cleaned directly
    assert_eq!(plan_field(&string_ty()), Ok(FieldTransform::SanitizeDirect));
    // wrappers around text are cleaned through the wrapper
    assert_eq!(
        plan_field(&named(&["Option"], vec![string_ty()])),
        Ok(FieldTransform::SanitizeOptional)
    );
    assert_eq!(plan_field(&named(&["Vec"], vec![string_ty()])), Ok(FieldTransform::SanitizeEach));
    // wrappers around text-free types pass through
    assert_eq!(
        plan_field(&named(&["Option"], vec![named(&["u64"], vec![])])),
        Ok(FieldTransform::PassThrough)
    );
    assert_eq!(
        plan_field(&named(&["Vec"], vec![named(&["f32"], vec![])])),
        Ok(FieldTransform::PassThrough)
    );
    // a wrapper whose first argument is not a simple named type passes through,
    // even where text hides inside (a documented gap)
    assert_eq!(
        plan_field(&named(&["Option"], vec![TypeSignature::Tuple(vec![string_ty()])])),
        Ok(FieldTransform::PassThrough)
    );
    // any other named type without text passes through
    assert_eq!(plan_field(&named(&["u64"], vec![])), Ok(FieldTransform::PassThrough));
    // a non-named top-level type passes through unconditionally (the gap)
    assert_eq!(
        plan_field(&TypeSignature::Tuple(vec![string_ty()])),
        Ok(FieldTransform::PassThrough)
    );
    assert_eq!(
        plan_field(&TypeSignature::Reference(Box::new(string_ty()))),
        Ok(FieldTransform::PassThrough)
    );
}

#[test]
fn test_plan_field_fatal_rows() {
    // text nested where the table has no special case is fatal
    assert_eq!(
        plan_field(&named(&["Option"], vec![named(&["Vec"], vec![string_ty()])])),
        Err("Unhandled field type containing String: Option<Vec<String>>".to_string())
    );
    assert_eq!(
        plan_field(&named(&["Vec"], vec![named(&["Vec"], vec![string_ty()])])),
        Err("Unhandled field type containing String: Vec<Vec<String>>".to_string())
    );
    assert_eq!(
        plan_field(&named(&["HashMap"], vec![named(&["u64"], vec![]), string_ty()])),
        Err("Unhandled field type containing String: HashMap<u64, String>".to_string())
    );
    // a qualified text-string path misses the dispatch key but still contains it
    assert_eq!(
        plan_field(&named(&["std", "string", "String"], vec![])),
        Err("Unhandled field type containing String: std::string::String".to_string())
    );
}

#[test]
fn test_render_shapes() {
    assert_eq!(render(&string_ty()), "String");
    assert_eq!(render(&named(&["std", "string", "String"], vec![])), "std::string::String");
    assert_eq!(
        render(&named(&["HashMap"], vec![named(&["u64"], vec![]), string_ty()])),
        "HashMap<u64, String>"
    );
    assert_eq!(render(&TypeSignature::Reference(Box::new(string_ty()))), "&String");
    assert_eq!(render(&TypeSignature::Pointer(Box::new(string_ty()))), "*String");
    assert_eq!(render(&TypeSignature::Array(Box::new(string_ty()))), "[String]");
    assert_eq!(
        render(&TypeSignature::Tuple(vec![string_ty(), named(&["u8"], vec![])])),
        "(String, u8)"
    );
    assert_eq!(
        render(&TypeSignature::Function {
            params: vec![named(&["u8"], vec![])],
            ret: Some(Box::new(string_ty())),
        }),
        "fn(u8) -> String"
    );
    assert_eq!(
        render(&TypeSignature::TraitObject {
            bounds: vec!["Send".to_string(), "Sync".to_string()],
        }),
        "dyn Send + Sync"
    );
    assert_eq!(render(&TypeSignature::Opaque), "_");
}

#[test]
fn test_generate_success_code() {
    let schema = RecordSchema {
        name: "TestStruct".to_string(),
        fields: vec![
            field("test_field", string_ty()),
            field("test_optional_field", named(&["Option"], vec![string_ty()])),
            field("tags", named(&["Vec"], vec![string_ty()])),
            field("count", named(&["u64"], vec![])),
        ],
    };
    let mut expected = String::new();
    expected.push_str("impl html_sanitize::HtmlSanitize for TestStruct {\n");
    expected.push_str("    fn sanitize(&self) -> Self {\n");
    expected.push_str(
        "        use html_sanitize::{sanitize_html_string, sanitize_html_option_string};\n",
    );
    expected.push_str("        Self {\n");
    expected.push_str("            test_field: sanitize_html_string(&self.test_field),\n");
    expected.push_str(
        "            test_optional_field: self.test_optional_field.as_ref().map(|s| sanitize_html_string(s)),\n",
    );
    expected.push_str(
        "            tags: self.tags.iter().map(|s| sanitize_html_string(s)).collect(),\n",
    );
    expected.push_str("            count: self.count.clone(),\n");
    expected.push_str("        }\n");
    expected.push_str("    }\n");
    expected.push_str("}\n");
    assert_eq!(generate(&schema, "html_sanitize"), GenerationOutcome::Success(expected));
}

#[test]
fn test_generate_fatal_aborts_whole_record() {
    let schema = RecordSchema {
        name: "Bad".to_string(),
        fields: vec![
            field("fine", string_ty()),
            field("nested", named(&["Option"], vec![named(&["Vec"], vec![string_ty()])])),
            field("also_bad", named(&["Box"], vec![string_ty()])),
        ],
    };
    // fail-fast: the first fatal field's diagnostic, no partial output
    assert_eq!(
        generate(&schema, "html_sanitize"),
        GenerationOutcome::Fatal(
            "Unhandled field type containing String: Option<Vec<String>>".to_string()
        )
    );
}

#[test]
fn test_generate_declaration_shapes() {
    let schema = RecordSchema { name: "Empty".to_string(), fields: vec![] };
    match generate_declaration(&Declaration::Record(schema), "html_sanitize") {
        GenerationOutcome::Success(code) => {
            assert!(code.starts_with("impl html_sanitize::HtmlSanitize for Empty {"));
        }
        GenerationOutcome::Fatal(m) => panic!("unexpected fatal outcome: {m}"),
    }
    assert_eq!(
        generate_declaration(&Declaration::UnnamedFieldsRecord, "html_sanitize"),
        GenerationOutcome::Fatal(
            "HTMLSanitize can only be derived for structs with named fields".to_string()
        )
    );
    assert_eq!(
        generate_declaration(&Declaration::NotRecord, "html_sanitize"),
        GenerationOutcome::Fatal("HTMLSanitize can only be derived for structs".to_string())
    );
}

#[test]
fn test_resolve_module_name() {
    assert_eq!(resolve_module_name(&ModuleLookup::SelfReference), "html_sanitize");
    assert_eq!(resolve_module_name(&ModuleLookup::Alias("renamed".to_string())), "renamed");
    assert_eq!(resolve_module_name(&ModuleLookup::Unresolved), "html_sanitize");
}

#[test]
fn test_generate_uses_resolved_module_name() {
    let schema = RecordSchema {
        name: "Named".to_string(),
        fields: vec![field("a", string_ty())],
    };
    let module = resolve_module_name(&ModuleLookup::Alias("my_alias".to_string()));
    match generate(&schema, &module) {
        GenerationOutcome::Success(code) => {
            assert!(code.starts_with("impl my_alias::HtmlSanitize for Named {"));
            assert!(code.contains("use my_alias::{sanitize_html_string, sanitize_html_option_string};"));
        }
        GenerationOutcome::Fatal(m) => panic!("unexpected fatal outcome: {m}"),
    }
}
