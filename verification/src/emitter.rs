//! The record emitter: walks a record's fields in declared order, plans one
//! transform per field, and assembles the generated implementation of the
//! sanitization capability, or propagates the first fatal diagnostic.

use vstd::prelude::*;
use vstd::string::StringExecFns;

use crate::planner::{plan_field, spec_plan_field, FieldDescriptor, FieldTransform};

verus! {

/// One record declaration: its identifier and its named fields, in declared
/// order.  Consumed once per generation pass; never mutated.
pub struct RecordSchema {
    /// The record type's identifier.
    pub name: String,
    /// The record's fields, in declaration order.
    pub fields: Vec<FieldDescriptor>,
}

/// What one generation pass produced: the full generated source text, or the
/// fatal build-time diagnostic.  There is no partial success.
#[derive(Debug, PartialEq, Eq)]
pub enum GenerationOutcome {
    /// Generation succeeded; the text implements the sanitization capability.
    Success(String),
    /// Generation failed; the message must abort the build.
    Fatal(String),
}

/// What the build knows the capability-providing module by: itself, an alias
/// discovered by the lookup, or nothing (the lookup failed).
pub enum ModuleLookup {
    /// The generated code lives in the capability-providing module itself.
    SelfReference,
    /// The module is known under another name.
    Alias(String),
    /// The lookup failed; fall back to the default name.
    Unresolved,
}

/// One declaration as the schema reader saw it: a record with named fields, or
/// one of the two shapes generation must reject.
pub enum Declaration {
    /// A record declaration with named fields.
    Record(RecordSchema),
    /// A record declaration with unnamed or positional fields.
    UnnamedFieldsRecord,
    /// Not a record declaration at all.
    NotRecord,
}

/// The expression emitted for one field, by its planned transform.
pub open spec fn spec_transform_expr(field: Seq<char>, t: FieldTransform) -> Seq<char> {
    match t {
        FieldTransform::SanitizeDirect => "sanitize_html_string(&self."@ + field + ")"@,
        FieldTransform::SanitizeOptional => "self."@ + field
            + ".as_ref().map(|s| sanitize_html_string(s))"@,
        FieldTransform::SanitizeEach => "self."@ + field
            + ".iter().map(|s| sanitize_html_string(s)).collect()"@,
        FieldTransform::PassThrough => "self."@ + field + ".clone()"@,
    }
}

/// The line emitted for one field, or the field's fatal diagnostic.
pub open spec fn spec_field_line(f: FieldDescriptor) -> Result<Seq<char>, Seq<char>> {
    match spec_plan_field(f.ty) {
        Ok(t) => Ok("            "@ + f.name@ + ": "@ + spec_transform_expr(f.name@, t) + ",\n"@),
        Err(m) => Err(m),
    }
}

/// The generated method body for `fields`: the emitted lines in declaration
/// order, or the diagnostic of the first field whose plan is fatal.
pub open spec fn spec_body(fields: Seq<FieldDescriptor>) -> Result<Seq<char>, Seq<char>>
    decreases fields.len(),
{
    if fields.len() == 0 {
        Ok(Seq::empty())
    } else {
        match spec_body(fields.drop_last()) {
            Ok(rest) => match spec_field_line(fields.last()) {
                Ok(line) => Ok(rest + line),
                Err(m) => Err(m),
            },
            Err(m) => Err(m),
        }
    }
}

/// The full generated implementation around an emitted body.
pub open spec fn spec_success_code(record: Seq<char>, module: Seq<char>, body: Seq<char>)
    -> Seq<char> {
    "impl "@ + module + "::HtmlSanitize for "@ + record
        + " {\n    fn sanitize(&self) -> Self {\n        use "@ + module
        + "::{sanitize_html_string, sanitize_html_option_string};\n        Self {\n"@ + body
        + "        }\n    }\n}\n"@
}

/// What one generation pass yields for a schema: the generated text, or the
/// first field's fatal diagnostic.
pub open spec fn spec_generate(schema: RecordSchema, module: Seq<char>) -> Result<
    Seq<char>,
    Seq<char>,
> {
    match spec_body(schema.fields@) {
        Ok(body) => Ok(spec_success_code(schema.name@, module, body)),
        Err(m) => Err(m),
    }
}

/// A prefix of the fields emitted cleanly and a later field is fatal: the whole
/// body is that field's diagnostic (fail-fast, first error wins).
proof fn lemma_body_first_fatal(fields: Seq<FieldDescriptor>, i: int)
    requires
        0 <= i < fields.len(),
        spec_body(fields.take(i)) is Ok,
        spec_field_line(fields[i]) is Err,
    ensures
        spec_body(fields) == Result::<Seq<char>, Seq<char>>::Err(spec_field_line(fields[i])->Err_0),
    decreases fields.len(),
{
    if fields.len() == i + 1 {
        assert(fields.take(i) =~= fields.drop_last());
    } else {
        assert(fields.drop_last().take(i) =~= fields.take(i));
        assert(fields.drop_last()[i] == fields[i]);
        lemma_body_first_fatal(fields.drop_last(), i);
    }
}

/// Resolves the name the generated code references the capability-providing
/// module by: the discovered alias if the lookup found one, else the default.
pub fn resolve_module_name(lookup: &ModuleLookup) -> (r: String)
    ensures
        match lookup {
            ModuleLookup::Alias(name) => r@ == name@,
            _ => r@ == "html_sanitize"@,
        },
{
    match lookup {
        ModuleLookup::SelfReference => String::from_str("html_sanitize"),
        ModuleLookup::Alias(name) => name.clone(),
        ModuleLookup::Unresolved => String::from_str("html_sanitize"),
    }
}

/// Emits the line for one field, or hands its fatal diagnostic on.
fn field_line(f: &FieldDescriptor) -> (r: Result<String, String>)
    ensures
        match spec_field_line(*f) {
            Ok(l) => r matches Ok(s) && s@ == l,
            Err(m) => r matches Err(s) && s@ == m,
        },
{
    match plan_field(&f.ty) {
        Err(m) => Err(m),
        Ok(t) => {
            let mut line = String::from_str("            ");
            line.append(f.name.as_str());
            line.append(": ");
            match t {
                FieldTransform::SanitizeDirect => {
                    line.append("sanitize_html_string(&self.");
                    line.append(f.name.as_str());
                    line.append(")");
                },
                FieldTransform::SanitizeOptional => {
                    line.append("self.");
                    line.append(f.name.as_str());
                    line.append(".as_ref().map(|s| sanitize_html_string(s))");
                },
                FieldTransform::SanitizeEach => {
                    line.append("self.");
                    line.append(f.name.as_str());
                    line.append(".iter().map(|s| sanitize_html_string(s)).collect()");
                },
                FieldTransform::PassThrough => {
                    line.append("self.");
                    line.append(f.name.as_str());
                    line.append(".clone()");
                },
            }
            line.append(",\n");
            proof {
                assert(line@ =~= "            "@ + f.name@ + ": "@ + spec_transform_expr(
                    f.name@,
                    t,
                ) + ",\n"@);
            }
            Ok(line)
        },
    }
}

/// Generates the sanitization implementation for one record schema, walking
/// the fields in declared order and aborting on the first fatal field.
#[verifier::loop_isolation(false)]
pub fn generate(schema: &RecordSchema, module_name: &str) -> (r: GenerationOutcome)
    ensures
        match spec_generate(*schema, module_name@) {
            Ok(code) => r matches GenerationOutcome::Success(s) && s@ == code,
            Err(m) => r matches GenerationOutcome::Fatal(f) && f@ == m,
        },
{
    let mut body = String::new();
    let mut i: usize = 0;
    while i < schema.fields.len()
        invariant
            i <= schema.fields@.len(),
            spec_body(schema.fields@.take(i as int)) == Result::<Seq<char>, Seq<char>>::Ok(body@),
        decreases schema.fields@.len() - i,
    {
        let field = &schema.fields[i];
        match field_line(field) {
            Err(m) => {
                proof {
                    lemma_body_first_fatal(schema.fields@, i as int);
                }
                return GenerationOutcome::Fatal(m);
            },
            Ok(line) => {
                body.append(line.as_str());
            },
        }
        proof {
            assert(schema.fields@.take(i as int + 1).drop_last() =~= schema.fields@.take(i as int));
            assert(schema.fields@.take(i as int + 1).last() == schema.fields@[i as int]);
        }
        i += 1;
    }
    proof {
        assert(schema.fields@.take(schema.fields@.len() as int) =~= schema.fields@);
    }
    let mut code = String::from_str("impl ");
    code.append(module_name);
    code.append("::HtmlSanitize for ");
    code.append(schema.name.as_str());
    code.append(" {\n    fn sanitize(&self) -> Self {\n        use ");
    code.append(module_name);
    code.append("::{sanitize_html_string, sanitize_html_option_string};\n        Self {\n");
    code.append(body.as_str());
    code.append("        }\n    }\n}\n");
    GenerationOutcome::Success(code)
}

/// Generates for one declaration: a record with named fields goes through the
/// emitter; each unsupported shape is its own fatal build-time error.
pub fn generate_declaration(decl: &Declaration, module_name: &str) -> (r: GenerationOutcome)
    ensures
        match decl {
            Declaration::Record(schema) => match spec_generate(*schema, module_name@) {
                Ok(code) => r matches GenerationOutcome::Success(s) && s@ == code,
                Err(m) => r matches GenerationOutcome::Fatal(f) && f@ == m,
            },
            Declaration::UnnamedFieldsRecord => r matches GenerationOutcome::Fatal(f) && f@
                == "HTMLSanitize can only be derived for structs with named fields"@,
            Declaration::NotRecord => r matches GenerationOutcome::Fatal(f) && f@
                == "HTMLSanitize can only be derived for structs"@,
        },
{
    match decl {
        Declaration::Record(schema) => generate(schema, module_name),
        Declaration::UnnamedFieldsRecord => GenerationOutcome::Fatal(
            String::from_str("HTMLSanitize can only be derived for structs with named fields"),
        ),
        Declaration::NotRecord => GenerationOutcome::Fatal(
            String::from_str("HTMLSanitize can only be derived for structs"),
        ),
    }
}

} // verus!
