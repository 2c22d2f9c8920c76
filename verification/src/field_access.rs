use vstd::prelude::*;
use vstd::string::StringExecFns;
use crate::access::{guard_text, operation_allowed, owner_free};
use crate::artifact::CodegenError;
use crate::fields::texts;
use crate::ident::{ident_result, parse_ident};
use crate::ir::{AccessRule, Entity, Field};
use crate::text::{append_suffixed, suffixed_text};

verus! {

/// The field-level rule for reading, or for writing.
pub open spec fn field_rule(field: Field, read: bool) -> Option<AccessRule> {
    if read {
        field.read_access
    } else {
        field.write_access
    }
}

/// Field rules, like operation rules, never name an owner.
pub open spec fn field_rules_owner_free(fields: Seq<Field>, read: bool) -> bool {
    forall|i: int| 0 <= i < fields.len() ==> (#[trigger] field_rule(fields[i], read) matches Some(rule) ==> owner_free(rule))
}

/// The source text of a string literal that holds `value`, as
/// `proc_macro2::Literal::string` writes it.
pub uninterp spec fn literal_text(value: Seq<char>) -> Seq<char>;

/// The match arm `"field" => guard` of a field with a rule.
pub open spec fn arm_text(name: Seq<char>, rule: AccessRule) -> Seq<char> {
    literal_text(name) + " => "@ + guard_text(Seq::<Field>::empty(), rule, Seq::<char>::empty(), None)
}

/// The match arms of the fields that carry a rule, in field order.
pub open spec fn arms_spec(fields: Seq<Field>, read: bool) -> Seq<Seq<char>>
    decreases fields.len(),
{
    if fields.len() == 0 {
        Seq::<Seq<char>>::empty()
    } else {
        arms_spec(fields.drop_last(), read) + match field_rule(fields.last(), read) {
            Some(rule) => seq![arm_text(fields.last().rust_name@, rule)],
            None => Seq::<Seq<char>>::empty(),
        }
    }
}

/// A string literal holding the value: the text of
/// `proc_macro2::Literal::string(value)`, which quotes the value and escapes
/// what a Rust string literal cannot hold as it is. The contract names the
/// text and states nothing of its characters.
#[verifier::external_body]
pub(crate) fn string_literal(value: &str) -> (text: String)
    ensures
        text@ == literal_text(value@),
{
    proc_macro2::Literal::string(value).to_string()
}

/// The arms of the generated `field_read_allowed` (`read`) or
/// `field_write_allowed` match.
pub fn field_access_arms(entity: &Entity, read: bool) -> (arms: Vec<String>)
    requires
        field_rules_owner_free(entity.fields@, read),
    ensures
        texts(arms@) == arms_spec(entity.fields@, read),
{
    let mut arms: Vec<String> = Vec::new();
    let mut i: usize = 0;
    while i < entity.fields.len()
        invariant
            i <= entity.fields.len(),
            field_rules_owner_free(entity.fields@, read),
            texts(arms@) == arms_spec(entity.fields@.subrange(0, i as int), read),
        decreases entity.fields.len() - i,
    {
        proof {
            assert(entity.fields@.subrange(0, i + 1).drop_last() == entity.fields@.subrange(0, i as int));
        }
        let field = &entity.fields[i];
        let rule = if read {
            &field.read_access
        } else {
            &field.write_access
        };
        let ghost before = texts(arms@);
        match rule {
            Some(rule) => {
                proof {
                    assert(field_rule(entity.fields@[i as int], read) matches Some(r) ==> owner_free(r));
                }
                let allowed = operation_allowed(rule);
                let mut arm = string_literal(field.rust_name.as_str());
                arm.append(" => ");
                arm.append(allowed.as_str());
                arms.push(arm);
                proof {
                    reveal_strlit("");
                    assert(texts(arms@) == before.push(arm@));
                }
            },
            None => {
                proof {
                    assert(before + Seq::<Seq<char>>::empty() == before);
                }
            },
        }
        i = i + 1;
    }
    proof {
        assert(entity.fields@.subrange(0, entity.fields@.len() as int) == entity.fields@);
    }
    arms
}

/// Fields whose writes a field rule guards: those with a write rule that
/// clients write at all.
pub open spec fn guarded_write(entity: Entity, field: Field, update: bool) -> bool {
    field.write_access is Some && field.generated is None && !entity.spec_is_workflow_field(&field) && (
    !update || !field.primary_key)
}

/// The check that refuses a write the field rule forbids.
pub open spec fn write_check_text(name: Seq<char>) -> Seq<char> {
    "if !field_write_allowed(context, "@ + literal_text(name) + ") { return Err(access_denied(context)); }"@
}

/// The guard of one field: optional inputs are only checked when present.
pub open spec fn write_guard_text(field: Field, ident: Seq<char>, update: bool) -> Seq<char> {
    if update || field.nullable || field.default is Some {
        "if input."@ + ident + ".is_some() { "@ + write_check_text(field.rust_name@) + " }"@
    } else {
        write_check_text(field.rust_name@)
    }
}

/// The write guards of the entity, or the first identifier error.
pub open spec fn write_guards_spec(entity: Entity, fields: Seq<Field>, update: bool) -> Result<Seq<Seq<char>>, Seq<char>>
    decreases fields.len(),
{
    if fields.len() == 0 {
        Ok(Seq::<Seq<char>>::empty())
    } else {
        match write_guards_spec(entity, fields.drop_last(), update) {
            Err(error) => Err(error),
            Ok(guards) => if guarded_write(entity, fields.last(), update) {
                match ident_result(fields.last().rust_name@) {
                    Ok(ident) => Ok(guards.push(write_guard_text(fields.last(), ident, update))),
                    Err(error) => Err(error),
                }
            } else {
                Ok(guards)
            },
        }
    }
}

proof fn lemma_write_guards_error(entity: Entity, fields: Seq<Field>, update: bool, k: int)
    requires
        0 <= k <= fields.len(),
        write_guards_spec(entity, fields.subrange(0, k), update) is Err,
    ensures
        write_guards_spec(entity, fields, update) == write_guards_spec(entity, fields.subrange(0, k), update),
    decreases fields.len() - k,
{
    if k < fields.len() {
        assert(fields.subrange(0, k + 1).drop_last() == fields.subrange(0, k));
        lemma_write_guards_error(entity, fields, update, k + 1);
    } else {
        assert(fields.subrange(0, k) == fields);
    }
}

pub fn write_guards(entity: &Entity, update: bool) -> (result: Result<Vec<String>, CodegenError>)
    ensures
        match result {
            Ok(guards) => write_guards_spec(*entity, entity.fields@, update) == Ok::<Seq<Seq<char>>, Seq<char>>(texts(guards@)),
            Err(error) => write_guards_spec(*entity, entity.fields@, update) == Err::<Seq<Seq<char>>, Seq<char>>(error@),
        },
{
    let mut guards: Vec<String> = Vec::new();
    let mut i: usize = 0;
    proof {
        assert(entity.fields@.subrange(0, 0) == Seq::<Field>::empty());
        assert(texts(guards@) == Seq::<Seq<char>>::empty());
    }
    while i < entity.fields.len()
        invariant
            i <= entity.fields.len(),
            write_guards_spec(*entity, entity.fields@.subrange(0, i as int), update) == Ok::<Seq<Seq<char>>, Seq<char>>(texts(guards@)),
        decreases entity.fields.len() - i,
    {
        proof {
            assert(entity.fields@.subrange(0, i + 1).drop_last() == entity.fields@.subrange(0, i as int));
        }
        let field = &entity.fields[i];
        if field.write_access.is_some() && field.generated.is_none() && !entity.is_workflow_field(field)
            && (!update || !field.primary_key) {
            let ident = match parse_ident(field.rust_name.as_str()) {
                Ok(ident) => ident,
                Err(error) => {
                    proof {
                        lemma_write_guards_error(*entity, entity.fields@, update, i + 1);
                    }
                    return Err(error);
                },
            };
            let key = string_literal(field.rust_name.as_str());
            let mut check = String::from_str("if !field_write_allowed(context, ");
            check.append(key.as_str());
            check.append(") { return Err(access_denied(context)); }");
            let guard = if update || field.nullable || field.default.is_some() {
                let mut wrapped = String::from_str("if input.");
                wrapped.append(ident.as_str());
                wrapped.append(".is_some() { ");
                wrapped.append(check.as_str());
                wrapped.append(" }");
                wrapped
            } else {
                check
            };
            let ghost before = texts(guards@);
            guards.push(guard);
            proof {
                assert(texts(guards@) == before.push(guard@));
            }
        }
        i = i + 1;
    }
    proof {
        assert(entity.fields@.subrange(0, entity.fields@.len() as int) == entity.fields@);
    }
    Ok(guards)
}

/// The check that drops a field the caller may not read from a serialised record.
pub open spec fn redaction_text(key: Seq<char>) -> Seq<char> {
    "if !field_read_allowed(context, "@
        + key
        + ") { if let serde_json::Value::Object(object) = &mut value { object.remove("@
        + key
        + "); } }"@
}

/// The redactions of the fields that carry a read rule, in field order.
pub open spec fn redactions_spec(fields: Seq<Field>) -> Seq<Seq<char>>
    decreases fields.len(),
{
    if fields.len() == 0 {
        Seq::<Seq<char>>::empty()
    } else if fields.last().read_access is Some {
        redactions_spec(fields.drop_last()).push(redaction_text(literal_text(fields.last().rust_name@)))
    } else {
        redactions_spec(fields.drop_last())
    }
}

fn read_redactions(entity: &Entity) -> (redactions: Vec<String>)
    ensures
        texts(redactions@) == redactions_spec(entity.fields@),
{
    let mut redactions: Vec<String> = Vec::new();
    let mut i: usize = 0;
    proof {
        assert(entity.fields@.subrange(0, 0) == Seq::<Field>::empty());
        assert(texts(redactions@) == Seq::<Seq<char>>::empty());
    }
    while i < entity.fields.len()
        invariant
            i <= entity.fields.len(),
            texts(redactions@) == redactions_spec(entity.fields@.subrange(0, i as int)),
        decreases entity.fields.len() - i,
    {
        proof {
            assert(entity.fields@.subrange(0, i + 1).drop_last() == entity.fields@.subrange(0, i as int));
        }
        let field = &entity.fields[i];
        if field.read_access.is_some() {
            let literal = string_literal(field.rust_name.as_str());
            let key = literal.as_str();
            let mut text = String::from_str("if !field_read_allowed(context, ");
            text.append(key);
            text.append(") { if let serde_json::Value::Object(object) = &mut value { object.remove(");
            text.append(key);
            text.append("); } }");
            let ghost before = texts(redactions@);
            redactions.push(text);
            proof {
                assert(texts(redactions@) == before.push(redaction_text(literal_text(field.rust_name@))));
            }
        }
        i = i + 1;
    }
    proof {
        assert(entity.fields@.subrange(0, entity.fields@.len() as int) == entity.fields@);
    }
    redactions
}

/// The field-level access helpers of an entity's API module: who may read and
/// write each field, the redaction of serialised records and the write checks
/// of create and update inputs.
pub open spec fn field_support_text(
    module: Seq<char>,
    read_arms: Seq<Seq<char>>,
    write_arms: Seq<Seq<char>>,
    read_redactions: Seq<Seq<char>>,
    create_guards: Seq<Seq<char>>,
    update_guards: Seq<Seq<char>>,
) -> Seq<char> {
    "#[allow(dead_code, unused_variables, unused_mut)] fn field_read_allowed(context: &RequestContext, field: &str) -> bool { "@
        + "match field { "@
        + suffixed_text(read_arms, ", "@)
        + " _ => true, } } "@
        + "#[allow(dead_code, unused_variables, unused_mut)] fn field_write_allowed(context: &RequestContext, field: &str) -> bool { "@
        + "match field { "@
        + suffixed_text(write_arms, ", "@)
        + " _ => true, } } "@
        + "#[allow(dead_code, unused_variables, unused_mut)] fn redact_model(context: &RequestContext, model: "@
        + module
        + "::Model,) -> Result<serde_json::Value, ApiError> { "@
        + "let mut value = serde_json::to_value(model).map_err(|_| ApiError::Internal)?; "@
        + suffixed_text(read_redactions, " "@)
        + " Ok(value) } "@
        + "#[allow(dead_code, unused_variables, unused_mut)] fn authorize_create_fields(context: &RequestContext, input: &CreateInput,) -> Result<(), ApiError> { "@
        + suffixed_text(create_guards, " "@)
        + " Ok(()) } "@
        + "#[allow(dead_code, unused_variables, unused_mut)] fn authorize_update_fields(context: &RequestContext, input: &UpdateInput,) -> Result<(), ApiError> { "@
        + suffixed_text(update_guards, " "@)
        + " Ok(()) }"@
}

/// The field access helpers, or the first identifier error of the create
/// guards, then of the update guards.
pub open spec fn field_support_spec(entity: Entity, module: Seq<char>) -> Result<Seq<char>, Seq<char>> {
    match write_guards_spec(entity, entity.fields@, false) {
        Err(error) => Err(error),
        Ok(create_guards) => match write_guards_spec(entity, entity.fields@, true) {
            Err(error) => Err(error),
            Ok(update_guards) => Ok(field_support_text(
                module,
                arms_spec(entity.fields@, true),
                arms_spec(entity.fields@, false),
                redactions_spec(entity.fields@),
                create_guards,
                update_guards,
            )),
        },
    }
}

/// The field access helpers of an entity's API module.
pub fn field_support(entity: &Entity, module: &str) -> (result: Result<String, CodegenError>)
    requires
        field_rules_owner_free(entity.fields@, true),
        field_rules_owner_free(entity.fields@, false),
    ensures
        match result {
            Ok(text) => field_support_spec(*entity, module@) == Ok::<Seq<char>, Seq<char>>(text@),
            Err(error) => field_support_spec(*entity, module@) == Err::<Seq<char>, Seq<char>>(error@),
        },
{
    let read_arms = field_access_arms(entity, true);
    let write_arms = field_access_arms(entity, false);
    let read_redactions = read_redactions(entity);
    let create_guards = write_guards(entity, false)?;
    let update_guards = write_guards(entity, true)?;
    let read_arms = &read_arms;
    let write_arms = &write_arms;
    let read_redactions = &read_redactions;
    let create_guards = &create_guards;
    let update_guards = &update_guards;
    let mut text = String::from_str("#[allow(dead_code, unused_variables, unused_mut)] fn field_read_allowed(context: &RequestContext, field: &str) -> bool { ");
    text.append("match field { ");
    append_suffixed(&mut text, read_arms, ", ");
    text.append(" _ => true, } } ");
    text.append("#[allow(dead_code, unused_variables, unused_mut)] fn field_write_allowed(context: &RequestContext, field: &str) -> bool { ");
    text.append("match field { ");
    append_suffixed(&mut text, write_arms, ", ");
    text.append(" _ => true, } } ");
    text.append("#[allow(dead_code, unused_variables, unused_mut)] fn redact_model(context: &RequestContext, model: ");
    text.append(module);
    text.append("::Model,) -> Result<serde_json::Value, ApiError> { ");
    text.append("let mut value = serde_json::to_value(model).map_err(|_| ApiError::Internal)?; ");
    append_suffixed(&mut text, read_redactions, " ");
    text.append(" Ok(value) } ");
    text.append("#[allow(dead_code, unused_variables, unused_mut)] fn authorize_create_fields(context: &RequestContext, input: &CreateInput,) -> Result<(), ApiError> { ");
    append_suffixed(&mut text, create_guards, " ");
    text.append(" Ok(()) } ");
    text.append("#[allow(dead_code, unused_variables, unused_mut)] fn authorize_update_fields(context: &RequestContext, input: &UpdateInput,) -> Result<(), ApiError> { ");
    append_suffixed(&mut text, update_guards, " ");
    text.append(" Ok(()) }");
    Ok(text)
}

} // verus!
