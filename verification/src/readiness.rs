use vstd::prelude::*;
use vstd::string::StringExecFns;
use crate::access::{all_owner_free, owner_free};
use crate::collections::{collections_ready, field_with_id, owner_of, relation_targets_exist, rows_ready, workflow_field};
use crate::endpoints::{api_ready, EndpointInputs};
use crate::field_access::{field_rule, field_rules_owner_free};
use crate::fields::{find_entity, find_entity_spec};
use crate::ir::{AccessRule, AppIr, Entity, Field, FieldType};
use crate::values::{default_parses, default_used, defaults_parse, parse_integer};
use crate::workflow::{find_value, input_exists, workflow_ready};

verus! {

/// Whether a rule names no owner.
#[verifier::loop_isolation(false)]
pub fn rule_owner_free(rule: &AccessRule) -> (free: bool)
    ensures
        free == owner_free(*rule),
    decreases rule,
{
    match rule {
        AccessRule::Owner { .. } => false,
        AccessRule::Any { rules } => {
            let mut free = true;
            let mut i: usize = 0;
            while i < rules.len()
                invariant
                    i <= rules.len(),
                    free == all_owner_free(rules@.subrange(0, i as int)),
                decreases rules.len() - i,
            {
                proof {
                    assert(rules@.subrange(0, i + 1).subrange(0, i as int) == rules@.subrange(0, i as int));
                    assert(decreases_to!(rules => rules@));
                    assert(decreases_to!(rules@ => rules@[i as int]));
                }
                let child = rule_owner_free(&rules[i]);
                free = free && child;
                i = i + 1;
            }
            proof {
                assert(rules@.subrange(0, rules@.len() as int) == rules@);
            }
            free
        },
        AccessRule::All { rules } => {
            let mut free = true;
            let mut i: usize = 0;
            while i < rules.len()
                invariant
                    i <= rules.len(),
                    free == all_owner_free(rules@.subrange(0, i as int)),
                decreases rules.len() - i,
            {
                proof {
                    assert(rules@.subrange(0, i + 1).subrange(0, i as int) == rules@.subrange(0, i as int));
                    assert(decreases_to!(rules => rules@));
                    assert(decreases_to!(rules@ => rules@[i as int]));
                }
                let child = rule_owner_free(&rules[i]);
                free = free && child;
                i = i + 1;
            }
            proof {
                assert(rules@.subrange(0, rules@.len() as int) == rules@);
            }
            free
        },
        _ => true,
    }
}

/// Whether no field's read (`read`) or write rule names an owner.
pub fn field_rules_free(fields: &Vec<Field>, read: bool) -> (free: bool)
    ensures
        free == field_rules_owner_free(fields@, read),
{
    let mut i: usize = 0;
    while i < fields.len()
        invariant
            i <= fields.len(),
            forall|j: int| 0 <= j < i ==> (#[trigger] field_rule(fields@[j], read) matches Some(rule) ==> owner_free(rule)),
        decreases fields.len() - i,
    {
        let rule = if read { &fields[i].read_access } else { &fields[i].write_access };
        match rule {
            Some(rule) => {
                if !rule_owner_free(rule) {
                    proof {
                        assert(field_rule(fields@[i as int], read) == Some(*rule));
                    }
                    return false;
                }
            },
            None => {},
        }
        proof {
            assert(field_rule(fields@[i as int], read) matches Some(r) ==> owner_free(r));
        }
        i = i + 1;
    }
    true
}

/// Whether a default is one its field type accepts.
pub fn default_accepted(ty: &FieldType, default: &String) -> (accepted: bool)
    ensures
        accepted == default_parses(*ty, default@),
{
    match ty {
        FieldType::Integer => parse_integer(default.as_str(), 0x7fff_ffff).is_some(),
        FieldType::Bigint => parse_integer(default.as_str(), 0x7fff_ffff_ffff_ffff).is_some(),
        FieldType::Boolean => {
            let yes = String::from_str("true");
            let no = String::from_str("false");
            *default == yes || *default == no
        },
        _ => true,
    }
}

/// Whether every default that creation uses parses for its field.
pub fn defaults_accepted(entity: &Entity) -> (accepted: bool)
    ensures
        accepted == defaults_parse(*entity),
{
    let mut i: usize = 0;
    while i < entity.fields.len()
        invariant
            i <= entity.fields.len(),
            forall|j: int| 0 <= j < i && #[trigger] default_used(*entity, entity.fields@[j])
                ==> default_parses(entity.fields@[j].ty, entity.fields@[j].default->0@),
        decreases entity.fields.len() - i,
    {
        let field = &entity.fields[i];
        if !entity.is_workflow_field(field) && field.generated.is_none() {
            match &field.default {
                Some(default) => {
                    if !default_accepted(&field.ty, default) {
                        proof {
                            assert(default_used(*entity, entity.fields@[i as int]));
                        }
                        return false;
                    }
                },
                None => {},
            }
        }
        i = i + 1;
    }
    true
}

/// Whether every relation of the entity names an entity of the model.
pub fn relation_targets_found(ir: &AppIr, entity: &Entity) -> (found: bool)
    ensures
        found == relation_targets_exist(*ir, *entity),
{
    let mut i: usize = 0;
    while i < entity.fields.len()
        invariant
            i <= entity.fields.len(),
            forall|j: int| 0 <= j < i ==> (#[trigger] entity.fields@[j].ty matches FieldType::Relation { target }
                ==> find_entity_spec(ir.entities@, target@) is Some),
        decreases entity.fields.len() - i,
    {
        match &entity.fields[i].ty {
            FieldType::Relation { target } => {
                if find_entity(ir, target.as_str()).is_err() {
                    return false;
                }
            },
            _ => {},
        }
        i = i + 1;
    }
    true
}

/// Whether the entity's collections name entities of the model and, where a
/// parent owns the entity's records, the entity can serve as its rows.
pub fn collections_found(ir: &AppIr, entity: &Entity) -> (found: bool)
    ensures
        found == collections_ready(*ir, *entity),
{
    let aggregates = &entity.views.aggregates;
    let mut i: usize = 0;
    while i < aggregates.len()
        invariant
            i <= aggregates.len(),
            aggregates == &entity.views.aggregates,
            forall|j: int| 0 <= j < i ==> find_entity_spec(ir.entities@, (#[trigger] aggregates@[j]).child@) is Some,
        decreases aggregates.len() - i,
    {
        if find_entity(ir, aggregates[i].child.as_str()).is_err() {
            return false;
        }
        i = i + 1;
    }
    match owner_of(&ir.entities, &entity.id) {
        None => true,
        Some(aggregate) => {
            let related = field_with_id(&entity.fields, aggregate.relation.as_str()).is_some();
            let defaults = defaults_accepted(entity);
            let targets = relation_targets_found(ir, entity);
            proof {
                assert(rows_ready(*ir, *entity, *aggregate) == (related && defaults && targets));
            }
            related && defaults && targets
        },
    }
}

/// Whether the entity's workflow, if any, has its state field, one access
/// expression per transition, and every transition's input value object.
pub fn workflow_found(ir: &AppIr, entity: &Entity, inputs: &EndpointInputs) -> (found: bool)
    ensures
        found == workflow_ready(*ir, *entity, crate::fields::texts(inputs.transition_access@)),
{
    match &entity.workflow {
        None => true,
        Some(workflow) => {
            if field_with_id(&entity.fields, workflow.field.as_str()).is_none() {
                proof {
                    assert(workflow_field(*entity) is None);
                }
                return false;
            }
            if inputs.transition_access.len() != workflow.transitions.len() {
                return false;
            }
            let transitions = &workflow.transitions;
            let mut i: usize = 0;
            while i < transitions.len()
                invariant
                    i <= transitions.len(),
                    entity.workflow is Some,
                    transitions@ == entity.workflow->0.transitions@,
                    forall|j: int| 0 <= j < i ==> input_exists(*ir, #[trigger] transitions@[j]),
                decreases transitions.len() - i,
            {
                match &transitions[i].input {
                    Some(id) => {
                        if find_value(&ir.value_objects, id).is_none() {
                            proof {
                                assert(!input_exists(*ir, transitions@[i as int]));
                                assert(entity.workflow->0.transitions@[i as int] == transitions@[i as int]);
                            }
                            return false;
                        }
                    },
                    None => {},
                }
                i = i + 1;
            }
            true
        },
    }
}

/// Whether the entity's endpoint inputs fit it: one scalar attribute set and
/// one related scope per field, defaults that parse, owner-free field rules,
/// collections and workflow inputs that the model holds. The endpoint module
/// of an entity can be planned exactly where this holds.
pub fn api_inputs_ready(ir: &AppIr, entity: &Entity, inputs: &EndpointInputs) -> (ready: bool)
    ensures
        ready == api_ready(*ir, *entity, *inputs),
{
    inputs.scalars.len() == entity.fields.len()
        && inputs.related_scopes.len() == entity.fields.len()
        && defaults_accepted(entity)
        && field_rules_free(&entity.fields, true)
        && field_rules_free(&entity.fields, false)
        && collections_found(ir, entity)
        && workflow_found(ir, entity, inputs)
}

} // verus!
