use vstd::prelude::*;
use crate::aggregate::aggregate_handler_text;
use crate::bulk::import_text;
use crate::billing::join_text;
use crate::field_access::literal_text;
use crate::ir::{AppIr, Transition};
use crate::list::list_handler_text;
use crate::report::report_create_text;
use crate::scheduling::{dispatch_handler_text, dispatch_text, retention_schedule_text, schedule_definitions_text, schedule_table_text};
use crate::text::{contains_text, lemma_contains_middle};
use crate::workflow::{capability_check_text, target_arm_text, transition_spec};

verus! {

/// Law: the list endpoint numbers its pages from 1. Without `page` it serves
/// page 1 of 25 rows, it refuses page 0, and for page `p` it fetches the
/// paginator's page `p - 1` (the paginator counts from 0): the rows at
/// positions `(p - 1) * page_size` to `p * page_size - 1` of the ordered
/// selection. In cursor mode it reads one row more than the limit (25 by
/// default) and drops it, which tells whether more rows follow.
pub proof fn law_list_pages_count_from_one(module: Seq<char>, policy: Seq<char>, validation: Seq<char>, scope: Seq<char>, filters: Seq<Seq<char>>, relation_filters: Seq<Seq<char>>, search: Seq<char>, cursor_value: Seq<char>, primary: Seq<char>, primary_name: Seq<char>, sorts: Seq<Seq<char>>)
    ensures
        contains_text(list_handler_text(module, policy, validation, scope, filters, relation_filters, search, cursor_value, primary, primary_name, sorts), "let page = query.page.unwrap_or(1);"@),
        contains_text(list_handler_text(module, policy, validation, scope, filters, relation_filters, search, cursor_value, primary, primary_name, sorts), "if page == 0 || !(1..=100).contains(&page_size)"@),
        contains_text(list_handler_text(module, policy, validation, scope, filters, relation_filters, search, cursor_value, primary, primary_name, sorts), "select.paginate(&state.database, page_size).fetch_page(page - 1)"@),
        contains_text(list_handler_text(module, policy, validation, scope, filters, relation_filters, search, cursor_value, primary, primary_name, sorts), "let page_size = query.page_size.unwrap_or(25);"@),
        contains_text(list_handler_text(module, policy, validation, scope, filters, relation_filters, search, cursor_value, primary, primary_name, sorts), "let limit = query.limit.unwrap_or(25);"@),
        contains_text(list_handler_text(module, policy, validation, scope, filters, relation_filters, search, cursor_value, primary, primary_name, sorts), ".limit(limit + 1)"@),
        contains_text(list_handler_text(module, policy, validation, scope, filters, relation_filters, search, cursor_value, primary, primary_name, sorts), "let has_more = data.len() > usize::try_from(limit).unwrap_or(usize::MAX);"@),
        contains_text(list_handler_text(module, policy, validation, scope, filters, relation_filters, search, cursor_value, primary, primary_name, sorts), "data.pop();"@),
{
    broadcast use crate::text::group_contains_text;
    reveal_strlit("let page_size = query.page_size.unwrap_or(25); ");
    reveal_strlit("let page_size = query.page_size.unwrap_or(25);");
    crate::text::lemma_contains_at("let page_size = query.page_size.unwrap_or(25); "@, "let page_size = query.page_size.unwrap_or(25);"@, 0);
    reveal_strlit("} let limit = query.limit.unwrap_or(25); if !(1..=100).contains(&limit) { ");
    reveal_strlit("let limit = query.limit.unwrap_or(25);");
    crate::text::lemma_contains_at("} let limit = query.limit.unwrap_or(25); if !(1..=100).contains(&limit) { "@, "let limit = query.limit.unwrap_or(25);"@, 2);
    reveal_strlit(").limit(limit + 1).all(&state.database).await?; ");
    reveal_strlit(".limit(limit + 1)");
    crate::text::lemma_contains_at(").limit(limit + 1).all(&state.database).await?; "@, ".limit(limit + 1)"@, 1);
    reveal_strlit("let has_more = data.len() > usize::try_from(limit).unwrap_or(usize::MAX); if has_more { ");
    reveal_strlit("let has_more = data.len() > usize::try_from(limit).unwrap_or(usize::MAX);");
    crate::text::lemma_contains_at("let has_more = data.len() > usize::try_from(limit).unwrap_or(usize::MAX); if has_more { "@, "let has_more = data.len() > usize::try_from(limit).unwrap_or(usize::MAX);"@, 0);
    reveal_strlit("data.pop(); } let next_cursor = has_more.then(|| { ");
    reveal_strlit("data.pop();");
    crate::text::lemma_contains_at("data.pop(); } let next_cursor = has_more.then(|| { "@, "data.pop();"@, 0);
    reveal_strlit("limit, next_cursor, has_more }, })); } let page = query.page.unwrap_or(1); ");
    reveal_strlit("let page = query.page.unwrap_or(1);");
    crate::text::lemma_contains_at("limit, next_cursor, has_more }, })); } let page = query.page.unwrap_or(1); "@, "let page = query.page.unwrap_or(1);"@, 39);
    reveal_strlit("if page == 0 || !(1..=100).contains(&page_size) { ");
    reveal_strlit("if page == 0 || !(1..=100).contains(&page_size)");
    crate::text::lemma_contains_at("if page == 0 || !(1..=100).contains(&page_size) { "@, "if page == 0 || !(1..=100).contains(&page_size)"@, 0);
    reveal_strlit("let data = select.paginate(&state.database, page_size).fetch_page(page - 1).await?.into_iter().map(|model| redact_model(&context, model)).collect::<Result<Vec<_>, _>>()?; ");
    reveal_strlit("select.paginate(&state.database, page_size).fetch_page(page - 1)");
    crate::text::lemma_contains_at("let data = select.paginate(&state.database, page_size).fetch_page(page - 1).await?.into_iter().map(|model| redact_model(&context, model)).collect::<Result<Vec<_>, _>>()?; "@, "select.paginate(&state.database, page_size).fetch_page(page - 1)"@, 11);
}

/// Law: an aggregate request that names no metrics asks for the row count:
/// the metric list the endpoint evaluates is read from `"count"` when the
/// query has no `metrics`, so such a request is never refused for want of one;
/// only a request whose metrics are all blank is.
pub proof fn law_aggregate_metrics_default_to_count(module: Seq<char>, policy: Seq<char>, validation: Seq<char>, scope: Seq<char>, filters: Seq<Seq<char>>, relation_filters: Seq<Seq<char>>, search: Seq<char>, metrics: Seq<Seq<char>>, groups: Seq<Seq<char>>)
    ensures
        contains_text(aggregate_handler_text(module, policy, validation, scope, filters, relation_filters, search, metrics, groups), "let metrics = query.metrics.as_deref().unwrap_or(\"count\")"@),
        contains_text(aggregate_handler_text(module, policy, validation, scope, filters, relation_filters, search, metrics, groups), "if metrics.is_empty() {"@),
{
    broadcast use crate::text::group_contains_text;
    reveal_strlit("if metrics.is_empty() { ");
    reveal_strlit("if metrics.is_empty() {");
    crate::text::lemma_contains_at("if metrics.is_empty() { "@, "if metrics.is_empty() {"@, 0);
    reveal_strlit("let metrics = query.metrics.as_deref().unwrap_or(\"count\").split(',').map(str::trim).filter(|metric| !metric.is_empty()).collect::<Vec<_>>(); ");
    reveal_strlit("let metrics = query.metrics.as_deref().unwrap_or(\"count\")");
    crate::text::lemma_contains_at("let metrics = query.metrics.as_deref().unwrap_or(\"count\").split(',').map(str::trim).filter(|metric| !metric.is_empty()).collect::<Vec<_>>(); "@, "let metrics = query.metrics.as_deref().unwrap_or(\"count\")"@, 0);
}

/// Law: the CSV import reads the first row as the column names only. The rows
/// it turns into records are the rows after it, and their ids count those data
/// rows from 0; it refuses a file with more data rows than its limit, and a row
/// whose number of cells differs from the header's fails on its own.
pub proof fn law_csv_import_skips_the_header(field_names: Seq<char>, field_match: Seq<Seq<char>>, hooks: Seq<char>, module: Seq<char>, create_allowed: Seq<char>, policy: Seq<char>, create_values: Seq<Seq<char>>, active_default: Seq<char>, audit: Seq<char>, create_event: Seq<char>)
    ensures
        contains_text(import_text(field_names, field_match, hooks, module, create_allowed, policy, create_values, active_default, audit, create_event), "let Some(header_row) = rows.first()"@),
        contains_text(import_text(field_names, field_match, hooks, module, create_allowed, policy, create_values, active_default, audit, create_event), "for (index, row) in rows.iter().skip(1).enumerate() { let row_id = index.to_string();"@),
        contains_text(import_text(field_names, field_match, hooks, module, create_allowed, policy, create_values, active_default, audit, create_event), "if rows.len() - 1 > MAX_CSV_IMPORT_ROWS {"@),
        contains_text(import_text(field_names, field_match, hooks, module, create_allowed, policy, create_values, active_default, audit, create_event), "if row.len() != header_row.len() {"@),
{
    broadcast use crate::text::group_contains_text;
    reveal_strlit("if rows.len() - 1 > MAX_CSV_IMPORT_ROWS { ");
    reveal_strlit("if rows.len() - 1 > MAX_CSV_IMPORT_ROWS {");
    crate::text::lemma_contains_at("if rows.len() - 1 > MAX_CSV_IMPORT_ROWS { "@, "if rows.len() - 1 > MAX_CSV_IMPORT_ROWS {"@, 0);
    reveal_strlit("if row.len() != header_row.len() { ");
    reveal_strlit("if row.len() != header_row.len() {");
    crate::text::lemma_contains_at("if row.len() != header_row.len() { "@, "if row.len() != header_row.len() {"@, 0);
    reveal(import_text);
    reveal_strlit("let Some(header_row) = rows.first() else { return Ok(Json(BulkResult { ");
    reveal_strlit("let Some(header_row) = rows.first()");
    crate::text::lemma_contains_at("let Some(header_row) = rows.first() else { return Ok(Json(BulkResult { "@, "let Some(header_row) = rows.first()"@, 0);
    reveal_strlit("for (index, row) in rows.iter().skip(1).enumerate() { let row_id = index.to_string(); ");
    reveal_strlit("for (index, row) in rows.iter().skip(1).enumerate() { let row_id = index.to_string();");
    crate::text::lemma_contains_at("for (index, row) in rows.iter().skip(1).enumerate() { let row_id = index.to_string(); "@, "for (index, row) in rows.iter().skip(1).enumerate() { let row_id = index.to_string();"@, 0);
}

/// Law: where reports are on, every job kind that the generated backend
/// enqueues for reports goes to the report handler. Creating a report enqueues
/// `report.render`, the schedule table enqueues `report.cleanup` daily, and the
/// generated job handler sends both kinds to the report handler before any
/// custom handler sees them; where mail is on, `mail.send` jobs go to the
/// mail handler.
pub proof fn law_report_jobs_reach_the_report_handler(ir: AppIr, audit: Seq<char>)
    ensures
        contains_text(report_create_text(audit), "crate::jobs::enqueue(&transaction, REPORT_QUEUE, \"report.render\""@),
        ir.report.enabled ==> contains_text(schedule_definitions_text(ir), "kind: \"report.cleanup\""@),
        ir.mail.enabled ==> (dispatch_text(ir) matches Some(handler) && contains_text(handler, "if job.kind == \"mail.send\" { return self.mail.handle(job).await; }"@)),
        ir.report.enabled ==> (dispatch_text(ir) matches Some(handler) && contains_text(handler, "if matches!(job.kind.as_str(), \"report.render\" | \"report.cleanup\") { return self.report.handle(job).await; }"@)),
{
    broadcast use crate::text::group_contains_text;
    reveal(report_create_text);
    reveal(retention_schedule_text);
    reveal(schedule_table_text);
    reveal(dispatch_handler_text);
    reveal_strlit("let receipt = crate::jobs::enqueue(&transaction, REPORT_QUEUE, \"report.render\", &ReportJobPayload { ");
    reveal_strlit("crate::jobs::enqueue(&transaction, REPORT_QUEUE, \"report.render\"");
    crate::text::lemma_contains_at("let receipt = crate::jobs::enqueue(&transaction, REPORT_QUEUE, \"report.render\", &ReportJobPayload { "@, "crate::jobs::enqueue(&transaction, REPORT_QUEUE, \"report.render\""@, 14);
    reveal_strlit(", kind: \"report.cleanup\", payload: \"{}\", }");
    reveal_strlit("kind: \"report.cleanup\"");
    crate::text::lemma_contains_at(", kind: \"report.cleanup\", payload: \"{}\", }"@, "kind: \"report.cleanup\""@, 2);
    crate::text::lemma_contains_self("if job.kind == \"mail.send\" { return self.mail.handle(job).await; }"@);
    crate::text::lemma_contains_self("if matches!(job.kind.as_str(), \"report.render\" | \"report.cleanup\") { return self.report.handle(job).await; }"@);
}

/// What a capability says of a transition: its name and the state it leads to.
pub open spec fn capability_text(name: Seq<char>, target: Seq<char>) -> Seq<char> {
    "name: "@ + name + ".to_owned(), to: "@ + target + ".to_owned()"@
}

/// What a target arm says of a transition: from the states it leaves, it
/// moves the record to its target.
pub open spec fn move_text(name: Seq<char>, target: Seq<char>) -> Seq<char> {
    "=> ("@ + name + ", "@ + target + ")"@
}

proof fn lemma_capability_check_names_target(
    sources: Seq<Seq<char>>,
    field_name: Seq<char>,
    target: Seq<char>,
    allowed: Seq<char>,
    policy: Seq<char>,
    name: Seq<char>,
    input: Seq<char>,
)
    ensures
        contains_text(capability_check_text(sources, field_name, target, allowed, policy, name, input), capability_text(name, target)),
{
    reveal(capability_check_text);
    reveal_strlit(".to_owned(), input: ");
    reveal_strlit(".to_owned()");
    reveal_strlit(", input: ");
    assert(".to_owned(), input: "@ =~= ".to_owned()"@ + ", input: "@);
    let before = "if ["@
        + join_text(sources, ", "@)
        + "].contains(&before."@
        + field_name
        + ".as_str()) { let candidate = workflow_candidate(before, "@
        + target
        + ")?; if ("@
        + allowed
        + ") && state.extensions."@
        + policy
        + "().can_view_transition(&context, "@
        + name
        + ", before, &candidate).await? { allowed_transitions.push(WorkflowTransitionCapability { "@;
    let after = ", input: "@ + input + ", }); } }"@;
    assert(capability_check_text(sources, field_name, target, allowed, policy, name, input) =~= before + capability_text(name, target) + after);
    lemma_contains_middle(before, capability_text(name, target), after);
}

proof fn lemma_target_arm_moves_to_target(name: Seq<char>, sources: Seq<Seq<char>>, field_name: Seq<char>, target: Seq<char>)
    ensures
        contains_text(target_arm_text(name, sources, field_name, target), move_text(name, target)),
{
    reveal(target_arm_text);
    reveal_strlit(".as_str()) => (");
    reveal_strlit(".as_str()) ");
    reveal_strlit("=> (");
    reveal_strlit("), ");
    reveal_strlit(")");
    reveal_strlit(", ");
    assert(".as_str()) => ("@ =~= ".as_str()) "@ + "=> ("@);
    assert("), "@ =~= ")"@ + ", "@);
    let before = name + " if ["@ + join_text(sources, ", "@) + "].contains(&before."@ + field_name + ".as_str()) "@;
    let after = ", "@ + name + " => return Err(ApiError::InvalidWorkflowState),"@;
    assert(target_arm_text(name, sources, field_name, target) =~= before + move_text(name, target) + after);
    lemma_contains_middle(before, move_text(name, target), after);
}

/// Law: the capabilities endpoint lists each transition with the state it
/// leads to. The capability a transition adds names the transition and has
/// `to` equal to its target state, the state the transition endpoint moves
/// the record to.
pub proof fn law_capabilities_name_the_target_state(
    ir: AppIr,
    transition: Transition,
    allowed: Seq<char>,
    field_name: Seq<char>,
    policy: Seq<char>,
)
    ensures
        transition_spec(ir, transition, allowed, field_name, policy) matches Ok(pieces) ==> {
            &&& contains_text(pieces.4, capability_text(literal_text(transition.name@), literal_text(transition.to@)))
            &&& contains_text(pieces.2, move_text(literal_text(transition.name@), literal_text(transition.to@)))
        },
{
    let name = literal_text(transition.name@);
    let target = literal_text(transition.to@);
    let sources = crate::collections::states_text(transition.from@);
    lemma_target_arm_moves_to_target(name, sources, field_name, target);
    lemma_capability_check_names_target(sources, field_name, target, allowed, policy, name, "None"@);
    if let Some(id) = transition.input {
        let value = crate::expressions::find_value_spec(ir.value_objects@, id@)->Some_0;
        lemma_capability_check_names_target(
            sources,
            field_name,
            target,
            allowed,
            policy,
            name,
            "Some("@ + literal_text(value.rust_name@) + ".to_owned())"@,
        );
    }
}

} // verus!
