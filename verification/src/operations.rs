use vstd::prelude::*;
use vstd::string::StringExecFns;
use crate::access::{guard_text, operation_allowed, owner_free};
use crate::artifact::CodegenError;
use crate::expressions::{operation_type, operation_type_spec};
use crate::field_access::{literal_text, string_literal};
use crate::fields::texts;
use crate::ident::{ident_result, parse_ident};
use crate::ir::{AppIr, Command, Field, OperationType, Query};
use crate::naming::{kebab_name, kebab_text, snake_name, snake_text};
use crate::source::{render, render_spec};
use crate::text::{append_suffixed, suffixed_text};

verus! {

/// The guard of an operation rule.
pub open spec fn operation_guard(rule: crate::ir::AccessRule) -> Seq<char> {
    guard_text(Seq::<Field>::empty(), rule, Seq::<char>::empty(), None)
}

/// The operations module of an application without commands or queries.
pub open spec fn empty_operations_text() -> Seq<char> {
    "use crate::AppState; use axum::Router; pub fn router() -> Router<AppState> { "@
        + "Router::new() }"@
}

/// A `POST` route to an operation's handler.
pub open spec fn post_route_text(path: Seq<char>, function: Seq<char>) -> Seq<char> {
    ".route("@
        + path
        + ", axum::routing::post("@
        + function
        + "))"@
}

/// A `GET` route to a query's handler.
pub open spec fn get_route_text(path: Seq<char>, function: Seq<char>) -> Seq<char> {
    ".route("@
        + path
        + ", axum::routing::get("@
        + function
        + "))"@
}

/// The handler of a command, or of a query with input: the operation's guard
/// is checked in a mutation context, then the application's handler runs.
pub open spec fn input_handler_text(
    function: Seq<char>,
    input: Seq<char>,
    output: Seq<char>,
    allowed: Seq<char>,
    trait_name: Seq<char>,
) -> Seq<char> {
    "async fn "@
        + function
        + "(axum::extract::State(state): axum::extract::State<AppState>, headers: axum::http::HeaderMap, axum::Json(input): axum::Json<"@
        + input
        + ">,) -> Result<axum::Json<"@
        + output
        + ">, ApiError> { let context = state.mutation_context(&headers).await?; if !("@
        + allowed
        + ") { return Err(access_denied(&context)); } let output = "@
        + trait_name
        + "::execute(state.extensions.handlers(), &context, input).await?; Ok(axum::Json(output)) }"@
}

/// The handler of a query without input: the guard is checked in a read context.
pub open spec fn plain_handler_text(function: Seq<char>, output: Seq<char>, allowed: Seq<char>, trait_name: Seq<char>) -> Seq<char> {
    "async fn "@
        + function
        + "(axum::extract::State(state): axum::extract::State<AppState>, headers: axum::http::HeaderMap,) -> Result<axum::Json<"@
        + output
        + ">, ApiError> { let context = state.context(&headers).await?; if !("@
        + allowed
        + ") { return Err(access_denied(&context)); } let output = "@
        + trait_name
        + "::execute(state.extensions.handlers(), &context).await?; Ok(axum::Json(output)) }"@
}

/// The operations module: its router, the handlers, and the refusal helper.
pub open spec fn operations_text(routes: Seq<Seq<char>>, handlers: Seq<Seq<char>>) -> Seq<char> {
    "use crate::{AppState, ApiError, entities, extensions::*}; use axum::Router; "@
        + "pub fn router() -> Router<AppState> { Router::new() "@
        + suffixed_text(routes, " "@)
        + " } "@
        + suffixed_text(handlers, " "@)
        + " fn access_denied(context: &RequestContext) -> ApiError { if context.actor().is_some() { "@
        + "ApiError::Forbidden } else { ApiError::Unauthorized } }"@
}

/// The route path of an operation: `/api/<kind>/<kebab name>`, as a string literal.
pub open spec fn operation_path(kind: Seq<char>, rust_name: Seq<char>) -> Seq<char> {
    literal_text("/api/"@ + kind + "/"@ + kebab_text(rust_name))
}

/// The route and handler of a command, or the first error: the handler's name,
/// then the input type, then the output type.
pub open spec fn command_spec(ir: AppIr, command: Command) -> Result<(Seq<char>, Seq<char>), Seq<char>> {
    match ident_result(snake_text(command.rust_name@)) {
        Err(error) => Err(error),
        Ok(function) => match operation_type_spec(ir, command.input) {
            Err(error) => Err(error),
            Ok(input) => match operation_type_spec(ir, command.output) {
                Err(error) => Err(error),
                Ok(output) => Ok((
                    post_route_text(operation_path("commands"@, command.rust_name@), function),
                    input_handler_text(
                        function,
                        input,
                        output,
                        operation_guard(command.access),
                        command.rust_name@ + "Handler"@,
                    ),
                )),
            },
        },
    }
}

/// The route and handler of a query, or the first error: the handler's name,
/// then the output type, then the input type where there is one.
pub open spec fn query_spec(ir: AppIr, query: Query) -> Result<(Seq<char>, Seq<char>), Seq<char>> {
    match ident_result(snake_text(query.rust_name@)) {
        Err(error) => Err(error),
        Ok(function) => match operation_type_spec(ir, query.output) {
            Err(error) => Err(error),
            Ok(output) => match query.input {
                Some(ty) => match operation_type_spec(ir, ty) {
                    Err(error) => Err(error),
                    Ok(input) => Ok((
                        post_route_text(operation_path("queries"@, query.rust_name@), function),
                        input_handler_text(
                            function,
                            input,
                            output,
                            operation_guard(query.access),
                            query.rust_name@ + "Handler"@,
                        ),
                    )),
                },
                None => Ok((
                    get_route_text(operation_path("queries"@, query.rust_name@), function),
                    plain_handler_text(function, output, operation_guard(query.access), query.rust_name@ + "Handler"@),
                )),
            },
        },
    }
}

/// The routes and handlers of the commands, in order, or the first error.
pub open spec fn commands_spec(ir: AppIr, commands: Seq<Command>) -> Result<(Seq<Seq<char>>, Seq<Seq<char>>), Seq<char>>
    decreases commands.len(),
{
    if commands.len() == 0 {
        Ok((Seq::<Seq<char>>::empty(), Seq::<Seq<char>>::empty()))
    } else {
        match commands_spec(ir, commands.drop_last()) {
            Err(error) => Err(error),
            Ok((routes, handlers)) => match command_spec(ir, commands.last()) {
                Err(error) => Err(error),
                Ok((route, handler)) => Ok((routes.push(route), handlers.push(handler))),
            },
        }
    }
}

/// The routes and handlers of the queries, in order, or the first error.
pub open spec fn queries_spec(ir: AppIr, queries: Seq<Query>) -> Result<(Seq<Seq<char>>, Seq<Seq<char>>), Seq<char>>
    decreases queries.len(),
{
    if queries.len() == 0 {
        Ok((Seq::<Seq<char>>::empty(), Seq::<Seq<char>>::empty()))
    } else {
        match queries_spec(ir, queries.drop_last()) {
            Err(error) => Err(error),
            Ok((routes, handlers)) => match query_spec(ir, queries.last()) {
                Err(error) => Err(error),
                Ok((route, handler)) => Ok((routes.push(route), handlers.push(handler))),
            },
        }
    }
}

/// The generated operations module, or the first error: commands before queries.
pub open spec fn operations_spec(ir: AppIr, header: Seq<char>) -> Result<Seq<char>, Seq<char>> {
    if ir.commands.len() == 0 && ir.queries.len() == 0 {
        render_spec(empty_operations_text(), header)
    } else {
        match commands_spec(ir, ir.commands@) {
            Err(error) => Err(error),
            Ok((command_routes, command_handlers)) => match queries_spec(ir, ir.queries@) {
                Err(error) => Err(error),
                Ok((query_routes, query_handlers)) => render_spec(
                    operations_text(command_routes + query_routes, command_handlers + query_handlers),
                    header,
                ),
            },
        }
    }
}

/// Every command and query rule is free of owner rules, as the compiler ensures.
pub open spec fn operation_rules_owner_free(ir: AppIr) -> bool {
    &&& forall|i: int| 0 <= i < ir.commands.len() ==> owner_free(#[trigger] ir.commands@[i].access)
    &&& forall|i: int| 0 <= i < ir.queries.len() ==> owner_free(#[trigger] ir.queries@[i].access)
}

proof fn lemma_commands_error(ir: AppIr, commands: Seq<Command>, k: int)
    requires
        0 <= k <= commands.len(),
        commands_spec(ir, commands.subrange(0, k)) is Err,
    ensures
        commands_spec(ir, commands) == commands_spec(ir, commands.subrange(0, k)),
    decreases commands.len() - k,
{
    if k < commands.len() {
        assert(commands.subrange(0, k + 1).drop_last() == commands.subrange(0, k));
        lemma_commands_error(ir, commands, k + 1);
    } else {
        assert(commands.subrange(0, k) == commands);
    }
}

proof fn lemma_queries_error(ir: AppIr, queries: Seq<Query>, k: int)
    requires
        0 <= k <= queries.len(),
        queries_spec(ir, queries.subrange(0, k)) is Err,
    ensures
        queries_spec(ir, queries) == queries_spec(ir, queries.subrange(0, k)),
    decreases queries.len() - k,
{
    if k < queries.len() {
        assert(queries.subrange(0, k + 1).drop_last() == queries.subrange(0, k));
        lemma_queries_error(ir, queries, k + 1);
    } else {
        assert(queries.subrange(0, k) == queries);
    }
}

fn operation_path_literal(kind: &str, rust_name: &str) -> (text: String)
    ensures
        text@ == operation_path(kind@, rust_name@),
{
    let mut path = String::from_str("/api/");
    path.append(kind);
    path.append("/");
    let kebab = kebab_name(rust_name);
    path.append(kebab.as_str());
    string_literal(path.as_str())
}

fn post_route(path: &str, function: &str) -> (text: String)
    ensures
        text@ == post_route_text(path@, function@),
{
    let mut text = String::from_str(".route(");
    text.append(path);
    text.append(", axum::routing::post(");
    text.append(function);
    text.append("))");
    text
}

fn get_route(path: &str, function: &str) -> (text: String)
    ensures
        text@ == get_route_text(path@, function@),
{
    let mut text = String::from_str(".route(");
    text.append(path);
    text.append(", axum::routing::get(");
    text.append(function);
    text.append("))");
    text
}

fn input_handler(function: &str, input: &str, output: &str, allowed: &str, trait_name: &str) -> (text: String)
    ensures
        text@ == input_handler_text(function@, input@, output@, allowed@, trait_name@),
{
    let mut text = String::from_str("async fn ");
    text.append(function);
    text.append("(axum::extract::State(state): axum::extract::State<AppState>, headers: axum::http::HeaderMap, axum::Json(input): axum::Json<");
    text.append(input);
    text.append(">,) -> Result<axum::Json<");
    text.append(output);
    text.append(">, ApiError> { let context = state.mutation_context(&headers).await?; if !(");
    text.append(allowed);
    text.append(") { return Err(access_denied(&context)); } let output = ");
    text.append(trait_name);
    text.append("::execute(state.extensions.handlers(), &context, input).await?; Ok(axum::Json(output)) }");
    text
}

fn plain_handler(function: &str, output: &str, allowed: &str, trait_name: &str) -> (text: String)
    ensures
        text@ == plain_handler_text(function@, output@, allowed@, trait_name@),
{
    let mut text = String::from_str("async fn ");
    text.append(function);
    text.append("(axum::extract::State(state): axum::extract::State<AppState>, headers: axum::http::HeaderMap,) -> Result<axum::Json<");
    text.append(output);
    text.append(">, ApiError> { let context = state.context(&headers).await?; if !(");
    text.append(allowed);
    text.append(") { return Err(access_denied(&context)); } let output = ");
    text.append(trait_name);
    text.append("::execute(state.extensions.handlers(), &context).await?; Ok(axum::Json(output)) }");
    text
}

fn handler_trait(rust_name: &str) -> (text: String)
    ensures
        text@ == rust_name@ + "Handler"@,
{
    let mut text = String::from_str(rust_name);
    text.append("Handler");
    text
}

fn push_command(
    ir: &AppIr,
    command: &Command,
    routes: &mut Vec<String>,
    handlers: &mut Vec<String>,
) -> (result: Result<(), CodegenError>)
    requires
        owner_free(command.access),
    ensures
        match result {
            Ok(()) => command_spec(*ir, *command) matches Ok((route, handler))
                && texts(final(routes)@) == texts(old(routes)@).push(route)
                && texts(final(handlers)@) == texts(old(handlers)@).push(handler),
            Err(error) => command_spec(*ir, *command) == Err::<(Seq<char>, Seq<char>), Seq<char>>(error@),
        },
{
    let snake = snake_name(command.rust_name.as_str());
    let function = parse_ident(snake.as_str())?;
    let path = operation_path_literal("commands", command.rust_name.as_str());
    let trait_name = handler_trait(command.rust_name.as_str());
    let input = operation_type(ir, &command.input)?;
    let output = operation_type(ir, &command.output)?;
    let allowed = operation_allowed(&command.access);
    let route = post_route(path.as_str(), function.as_str());
    let handler = input_handler(function.as_str(), input.as_str(), output.as_str(), allowed.as_str(), trait_name.as_str());
    let ghost old_routes = texts(routes@);
    let ghost old_handlers = texts(handlers@);
    routes.push(route);
    handlers.push(handler);
    proof {
        assert(texts(routes@) == old_routes.push(route@));
        assert(texts(handlers@) == old_handlers.push(handler@));
    }
    Ok(())
}

fn push_query(
    ir: &AppIr,
    query: &Query,
    routes: &mut Vec<String>,
    handlers: &mut Vec<String>,
) -> (result: Result<(), CodegenError>)
    requires
        owner_free(query.access),
    ensures
        match result {
            Ok(()) => query_spec(*ir, *query) matches Ok((route, handler))
                && texts(final(routes)@) == texts(old(routes)@).push(route)
                && texts(final(handlers)@) == texts(old(handlers)@).push(handler),
            Err(error) => query_spec(*ir, *query) == Err::<(Seq<char>, Seq<char>), Seq<char>>(error@),
        },
{
    let snake = snake_name(query.rust_name.as_str());
    let function = parse_ident(snake.as_str())?;
    let path = operation_path_literal("queries", query.rust_name.as_str());
    let trait_name = handler_trait(query.rust_name.as_str());
    let output = operation_type(ir, &query.output)?;
    let allowed = operation_allowed(&query.access);
    let (route, handler) = match &query.input {
        Some(ty) => {
            let input = operation_type(ir, ty)?;
            (
                post_route(path.as_str(), function.as_str()),
                input_handler(function.as_str(), input.as_str(), output.as_str(), allowed.as_str(), trait_name.as_str()),
            )
        },
        None => (
            get_route(path.as_str(), function.as_str()),
            plain_handler(function.as_str(), output.as_str(), allowed.as_str(), trait_name.as_str()),
        ),
    };
    let ghost old_routes = texts(routes@);
    let ghost old_handlers = texts(handlers@);
    routes.push(route);
    handlers.push(handler);
    proof {
        assert(texts(routes@) == old_routes.push(route@));
        assert(texts(handlers@) == old_handlers.push(handler@));
    }
    Ok(())
}

/// The generated operations module: a route and a handler for every command
/// and query, each handler checking the operation's access rule before the
/// application's handler runs. `header` opens the file.
pub fn operations_source(ir: &AppIr, header: &str) -> (result: Result<String, CodegenError>)
    requires
        operation_rules_owner_free(*ir),
    ensures
        match result {
            Ok(text) => operations_spec(*ir, header@) == Ok::<Seq<char>, Seq<char>>(text@),
            Err(error) => operations_spec(*ir, header@) == Err::<Seq<char>, Seq<char>>(error@),
        },
{
    if ir.commands.len() == 0 && ir.queries.len() == 0 {
        let mut text = String::from_str("use crate::AppState; use axum::Router; pub fn router() -> Router<AppState> { ");
        text.append("Router::new() }");
        return render(text.as_str(), header);
    }
    let mut routes: Vec<String> = Vec::new();
    let mut handlers: Vec<String> = Vec::new();
    let mut i: usize = 0;
    proof {
        assert(ir.commands@.subrange(0, 0) == Seq::<Command>::empty());
        assert(texts(routes@) == Seq::<Seq<char>>::empty());
        assert(texts(handlers@) == Seq::<Seq<char>>::empty());
    }
    while i < ir.commands.len()
        invariant
            i <= ir.commands.len(),
            operation_rules_owner_free(*ir),
            commands_spec(*ir, ir.commands@.subrange(0, i as int)) == Ok::<(Seq<Seq<char>>, Seq<Seq<char>>), Seq<char>>(
                (texts(routes@), texts(handlers@)),
            ),
        decreases ir.commands.len() - i,
    {
        proof {
            assert(ir.commands@.subrange(0, i + 1).drop_last() == ir.commands@.subrange(0, i as int));
            assert(owner_free(ir.commands@[i as int].access));
        }
        match push_command(ir, &ir.commands[i], &mut routes, &mut handlers) {
            Ok(()) => {},
            Err(error) => {
                proof {
                    lemma_commands_error(*ir, ir.commands@, i + 1);
                }
                return Err(error);
            },
        }
        i = i + 1;
    }
    proof {
        assert(ir.commands@.subrange(0, ir.commands@.len() as int) == ir.commands@);
    }
    let ghost command_routes = texts(routes@);
    let ghost command_handlers = texts(handlers@);
    let mut query_routes: Vec<String> = Vec::new();
    let mut query_handlers: Vec<String> = Vec::new();
    let mut j: usize = 0;
    proof {
        assert(ir.queries@.subrange(0, 0) == Seq::<Query>::empty());
        assert(texts(query_routes@) == Seq::<Seq<char>>::empty());
        assert(texts(query_handlers@) == Seq::<Seq<char>>::empty());
    }
    while j < ir.queries.len()
        invariant
            j <= ir.queries.len(),
            operation_rules_owner_free(*ir),
            !(ir.commands@.len() == 0 && ir.queries@.len() == 0),
            commands_spec(*ir, ir.commands@) is Ok,
            queries_spec(*ir, ir.queries@.subrange(0, j as int)) == Ok::<(Seq<Seq<char>>, Seq<Seq<char>>), Seq<char>>(
                (texts(query_routes@), texts(query_handlers@)),
            ),
        decreases ir.queries.len() - j,
    {
        proof {
            assert(ir.queries@.subrange(0, j + 1).drop_last() == ir.queries@.subrange(0, j as int));
            assert(owner_free(ir.queries@[j as int].access));
        }
        match push_query(ir, &ir.queries[j], &mut query_routes, &mut query_handlers) {
            Ok(()) => {},
            Err(error) => {
                proof {
                    lemma_queries_error(*ir, ir.queries@, j + 1);
                }
                return Err(error);
            },
        }
        j = j + 1;
    }
    proof {
        assert(ir.queries@.subrange(0, ir.queries@.len() as int) == ir.queries@);
    }
    let ghost all_routes = texts(routes@) + texts(query_routes@);
    let ghost all_handlers = texts(handlers@) + texts(query_handlers@);
    routes.append(&mut query_routes);
    handlers.append(&mut query_handlers);
    proof {
        assert(texts(routes@) =~= all_routes);
        assert(texts(handlers@) =~= all_handlers);
    }
    let routes = &routes;
    let handlers = &handlers;
    let mut text = String::from_str("use crate::{AppState, ApiError, entities, extensions::*}; use axum::Router; ");
    text.append("pub fn router() -> Router<AppState> { Router::new() ");
    append_suffixed(&mut text, routes, " ");
    text.append(" } ");
    append_suffixed(&mut text, handlers, " ");
    text.append(" fn access_denied(context: &RequestContext) -> ApiError { if context.actor().is_some() { ");
    text.append("ApiError::Forbidden } else { ApiError::Unauthorized } }");
    render(text.as_str(), header)
}

} // verus!
