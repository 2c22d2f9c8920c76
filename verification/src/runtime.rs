use vstd::prelude::*;
use vstd::string::StringExecFns;
use crate::artifact::CodegenError;
use crate::billing::{decimal, decimal_text};
use crate::fields::texts;
use crate::field_access::{literal_text, string_literal};
use crate::ident::{ident_result, parse_ident};
use crate::ir::{AppIr, Entity};
use crate::naming::{module_name, snake_text};
use crate::source::{render, render_spec};
use crate::text::{append_suffixed, suffixed_text};

verus! {

/// The application state and its health, which every handler reaches.
#[verifier::opaque]
pub open spec fn state_contract_text() -> Seq<char> {
    "#[derive(Clone)] pub struct AppState { "@
        + "pub database: DatabaseConnection, pub extensions: AppExtensions, pub auth: AuthState, pub mail: MailState, pub file: FileState, pub realtime: RealtimeState, health: ApplicationHealth, } "@
        + "impl AppState { "@
        + "pub async fn context(&self, headers: &HeaderMap) -> Result<RequestContext<'_>, ApiError> { "@
        + "let actor = self.auth.actor(&self.database, headers).await?; "@
        + "let tenant = tenant::resolve(&self.database, headers, actor.as_ref()).await?; "@
        + "Ok(RequestContext::connection_with_services(&self.database, &self.mail, &self.file, &self.realtime, actor, tenant,)) } "@
        + "} const HEALTH_STARTING: u8 = 0; const HEALTH_READY: u8 = 1; "@
        + "const HEALTH_DRAINING: u8 = 2; const HEALTH_FAILED: u8 = 3; "@
        + "#[derive(Clone)] pub struct ApplicationHealth { "@
        + "state: Arc<AtomicU8>, failure: Arc<RwLock<Option<String>>>, } impl ApplicationHealth { "@
        + "fn with_state(state: u8) -> Self { Self { "@
        + "state: Arc::new(AtomicU8::new(state)), failure: Arc::new(RwLock::new(None)), } } "@
        + "fn starting() -> Self { Self::with_state(HEALTH_STARTING) } fn ready() -> Self { "@
        + "Self::with_state(HEALTH_READY) } fn mark_ready(&self) { "@
        + "self.state.store(HEALTH_READY, Ordering::Release); } fn mark_draining(&self) { "@
        + "self.state.store(HEALTH_DRAINING, Ordering::Release); } "@
        + "pub fn mark_failed(&self, message: impl Into<String>) { "@
        + "if self.state.load(Ordering::Acquire) == HEALTH_DRAINING { return; } "@
        + "let message = message.into(); if let Ok(mut failure) = self.failure.write() { "@
        + "*failure = Some(message.clone()); } self.state.store(HEALTH_FAILED, Ordering::Release); "@
        + "tracing::error!(%message, \"application health failed\"); } fn is_ready(&self) -> bool { "@
        + "let no_failure = self.failure.read().is_ok_and(|failure| failure.is_none()); "@
        + "self.state.load(Ordering::Acquire) == HEALTH_READY && no_failure } }"@
}

fn state_contract() -> (text: String)
    ensures
        text@ == state_contract_text(),
{
    proof {
        reveal(state_contract_text);
    }
    let mut text = String::from_str("#[derive(Clone)] pub struct AppState { ");
    text.append("pub database: DatabaseConnection, pub extensions: AppExtensions, pub auth: AuthState, pub mail: MailState, pub file: FileState, pub realtime: RealtimeState, health: ApplicationHealth, } ");
    text.append("impl AppState { ");
    text.append("pub async fn context(&self, headers: &HeaderMap) -> Result<RequestContext<'_>, ApiError> { ");
    text.append("let actor = self.auth.actor(&self.database, headers).await?; ");
    text.append("let tenant = tenant::resolve(&self.database, headers, actor.as_ref()).await?; ");
    text.append("Ok(RequestContext::connection_with_services(&self.database, &self.mail, &self.file, &self.realtime, actor, tenant,)) } ");
    text.append("} const HEALTH_STARTING: u8 = 0; const HEALTH_READY: u8 = 1; ");
    text.append("const HEALTH_DRAINING: u8 = 2; const HEALTH_FAILED: u8 = 3; ");
    text.append("#[derive(Clone)] pub struct ApplicationHealth { ");
    text.append("state: Arc<AtomicU8>, failure: Arc<RwLock<Option<String>>>, } impl ApplicationHealth { ");
    text.append("fn with_state(state: u8) -> Self { Self { ");
    text.append("state: Arc::new(AtomicU8::new(state)), failure: Arc::new(RwLock::new(None)), } } ");
    text.append("fn starting() -> Self { Self::with_state(HEALTH_STARTING) } fn ready() -> Self { ");
    text.append("Self::with_state(HEALTH_READY) } fn mark_ready(&self) { ");
    text.append("self.state.store(HEALTH_READY, Ordering::Release); } fn mark_draining(&self) { ");
    text.append("self.state.store(HEALTH_DRAINING, Ordering::Release); } ");
    text.append("pub fn mark_failed(&self, message: impl Into<String>) { ");
    text.append("if self.state.load(Ordering::Acquire) == HEALTH_DRAINING { return; } ");
    text.append("let message = message.into(); if let Ok(mut failure) = self.failure.write() { ");
    text.append("*failure = Some(message.clone()); } self.state.store(HEALTH_FAILED, Ordering::Release); ");
    text.append("tracing::error!(%message, \"application health failed\"); } fn is_ready(&self) -> bool { ");
    text.append("let no_failure = self.failure.read().is_ok_and(|failure| failure.is_none()); ");
    text.append("self.state.load(Ordering::Acquire) == HEALTH_READY && no_failure } }");
    text
}

/// The application: built from the environment or from services, it serves
/// until a shutdown signal and then stops its modules in reverse order.
#[verifier::opaque]
pub open spec fn application_text() -> Seq<char> {
    "pub struct Application { "@
        + "router: Router, runtime: ModuleRuntime, health: ApplicationHealth, } impl Application { "@
        + "pub async fn from_env(database: DatabaseConnection, extensions: AppExtensions,) -> Result<Self, StartupError> { "@
        + "let health = ApplicationHealth::starting(); "@
        + "let started = start_application_modules(database, extensions, health.clone(),).await?; "@
        + "health.mark_ready(); "@
        + "let router = router_with_services_and_health(started.database, started.extensions, started.auth, started.mail, started.file, health.clone(),); "@
        + "Ok(Self { router, runtime: started.runtime, health }) } "@
        + "pub fn with_services(database: DatabaseConnection, extensions: AppExtensions, auth: AuthState, mail: MailState, file: FileState,) -> Self { "@
        + "let mut runtime = ModuleRuntime::default(); let health = ApplicationHealth::starting(); "@
        + "if let Some(worker) = start_job_worker(&database, &extensions, &mail, health.clone(),) { "@
        + "runtime.push_service(\"appstruct/jobs\", worker); } "@
        + "if let Some(worker) = start_webhook_worker(&database) { "@
        + "runtime.push_service(\"appstruct/webhooks\", worker); } health.mark_ready(); "@
        + "let router = router_with_services_and_health(database, extensions, auth, mail, file, health.clone(),); "@
        + "Self { router, runtime, health } } "@
        + "pub async fn serve(self, listener: TcpListener) -> io::Result<()> { let Self { "@
        + "router, mut runtime, health } = self; "@
        + "let (shutdown, receiver) = tokio::sync::oneshot::channel::<()>(); "@
        + "let server = axum::serve(listener, router).with_graceful_shutdown(async move { "@
        + "let _ = receiver.await; }).into_future(); tokio::pin!(server); "@
        + "let result = tokio::select! { "@
        + "result = &mut server => result, signal = shutdown_signal() => { health.mark_draining(); "@
        + "if signal.is_ok() { tracing::info!(\"shutdown signal received\"); } "@
        + "let _ = shutdown.send(()); "@
        + "let server_result = match tokio::time::timeout(Duration::from_secs(30), server.as_mut(),).await { "@
        + "Ok(result) => result, Err(_) => Err(io::Error::new(io::ErrorKind::TimedOut, \"HTTP server did not drain within 30 seconds\",)), }; "@
        + "match signal { Ok(()) => server_result, Err(error) => { let _ = server_result; "@
        + "Err(error) } } } }; health.mark_draining(); "@
        + "let shutdown = stop_modules(&mut runtime).await; match (result, shutdown) { "@
        + "(Err(error), _) => Err(error), (Ok(()), Err(error)) => Err(error), (Ok(()), Ok(())) => Ok(()), } "@
        + "} } "@
        + "pub fn router(database: DatabaseConnection, extensions: AppExtensions,) -> Result<Router, StartupError> { "@
        + "let auth = AuthState::from_env().map_err(|error| StartupError::configuration(\"auth\", error))?; "@
        + "router_with_auth(database, extensions, auth) } "@
        + "pub fn router_with_auth(database: DatabaseConnection, extensions: AppExtensions, auth: AuthState,) -> Result<Router, StartupError> { "@
        + "let mail = MailState::from_env(database.clone()).map_err(|error| StartupError::configuration(\"mail\", error))?; "@
        + "let file = FileState::from_env(database.clone()).map_err(|error| StartupError::configuration(\"file\", error))?; "@
        + "Ok(router_with_services(database, extensions, auth, mail, file)) }"@
}

fn application() -> (text: String)
    ensures
        text@ == application_text(),
{
    proof {
        reveal(application_text);
    }
    let mut text = String::from_str("pub struct Application { ");
    text.append("router: Router, runtime: ModuleRuntime, health: ApplicationHealth, } impl Application { ");
    text.append("pub async fn from_env(database: DatabaseConnection, extensions: AppExtensions,) -> Result<Self, StartupError> { ");
    text.append("let health = ApplicationHealth::starting(); ");
    text.append("let started = start_application_modules(database, extensions, health.clone(),).await?; ");
    text.append("health.mark_ready(); ");
    text.append("let router = router_with_services_and_health(started.database, started.extensions, started.auth, started.mail, started.file, health.clone(),); ");
    text.append("Ok(Self { router, runtime: started.runtime, health }) } ");
    text.append("pub fn with_services(database: DatabaseConnection, extensions: AppExtensions, auth: AuthState, mail: MailState, file: FileState,) -> Self { ");
    text.append("let mut runtime = ModuleRuntime::default(); let health = ApplicationHealth::starting(); ");
    text.append("if let Some(worker) = start_job_worker(&database, &extensions, &mail, health.clone(),) { ");
    text.append("runtime.push_service(\"appstruct/jobs\", worker); } ");
    text.append("if let Some(worker) = start_webhook_worker(&database) { ");
    text.append("runtime.push_service(\"appstruct/webhooks\", worker); } health.mark_ready(); ");
    text.append("let router = router_with_services_and_health(database, extensions, auth, mail, file, health.clone(),); ");
    text.append("Self { router, runtime, health } } ");
    text.append("pub async fn serve(self, listener: TcpListener) -> io::Result<()> { let Self { ");
    text.append("router, mut runtime, health } = self; ");
    text.append("let (shutdown, receiver) = tokio::sync::oneshot::channel::<()>(); ");
    text.append("let server = axum::serve(listener, router).with_graceful_shutdown(async move { ");
    text.append("let _ = receiver.await; }).into_future(); tokio::pin!(server); ");
    text.append("let result = tokio::select! { ");
    text.append("result = &mut server => result, signal = shutdown_signal() => { health.mark_draining(); ");
    text.append("if signal.is_ok() { tracing::info!(\"shutdown signal received\"); } ");
    text.append("let _ = shutdown.send(()); ");
    text.append("let server_result = match tokio::time::timeout(Duration::from_secs(30), server.as_mut(),).await { ");
    text.append("Ok(result) => result, Err(_) => Err(io::Error::new(io::ErrorKind::TimedOut, \"HTTP server did not drain within 30 seconds\",)), }; ");
    text.append("match signal { Ok(()) => server_result, Err(error) => { let _ = server_result; ");
    text.append("Err(error) } } } }; health.mark_draining(); ");
    text.append("let shutdown = stop_modules(&mut runtime).await; match (result, shutdown) { ");
    text.append("(Err(error), _) => Err(error), (Ok(()), Err(error)) => Err(error), (Ok(()), Ok(())) => Ok(()), } ");
    text.append("} } ");
    text.append("pub fn router(database: DatabaseConnection, extensions: AppExtensions,) -> Result<Router, StartupError> { ");
    text.append("let auth = AuthState::from_env().map_err(|error| StartupError::configuration(\"auth\", error))?; ");
    text.append("router_with_auth(database, extensions, auth) } ");
    text.append("pub fn router_with_auth(database: DatabaseConnection, extensions: AppExtensions, auth: AuthState,) -> Result<Router, StartupError> { ");
    text.append("let mail = MailState::from_env(database.clone()).map_err(|error| StartupError::configuration(\"mail\", error))?; ");
    text.append("let file = FileState::from_env(database.clone()).map_err(|error| StartupError::configuration(\"file\", error))?; ");
    text.append("Ok(router_with_services(database, extensions, auth, mail, file)) }");
    text
}

/// The router: every entity's API nested under its path, the operation,
/// audit, auth, tenant and realtime routers, health, metrics and `openapi.json`.
#[verifier::opaque]
pub open spec fn router_text(routes: Seq<Seq<char>>) -> Seq<char> {
    "pub fn router_with_services(database: DatabaseConnection, extensions: AppExtensions, auth: AuthState, mail: MailState, file: FileState,) -> Router { "@
        + "router_with_services_and_health(database, extensions, auth, mail, file, ApplicationHealth::ready(),) } "@
        + "fn router_with_services_and_health(database: DatabaseConnection, extensions: AppExtensions, auth: AuthState, mail: MailState, file: FileState, health: ApplicationHealth,) -> Router { "@
        + "let cors = auth.cors_layer(); Router::new() "@
        + suffixed_text(routes, " "@)
        + ".merge(operations::router()).merge(audit::router()).merge(auth::router()).merge(tenant::router()).merge(realtime::router()).route(\"/health/live\", get(liveness)).route(\"/health/ready\", get(readiness)).route(\"/metrics\", get(metrics)).route(\"/openapi.json\", get(openapi)).layer(cors).layer(PropagateRequestIdLayer::x_request_id()).layer(TraceLayer::new_for_http()).layer(SetRequestIdLayer::x_request_id(MakeRequestUuid)).with_state(AppState { "@
        + "realtime: RealtimeState::new(database.clone()), database, extensions, auth, mail, file, health, }) } "@
        + "async fn liveness() -> StatusCode { StatusCode::NO_CONTENT } "@
        + "async fn readiness(State(state): State<AppState>) -> StatusCode { "@
        + "if state.health.is_ready() && state.database.ping().await.is_ok() { "@
        + "StatusCode::NO_CONTENT } else { StatusCode::SERVICE_UNAVAILABLE } } "@
        + "async fn metrics(State(state): State<AppState>) -> impl IntoResponse { "@
        + "let ready = u8::from(state.health.is_ready()); "@
        + "let body = format!(\"# HELP appstruct_health_ready Whether the application is ready to serve traffic.\\n# TYPE appstruct_health_ready gauge\\nappstruct_health_ready {ready}\\n\"); "@
        + "([(axum::http::header::CONTENT_TYPE, \"text/plain; version=0.0.4\")], body) } "@
        + "async fn openapi() -> impl IntoResponse { "@
        + "([(axum::http::header::CONTENT_TYPE, \"application/json\")], openapi::OPENAPI_JSON) }"@
}

fn router(routes: &Vec<String>) -> (text: String)
    ensures
        text@ == router_text(texts(routes@)),
{
    proof {
        reveal(router_text);
    }
    let mut text = String::from_str("pub fn router_with_services(database: DatabaseConnection, extensions: AppExtensions, auth: AuthState, mail: MailState, file: FileState,) -> Router { ");
    text.append("router_with_services_and_health(database, extensions, auth, mail, file, ApplicationHealth::ready(),) } ");
    text.append("fn router_with_services_and_health(database: DatabaseConnection, extensions: AppExtensions, auth: AuthState, mail: MailState, file: FileState, health: ApplicationHealth,) -> Router { ");
    text.append("let cors = auth.cors_layer(); Router::new() ");
    append_suffixed(&mut text, routes, " ");
    text.append(".merge(operations::router()).merge(audit::router()).merge(auth::router()).merge(tenant::router()).merge(realtime::router()).route(\"/health/live\", get(liveness)).route(\"/health/ready\", get(readiness)).route(\"/metrics\", get(metrics)).route(\"/openapi.json\", get(openapi)).layer(cors).layer(PropagateRequestIdLayer::x_request_id()).layer(TraceLayer::new_for_http()).layer(SetRequestIdLayer::x_request_id(MakeRequestUuid)).with_state(AppState { ");
    text.append("realtime: RealtimeState::new(database.clone()), database, extensions, auth, mail, file, health, }) } ");
    text.append("async fn liveness() -> StatusCode { StatusCode::NO_CONTENT } ");
    text.append("async fn readiness(State(state): State<AppState>) -> StatusCode { ");
    text.append("if state.health.is_ready() && state.database.ping().await.is_ok() { ");
    text.append("StatusCode::NO_CONTENT } else { StatusCode::SERVICE_UNAVAILABLE } } ");
    text.append("async fn metrics(State(state): State<AppState>) -> impl IntoResponse { ");
    text.append("let ready = u8::from(state.health.is_ready()); ");
    text.append("let body = format!(\"# HELP appstruct_health_ready Whether the application is ready to serve traffic.\\n# TYPE appstruct_health_ready gauge\\nappstruct_health_ready {ready}\\n\"); ");
    text.append("([(axum::http::header::CONTENT_TYPE, \"text/plain; version=0.0.4\")], body) } ");
    text.append("async fn openapi() -> impl IntoResponse { ");
    text.append("([(axum::http::header::CONTENT_TYPE, \"application/json\")], openapi::OPENAPI_JSON) }");
    text
}

/// Module shutdown and the shutdown signal.
#[verifier::opaque]
pub open spec fn lifecycle_text() -> Seq<char> {
    "async fn stop_modules(runtime: &mut ModuleRuntime) -> io::Result<()> { "@
        + "let report = runtime.shutdown_reverse().await; for module in &report.attempted { "@
        + "tracing::info!(module, \"module stopped\"); } for failure in &report.failures { "@
        + "tracing::error!(service = %failure.service, kind = ?failure.kind, detail = %failure.message, \"module shutdown failed\",); "@
        + "} if report.is_success() { Ok(()) } else { Err(io::Error::other(report.to_string())) } } "@
        + "async fn shutdown_signal() -> io::Result<()> { #[cfg(unix)] { "@
        + "let mut terminate = tokio::signal::unix::signal(tokio::signal::unix::SignalKind::terminate(),)?; "@
        + "tokio::select! { "@
        + "result = tokio::signal::ctrl_c() => result, _ = terminate.recv() => Ok(()), } } "@
        + "#[cfg(not(unix))] { tokio::signal::ctrl_c().await } }"@
}

fn lifecycle() -> (text: String)
    ensures
        text@ == lifecycle_text(),
{
    proof {
        reveal(lifecycle_text);
    }
    let mut text = String::from_str("async fn stop_modules(runtime: &mut ModuleRuntime) -> io::Result<()> { ");
    text.append("let report = runtime.shutdown_reverse().await; for module in &report.attempted { ");
    text.append("tracing::info!(module, \"module stopped\"); } for failure in &report.failures { ");
    text.append("tracing::error!(service = %failure.service, kind = ?failure.kind, detail = %failure.message, \"module shutdown failed\",); ");
    text.append("} if report.is_success() { Ok(()) } else { Err(io::Error::other(report.to_string())) } } ");
    text.append("async fn shutdown_signal() -> io::Result<()> { #[cfg(unix)] { ");
    text.append("let mut terminate = tokio::signal::unix::signal(tokio::signal::unix::SignalKind::terminate(),)?; ");
    text.append("tokio::select! { ");
    text.append("result = tokio::signal::ctrl_c() => result, _ = terminate.recv() => Ok(()), } } ");
    text.append("#[cfg(not(unix))] { tokio::signal::ctrl_c().await } }");
    text
}

/// The job worker's start: none where jobs are off; with mail on, mail jobs
/// run when the application registers no handler; otherwise a registered
/// handler is needed.
pub open spec fn start_worker_text(jobs: bool, mail: bool) -> Seq<char> {
    if !jobs {
        "fn start_job_worker(_database: &DatabaseConnection, _extensions: &AppExtensions, _mail: &MailState, _health: ApplicationHealth,) -> Option<JobWorkerHandle> { "@
            + "None }"@
    } else if mail {
        "fn start_job_worker(database: &DatabaseConnection, extensions: &AppExtensions, mail: &MailState, health: ApplicationHealth,) -> Option<JobWorkerHandle> { "@
            + "let worker = if let Some(handler) = extensions.job_handler() { "@
            + "JobWorker::new(database.clone(), handler) } else { "@
            + "JobWorker::for_kind(database.clone(), std::sync::Arc::new(MailJobHandler::new(mail.clone())), \"mail.send\",) }; "@
            + "Some(worker.spawn_with_health(health)) }"@
    } else {
        "fn start_job_worker(database: &DatabaseConnection, extensions: &AppExtensions, _mail: &MailState, health: ApplicationHealth,) -> Option<JobWorkerHandle> { "@
            + "let Some(handler) = extensions.job_handler() else { "@
            + "tracing::warn!(\"jobs enabled without a registered job handler; worker not started\"); "@
            + "return None; }; "@
            + "Some(JobWorker::new(database.clone(), handler).spawn_with_health(health)) }"@
    }
}

fn start_worker(jobs: bool, mail: bool) -> (text: String)
    ensures
        text@ == start_worker_text(jobs, mail),
{
    if !jobs {
        let mut text = String::from_str("fn start_job_worker(_database: &DatabaseConnection, _extensions: &AppExtensions, _mail: &MailState, _health: ApplicationHealth,) -> Option<JobWorkerHandle> { ");
        text.append("None }");
        text
    } else if mail {
        let mut text = String::from_str("fn start_job_worker(database: &DatabaseConnection, extensions: &AppExtensions, mail: &MailState, health: ApplicationHealth,) -> Option<JobWorkerHandle> { ");
        text.append("let worker = if let Some(handler) = extensions.job_handler() { ");
        text.append("JobWorker::new(database.clone(), handler) } else { ");
        text.append("JobWorker::for_kind(database.clone(), std::sync::Arc::new(MailJobHandler::new(mail.clone())), \"mail.send\",) }; ");
        text.append("Some(worker.spawn_with_health(health)) }");
        text
    } else {
        let mut text = String::from_str("fn start_job_worker(database: &DatabaseConnection, extensions: &AppExtensions, _mail: &MailState, health: ApplicationHealth,) -> Option<JobWorkerHandle> { ");
        text.append("let Some(handler) = extensions.job_handler() else { ");
        text.append("tracing::warn!(\"jobs enabled without a registered job handler; worker not started\"); ");
        text.append("return None; }; ");
        text.append("Some(JobWorker::new(database.clone(), handler).spawn_with_health(health)) }");
        text
    }
}

/// The webhook worker's start, where webhooks are on.
pub open spec fn start_webhooks_text(webhooks: bool) -> Seq<char> {
    if webhooks {
        "fn start_webhook_worker(database: &DatabaseConnection) -> Option<WebhookWorkerHandle> { "@
            + "Some(WebhookWorker::new(database.clone()).spawn()) }"@
    } else {
        "fn start_webhook_worker(_database: &DatabaseConnection) -> Option<WebhookWorkerHandle> { "@
            + "None }"@
    }
}

fn start_webhooks(webhooks: bool) -> (text: String)
    ensures
        text@ == start_webhooks_text(webhooks),
{
    if webhooks {
        let mut text = String::from_str("fn start_webhook_worker(database: &DatabaseConnection) -> Option<WebhookWorkerHandle> { ");
        text.append("Some(WebhookWorker::new(database.clone()).spawn()) }");
        text
    } else {
        let mut text = String::from_str("fn start_webhook_worker(_database: &DatabaseConnection) -> Option<WebhookWorkerHandle> { ");
        text.append("None }");
        text
    }
}

/// The runtime part of the generated library.
#[verifier::opaque]
pub open spec fn runtime_block_text(contract: Seq<char>, application: Seq<char>, routing: Seq<char>, start_worker: Seq<char>, start_webhooks: Seq<char>, startup: Seq<char>, lifecycle: Seq<char>) -> Seq<char> {
    "use axum::{ "@
        + "Router, extract::State, http::{HeaderMap, StatusCode}, response::IntoResponse, routing::get, }; "@
        + "use sea_orm::DatabaseConnection; use std::{ "@
        + "future::IntoFuture, io, sync::{Arc, RwLock, atomic::{AtomicU8, Ordering}}, time::Duration, }; "@
        + "use tokio::net::TcpListener; use tower_http::{ "@
        + "request_id::{MakeRequestUuid, PropagateRequestIdLayer, SetRequestIdLayer}, trace::TraceLayer, }; "@
        + contract
        + " "@
        + application
        + " "@
        + routing
        + " "@
        + start_worker
        + " "@
        + start_webhooks
        + " "@
        + startup
        + " "@
        + lifecycle
}

fn runtime_block(contract: &str, application: &str, routing: &str, start_worker: &str, start_webhooks: &str, startup: &str, lifecycle: &str) -> (text: String)
    ensures
        text@ == runtime_block_text(contract@, application@, routing@, start_worker@, start_webhooks@, startup@, lifecycle@),
{
    proof {
        reveal(runtime_block_text);
    }
    let mut text = String::from_str("use axum::{ ");
    text.append("Router, extract::State, http::{HeaderMap, StatusCode}, response::IntoResponse, routing::get, }; ");
    text.append("use sea_orm::DatabaseConnection; use std::{ ");
    text.append("future::IntoFuture, io, sync::{Arc, RwLock, atomic::{AtomicU8, Ordering}}, time::Duration, }; ");
    text.append("use tokio::net::TcpListener; use tower_http::{ ");
    text.append("request_id::{MakeRequestUuid, PropagateRequestIdLayer, SetRequestIdLayer}, trace::TraceLayer, }; ");
    text.append(contract);
    text.append(" ");
    text.append(application);
    text.append(" ");
    text.append(routing);
    text.append(" ");
    text.append(start_worker);
    text.append(" ");
    text.append(start_webhooks);
    text.append(" ");
    text.append(startup);
    text.append(" ");
    text.append(lifecycle);
    text
}

/// The runtime part of the generated library for the application: the entity
/// routes and the startup code are spliced in.
pub open spec fn runtime_spec(ir: AppIr, routes: Seq<Seq<char>>, startup: Seq<char>) -> Seq<char> {
    runtime_block_text(
        state_contract_text(),
        application_text(),
        router_text(routes),
        start_worker_text(ir.jobs.enabled, ir.mail.enabled),
        start_webhooks_text(ir.webhooks.enabled),
        startup,
        lifecycle_text(),
    )
}

/// The runtime part of the generated library; `startup` is the code that
/// starts the application's modules.
pub fn runtime_source(ir: &AppIr, routes: &Vec<String>, startup: &str) -> (text: String)
    ensures
        text@ == runtime_spec(*ir, texts(routes@), startup@),
{
    let contract = state_contract();
    let application_text = application();
    let routing = router(routes);
    let worker = start_worker(ir.jobs.enabled, ir.mail.enabled);
    let webhooks = start_webhooks(ir.webhooks.enabled);
    let lifecycle_text = lifecycle();
    runtime_block(
        contract.as_str(),
        application_text.as_str(),
        routing.as_str(),
        worker.as_str(),
        webhooks.as_str(),
        startup,
        lifecycle_text.as_str(),
    )
}

/// The route that nests an entity's API router under its path.
#[verifier::opaque]
pub open spec fn nest_route_text(path: Seq<char>, module: Seq<char>) -> Seq<char> {
    ".nest("@
        + path
        + ", api::"@
        + module
        + "::router())"@
}

fn nest_route(path: &str, module: &str) -> (text: String)
    ensures
        text@ == nest_route_text(path@, module@),
{
    proof {
        reveal(nest_route_text);
    }
    let mut text = String::from_str(".nest(");
    text.append(path);
    text.append(", api::");
    text.append(module);
    text.append("::router())");
    text
}

/// The re-exports of the services every generated backend carries.
#[verifier::opaque]
pub open spec fn services_text(mail_job_exports: Seq<char>) -> Seq<char> {
    "pub use file::{FileError, FileMetadata, FileProvider, FileState}; pub use jobs::{ "@
        + "Job, JobError, JobHandler, JobHandlerError, JobReceipt, JobWorker, JobWorkerHandle, }; "@
        + mail_job_exports
        + " pub use mail::{MailDelivery, MailError, MailMessage, MailProvider, MailState}; "@
        + "pub use realtime::{RealtimeEvent, RealtimeState}; "@
        + "pub use webhooks::{WebhookError, WebhookReceipt, WebhookWorker, WebhookWorkerHandle};"@
}

fn services_block(mail_job_exports: &str) -> (text: String)
    ensures
        text@ == services_text(mail_job_exports@),
{
    proof {
        reveal(services_text);
    }
    let mut text = String::from_str("pub use file::{FileError, FileMetadata, FileProvider, FileState}; pub use jobs::{ ");
    text.append("Job, JobError, JobHandler, JobHandlerError, JobReceipt, JobWorker, JobWorkerHandle, }; ");
    text.append(mail_job_exports);
    text.append(" pub use mail::{MailDelivery, MailError, MailMessage, MailProvider, MailState}; ");
    text.append("pub use realtime::{RealtimeEvent, RealtimeState}; ");
    text.append("pub use webhooks::{WebhookError, WebhookReceipt, WebhookWorker, WebhookWorkerHandle};");
    text
}

/// The mail-job re-exports exist where jobs and mail are both on.
pub open spec fn service_exports_text(jobs: bool, mail: bool) -> Seq<char> {
    services_text(if jobs && mail { "pub use jobs::{MailJobHandler, MailJobPayload};"@ } else { Seq::<char>::empty() })
}

/// The service re-exports of the generated library.
pub fn service_exports(ir: &AppIr) -> (text: String)
    ensures
        text@ == service_exports_text(ir.jobs.enabled, ir.mail.enabled),
{
    let mail_jobs = if ir.jobs.enabled && ir.mail.enabled {
        "pub use jobs::{MailJobHandler, MailJobPayload};"
    } else {
        ""
    };
    proof {
        reveal_strlit("");
        assert(""@ =~= Seq::<char>::empty());
    }
    services_block(mail_jobs)
}

/// The auth re-exports: the mail senders only where auth is on.
pub open spec fn auth_exports_text(auth: bool) -> Seq<char> {
    if auth {
        "pub use auth::{AuthMailSender, AuthState, DevMailSender, SmtpMailSender};"@
    } else {
        "pub use auth::AuthState;"@
    }
}

/// The generated library root: its modules, the runtime re-exports, the
/// runtime API version it was generated against, and the runtime.
#[verifier::opaque]
pub open spec fn library_text(runtime_api_version: Seq<char>, service_exports: Seq<char>, auth_exports: Seq<char>, runtime: Seq<char>) -> Seq<char> {
    "pub mod api; pub mod entities; pub mod extensions; mod audit; mod auth; mod error; "@
        + "mod file; mod jobs; mod mail; mod openapi; mod operations; mod realtime; mod tenant; "@
        + "mod webhooks; pub use error::{ApiError, FieldViolation}; pub use appstruct_runtime::{ "@
        + "Actor, BackgroundTaskExit, BackgroundTaskExitKind, BackgroundTaskObserver, BulkDeleteInput, BulkFailure, BulkResult, BulkUpdateInput, CSV_EXPORT_PAGE_SIZE, CsvError, ListMeta, ListQuery, ListResponse, MAX_BULK_ITEMS, MAX_CSV_EXPORT_ROWS, MAX_CSV_IMPORT_ROWS, ModuleDescriptor, ModuleEvent, ModuleObserver, ModulePhase, ModulePlan, ModuleRuntime, ModuleStarter, RUNTIME_API_VERSION, ServiceHandle, ServiceHandles, ShutdownError, ShutdownFailure, ShutdownFailureKind, ShutdownReport, StartupError, SupervisedTaskHandle, TenantId, bulk_failure, bulk_request_size_is_valid, csv_escape, csv_json_value, decode_cursor, encode_cursor, parse_csv_rows, parse_revision_etag, revision_etag, }; "@
        + "pub const GENERATED_RUNTIME_API_VERSION: u32 = "@
        + runtime_api_version
        + "; const _: [(); GENERATED_RUNTIME_API_VERSION as usize] = [(); "@
        + "appstruct_runtime::RUNTIME_API_VERSION as usize]; "@
        + "pub use extensions::{AppExtensions, HookOperation, RequestContext}; "@
        + service_exports
        + " "@
        + auth_exports
        + " "@
        + runtime
}

fn library_block(runtime_api_version: &str, service_exports: &str, auth_exports: &str, runtime: &str) -> (text: String)
    ensures
        text@ == library_text(runtime_api_version@, service_exports@, auth_exports@, runtime@),
{
    proof {
        reveal(library_text);
    }
    let mut text = String::from_str("pub mod api; pub mod entities; pub mod extensions; mod audit; mod auth; mod error; ");
    text.append("mod file; mod jobs; mod mail; mod openapi; mod operations; mod realtime; mod tenant; ");
    text.append("mod webhooks; pub use error::{ApiError, FieldViolation}; pub use appstruct_runtime::{ ");
    text.append("Actor, BackgroundTaskExit, BackgroundTaskExitKind, BackgroundTaskObserver, BulkDeleteInput, BulkFailure, BulkResult, BulkUpdateInput, CSV_EXPORT_PAGE_SIZE, CsvError, ListMeta, ListQuery, ListResponse, MAX_BULK_ITEMS, MAX_CSV_EXPORT_ROWS, MAX_CSV_IMPORT_ROWS, ModuleDescriptor, ModuleEvent, ModuleObserver, ModulePhase, ModulePlan, ModuleRuntime, ModuleStarter, RUNTIME_API_VERSION, ServiceHandle, ServiceHandles, ShutdownError, ShutdownFailure, ShutdownFailureKind, ShutdownReport, StartupError, SupervisedTaskHandle, TenantId, bulk_failure, bulk_request_size_is_valid, csv_escape, csv_json_value, decode_cursor, encode_cursor, parse_csv_rows, parse_revision_etag, revision_etag, }; ");
    text.append("pub const GENERATED_RUNTIME_API_VERSION: u32 = ");
    text.append(runtime_api_version);
    text.append("; const _: [(); GENERATED_RUNTIME_API_VERSION as usize] = [(); ");
    text.append("appstruct_runtime::RUNTIME_API_VERSION as usize]; ");
    text.append("pub use extensions::{AppExtensions, HookOperation, RequestContext}; ");
    text.append(service_exports);
    text.append(" ");
    text.append(auth_exports);
    text.append(" ");
    text.append(runtime);
    text
}

/// The API path of an entity: `/api/<table>/`, as a string literal.
pub open spec fn api_path_text(entity: Entity) -> Seq<char> {
    literal_text("/api/"@ + entity.table_name@ + "/"@)
}

/// The nested routes of the entities, in order, or the first invalid module name.
pub open spec fn entity_routes_spec(entities: Seq<Entity>) -> Result<Seq<Seq<char>>, Seq<char>>
    decreases entities.len(),
{
    if entities.len() == 0 {
        Ok(Seq::<Seq<char>>::empty())
    } else {
        match entity_routes_spec(entities.drop_last()) {
            Err(error) => Err(error),
            Ok(routes) => match ident_result(snake_text(entities.last().rust_name@)) {
                Err(error) => Err(error),
                Ok(module) => Ok(routes.push(nest_route_text(api_path_text(entities.last()), module))),
            },
        }
    }
}

proof fn lemma_entity_routes_error(entities: Seq<Entity>, k: int)
    requires
        0 <= k <= entities.len(),
        entity_routes_spec(entities.subrange(0, k)) is Err,
    ensures
        entity_routes_spec(entities) == entity_routes_spec(entities.subrange(0, k)),
    decreases entities.len() - k,
{
    if k < entities.len() {
        assert(entities.subrange(0, k + 1).drop_last() == entities.subrange(0, k));
        lemma_entity_routes_error(entities, k + 1);
    } else {
        assert(entities.subrange(0, k) == entities);
    }
}

fn entity_routes(entities: &Vec<Entity>) -> (result: Result<Vec<String>, CodegenError>)
    ensures
        match result {
            Ok(routes) => entity_routes_spec(entities@) == Ok::<Seq<Seq<char>>, Seq<char>>(texts(routes@)),
            Err(error) => entity_routes_spec(entities@) == Err::<Seq<Seq<char>>, Seq<char>>(error@),
        },
{
    let mut routes: Vec<String> = Vec::new();
    let mut i: usize = 0;
    proof {
        assert(entities@.subrange(0, 0) == Seq::<Entity>::empty());
        assert(texts(routes@) == Seq::<Seq<char>>::empty());
    }
    while i < entities.len()
        invariant
            i <= entities.len(),
            entity_routes_spec(entities@.subrange(0, i as int)) == Ok::<Seq<Seq<char>>, Seq<char>>(texts(routes@)),
        decreases entities.len() - i,
    {
        proof {
            assert(entities@.subrange(0, i + 1).drop_last() == entities@.subrange(0, i as int));
        }
        let entity = &entities[i];
        let name = module_name(entity);
        let module = match parse_ident(name.as_str()) {
            Ok(module) => module,
            Err(error) => {
                proof {
                    lemma_entity_routes_error(entities@, i + 1);
                }
                return Err(error);
            },
        };
        let mut raw_path = String::from_str("/api/");
        raw_path.append(entity.table_name.as_str());
        raw_path.append("/");
        let path = string_literal(raw_path.as_str());
        let route = nest_route(path.as_str(), module.as_str());
        let ghost before = texts(routes@);
        routes.push(route);
        proof {
            assert(texts(routes@) == before.push(route@));
        }
        i = i + 1;
    }
    proof {
        assert(entities@.subrange(0, entities@.len() as int) == entities@);
    }
    Ok(routes)
}

/// The generated library root, or the first invalid entity module name.
pub open spec fn library_spec(ir: AppIr, header: Seq<char>, startup: Seq<char>, runtime_api_version: u32) -> Result<Seq<char>, Seq<char>> {
    match entity_routes_spec(ir.entities@) {
        Err(error) => Err(error),
        Ok(routes) => render_spec(
            library_text(
                decimal_text(runtime_api_version as nat) + "u32"@,
                service_exports_text(ir.jobs.enabled, ir.mail.enabled),
                auth_exports_text(ir.auth.enabled),
                runtime_spec(ir, routes, startup),
            ),
            header,
        ),
    }
}

/// The generated library root: `header` opens the file, `startup` starts the
/// application's modules, and `runtime_api_version` is the version of the
/// runtime crate that the code is generated against.
pub fn library_source(ir: &AppIr, header: &str, startup: &str, runtime_api_version: u32) -> (result: Result<String, CodegenError>)
    ensures
        match result {
            Ok(text) => library_spec(*ir, header@, startup@, runtime_api_version) == Ok::<Seq<char>, Seq<char>>(text@),
            Err(error) => library_spec(*ir, header@, startup@, runtime_api_version) == Err::<Seq<char>, Seq<char>>(error@),
        },
{
    let routes = entity_routes(&ir.entities)?;
    let auth_exports = if ir.auth.enabled {
        "pub use auth::{AuthMailSender, AuthState, DevMailSender, SmtpMailSender};"
    } else {
        "pub use auth::AuthState;"
    };
    let services = service_exports(ir);
    let runtime = runtime_source(ir, &routes, startup);
    let mut version = decimal(runtime_api_version as u64);
    version.append("u32");
    let text = library_block(version.as_str(), services.as_str(), auth_exports, runtime.as_str());
    render(text.as_str(), header)
}

} // verus!
