//! The control-plane HTTP API's request and response shapes and the
//! decisions its handlers make around the runtime manager: which status
//! and code an error is answered with, how an install or pull outcome is
//! reported, and the guardrail on exposing a managed runtime remotely.
use vstd::prelude::*;

use crate::catalog::RuntimeVariant;
use crate::config::spec_is_loopback_host;
use crate::error::{runtime_error_detail, runtime_error_prefix, ErrorResponse, RuntimeError};
use crate::launch::StartOptions;
use crate::manager::{InstallOutcome, ModelPullOutcome};
use crate::text::{concat, owned};

verus! {

/// A model of the catalog as the API lists it.
#[derive(Debug)]
pub struct ModelInfo {
    pub id: String,
    pub display_name: String,
    pub provider_id: String,
    pub languages: Vec<String>,
    /// The language a running runtime's recognizer is built with, when
    /// that is load-time state.
    pub active_language: Option<String>,
    /// Whether the model is resident in its running provider.
    pub loaded: Option<bool>,
}

/// `POST /v1/models/select` body.
#[derive(Debug)]
pub struct SelectModelRequest {
    pub provider_id: String,
    pub model_id: String,
}

/// `POST /v1/models/switch` body.
#[derive(Debug)]
pub struct SwitchModelRequest {
    pub provider_id: String,
    pub model_id: String,
}

/// `POST /v1/models/language` body.
#[derive(Debug)]
pub struct SetLanguageRequest {
    pub provider_id: String,
    pub model_id: String,
    pub language: String,
}

/// `POST /v1/models/load` body.
#[derive(Debug)]
pub struct LoadModelRequest {
    pub provider_id: String,
    pub model_id: String,
}

/// `GET /v1/models/selected?provider=` query.
#[derive(Debug)]
pub struct SelectedModelQuery {
    pub provider: String,
}

/// `GET /v1/models/selected` answer.
#[derive(Debug)]
pub struct SelectedModelResponse {
    pub model_id: Option<String>,
}

/// `?provider=&model=` query of pull, verify and remove.
#[derive(Debug)]
pub struct ModelIdentityQuery {
    pub provider: String,
    pub model: String,
}

/// `POST /v1/models/pull` answer.
#[derive(Debug)]
pub enum PullModelResponse {
    Cached,
    Downloading { operation_id: String },
}

/// `POST /v1/models/verify` answer.
#[derive(Debug)]
pub struct VerifyModelResponse {
    pub verified: bool,
    pub size_bytes: Option<u64>,
}

/// `POST /v1/providers/:id/install` body; no variant means no opinion.
#[derive(Debug)]
pub struct InstallProviderRequest {
    pub variant: Option<String>,
}

/// `POST /v1/providers/:id/install` answer.
#[derive(Debug)]
pub enum InstallResponse {
    Installed { provider_id: String, variant: String },
    Downloading { provider_id: String, variant: String, operation_id: String },
}

/// `POST /v1/providers/:id/start` body: optional start hints.
#[derive(Debug)]
pub struct StartProviderRequest {
    pub device: Option<String>,
    pub compute_type: Option<String>,
    pub bind_host: Option<String>,
    pub auth_token: Option<String>,
}

/// `GET /v1/providers/:id/logs?tail=` query.
#[derive(Debug)]
pub struct LogsQuery {
    pub tail: Option<usize>,
}

/// The HTTP status and error code a runtime error is answered with.
pub open spec fn spec_error_status(e: RuntimeError) -> (u16, Seq<char>) {
    match e {
        RuntimeError::InvalidProviderId(_) => (400, "INVALID_PROVIDER_ID"@),
        RuntimeError::ModelNotFound(_) => (400, "MODEL_NOT_FOUND"@),
        RuntimeError::ProviderNotFound(_) => (404, "PROVIDER_NOT_FOUND"@),
        RuntimeError::ProviderNotInstalled(_) => (409, "PROVIDER_NOT_INSTALLED"@),
        RuntimeError::RuntimeNotRunning(_) => (409, "RUNTIME_NOT_RUNNING"@),
        RuntimeError::RuntimeStartFailed(_) => (500, "RUNTIME_START_FAILED"@),
        RuntimeError::Io(_) => (500, "IO_ERROR"@),
        RuntimeError::Internal(_) => (500, "INTERNAL_ERROR"@),
        RuntimeError::DownloadFailed(_) => (500, "DOWNLOAD_FAILED"@),
        RuntimeError::UnsupportedVariant(_) => (400, "UNSUPPORTED_VARIANT"@),
        RuntimeError::InstallOperationNotFound(_) => (404, "INSTALL_OPERATION_NOT_FOUND"@),
        RuntimeError::InvalidStartOptions(_) => (400, "INVALID_START_OPTIONS"@),
    }
}

/// A runtime error as an API answer: its status, its code, and its
/// message.
pub fn runtime_error_response(err: &RuntimeError) -> (r: (u16, ErrorResponse))
    ensures
        r.0 == spec_error_status(*err).0,
        r.1.code@ == spec_error_status(*err).1,
        r.1.message@ == runtime_error_prefix(*err) + runtime_error_detail(*err),
{
    let (status, code): (u16, &str) = match err {
        RuntimeError::InvalidProviderId(_) => (400, "INVALID_PROVIDER_ID"),
        RuntimeError::ModelNotFound(_) => (400, "MODEL_NOT_FOUND"),
        RuntimeError::ProviderNotFound(_) => (404, "PROVIDER_NOT_FOUND"),
        RuntimeError::ProviderNotInstalled(_) => (409, "PROVIDER_NOT_INSTALLED"),
        RuntimeError::RuntimeNotRunning(_) => (409, "RUNTIME_NOT_RUNNING"),
        RuntimeError::RuntimeStartFailed(_) => (500, "RUNTIME_START_FAILED"),
        RuntimeError::Io(_) => (500, "IO_ERROR"),
        RuntimeError::Internal(_) => (500, "INTERNAL_ERROR"),
        RuntimeError::DownloadFailed(_) => (500, "DOWNLOAD_FAILED"),
        RuntimeError::UnsupportedVariant(_) => (400, "UNSUPPORTED_VARIANT"),
        RuntimeError::InstallOperationNotFound(_) => (404, "INSTALL_OPERATION_NOT_FOUND"),
        RuntimeError::InvalidStartOptions(_) => (400, "INVALID_START_OPTIONS"),
    };
    (status, ErrorResponse { code: owned(code), message: err.message() })
}

/// A variant named in a request: `cpu`/`gpu`, else an `UnsupportedVariant`
/// answer.
pub fn parse_variant(variant: &str) -> (r: Result<RuntimeVariant, (u16, ErrorResponse)>)
    ensures
        variant@ == "cpu"@ ==> r == Ok::<RuntimeVariant, (u16, ErrorResponse)>(RuntimeVariant::Cpu),
        variant@ == "gpu"@ ==> r == Ok::<RuntimeVariant, (u16, ErrorResponse)>(RuntimeVariant::Gpu),
        variant@ != "cpu"@ && variant@ != "gpu"@ ==> (r matches Err((status, body)) && status == 400
            && body.code@ == "UNSUPPORTED_VARIANT"@ && body.message@ == "unsupported variant: "@
            + variant@),
{
    proof {
        reveal_strlit("cpu");
        reveal_strlit("gpu");
        assert("cpu"@[0] != "gpu"@[0]);
    }
    match RuntimeVariant::parse(variant) {
        Some(v) => Ok(v),
        None => Err(runtime_error_response(&RuntimeError::UnsupportedVariant(owned(variant)))),
    }
}

/// How an install outcome is answered: `200` with the registered variant,
/// or `202` with the operation to poll.
pub fn install_response(provider_id: &str, outcome: InstallOutcome) -> (r: (u16, InstallResponse))
    ensures
        match outcome {
            InstallOutcome::Installed { provider_id: p, variant } => r.0 == 200 && (r.1 matches InstallResponse::Installed {
                provider_id: rp,
                variant: rv,
            } && rp@ == p@ && rv@ == variant@),
            InstallOutcome::Downloading { operation_id, variant } => r.0 == 202 && (r.1 matches InstallResponse::Downloading {
                provider_id: rp,
                variant: rv,
                operation_id: ro,
            } && rp@ == provider_id@ && rv@ == variant@ && ro@ == operation_id@),
        },
{
    match outcome {
        InstallOutcome::Installed { provider_id, variant } => (
            200,
            InstallResponse::Installed { provider_id, variant },
        ),
        InstallOutcome::Downloading { operation_id, variant } => (
            202,
            InstallResponse::Downloading { provider_id: owned(provider_id), variant, operation_id },
        ),
    }
}

/// How a pull outcome is answered: `200 cached` or `202 downloading`.
pub fn pull_response(outcome: ModelPullOutcome) -> (r: (u16, PullModelResponse))
    ensures
        match outcome {
            ModelPullOutcome::Cached => r.0 == 200 && r.1 is Cached,
            ModelPullOutcome::Downloading { operation_id } => r.0 == 202 && (r.1 matches PullModelResponse::Downloading {
                operation_id: o,
            } && o@ == operation_id@),
        },
{
    match outcome {
        ModelPullOutcome::Cached => (200, PullModelResponse::Cached),
        ModelPullOutcome::Downloading { operation_id } => (
            202,
            PullModelResponse::Downloading { operation_id },
        ),
    }
}

/// How a verification is answered.
pub fn verify_response(size_bytes: Option<u64>) -> (r: VerifyModelResponse)
    ensures
        r.verified == size_bytes is Some,
        r.size_bytes == size_bytes,
{
    VerifyModelResponse { verified: size_bytes.is_some(), size_bytes }
}

/// The log lines asked for: `tail`, 100 by default.
pub fn logs_tail(q: &LogsQuery) -> (r: usize)
    ensures
        r == match q.tail {
            Some(t) => t,
            None => 100,
        },
{
    match q.tail {
        Some(t) => t,
        None => 100,
    }
}

/// A start request's non-loopback bind host is refused (`403
/// REMOTE_BIND_NOT_ALLOWED`) unless the control plane itself was launched
/// with remote access allowed.
pub fn check_remote_bind(req: &StartProviderRequest, allow_remote: bool) -> (r: Result<
    (),
    (u16, ErrorResponse),
>)
    ensures
        match req.bind_host {
            Some(h) => if !spec_is_loopback_host(h@) && !allow_remote {
                r matches Err((status, body)) && status == 403 && body.code@
                    == "REMOTE_BIND_NOT_ALLOWED"@ && body.message@
                    == "starting a provider on a non-loopback bind_host requires the control plane itself to have been launched with --allow-remote"@
            } else {
                r is Ok
            },
            None => r is Ok,
        },
{
    if let Some(h) = &req.bind_host {
        if !crate::config::is_loopback_host(h.as_str()) && !allow_remote {
            return Err(
                (
                    403,
                    ErrorResponse {
                        code: owned("REMOTE_BIND_NOT_ALLOWED"),
                        message: owned(
                            "starting a provider on a non-loopback bind_host requires the control plane itself to have been launched with --allow-remote",
                        ),
                    },
                ),
            );
        }
    }
    Ok(())
}

/// The start options a request carries.
pub fn start_options(req: StartProviderRequest) -> (r: StartOptions)
    ensures
        r.device == req.device,
        r.compute_type == req.compute_type,
        r.bind_host == req.bind_host,
        r.auth_token == req.auth_token,
{
    StartOptions {
        device: req.device,
        compute_type: req.compute_type,
        bind_host: req.bind_host,
        auth_token: req.auth_token,
    }
}

/// The answer to an unparseable request body: `400` with the given code
/// and `invalid <what> request body: <detail>`.
pub fn invalid_body(code: &str, what: &str, detail: &str) -> (r: (u16, ErrorResponse))
    ensures
        r.0 == 400,
        r.1.code@ == code@,
        r.1.message@ == "invalid "@ + what@ + " request body: "@ + detail@,
{
    let mut m = concat("invalid ", what);
    m.append(" request body: ");
    m.append(detail);
    (400, ErrorResponse { code: owned(code), message: m })
}

} // verus!
