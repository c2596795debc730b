use stt_runtime::sherpad::authorized;
use stt_runtime::error::RuntimeError;
use stt_runtime::manager::{InstallOutcome, ModelPullOutcome};
use stt_runtime::routes::{
    check_remote_bind, install_response, invalid_body, logs_tail, parse_variant, pull_response,
    runtime_error_response, start_options, verify_response, InstallResponse, LogsQuery,
    PullModelResponse, StartProviderRequest,
};
use stt_runtime::catalog::RuntimeVariant;

#[test]
fn runtime_errors_map_to_status_and_code() {
    let (status, body) = runtime_error_response(&RuntimeError::ProviderNotFound("x".to_string()));
    assert_eq!(status, 404);
    assert_eq!(body.code, "PROVIDER_NOT_FOUND");
    assert_eq!(body.message, "provider not found: x");
    assert_eq!(runtime_error_response(&RuntimeError::RuntimeNotRunning("x".to_string())).0, 409);
    assert_eq!(runtime_error_response(&RuntimeError::ModelNotFound("x".to_string())).0, 400);
    assert_eq!(runtime_error_response(&RuntimeError::Io("x".to_string())).0, 500);
}

#[test]
fn variants_and_install_outcomes() {
    assert_eq!(parse_variant("gpu").unwrap(), RuntimeVariant::Gpu);
    let (status, body) = parse_variant("tpu").unwrap_err();
    assert_eq!(status, 400);
    assert_eq!(body.message, "unsupported variant: tpu");
    let (code, r) = install_response(
        "faster-whisper",
        InstallOutcome::Downloading { operation_id: "op".to_string(), variant: "gpu".to_string() },
    );
    assert_eq!(code, 202);
    assert!(matches!(r, InstallResponse::Downloading { provider_id, .. } if provider_id == "faster-whisper"));
    let (code, _) = install_response(
        "faster-whisper",
        InstallOutcome::Installed { provider_id: "faster-whisper".to_string(), variant: "cpu".to_string() },
    );
    assert_eq!(code, 200);
    assert!(matches!(pull_response(ModelPullOutcome::Cached), (200, PullModelResponse::Cached)));
    assert!(verify_response(Some(3)).verified);
    assert!(!verify_response(None).verified);
}

#[test]
fn remote_binds_need_the_daemon_to_allow_remote() {
    let req = StartProviderRequest {
        device: None,
        compute_type: None,
        bind_host: Some("0.0.0.0".to_string()),
        auth_token: Some("t".to_string()),
    };
    assert_eq!(check_remote_bind(&req, false).unwrap_err().0, 403);
    assert!(check_remote_bind(&req, true).is_ok());
    let options = start_options(req);
    assert_eq!(options.bind_host.as_deref(), Some("0.0.0.0"));
    assert_eq!(logs_tail(&LogsQuery { tail: None }), 100);
    assert_eq!(invalid_body("INVALID_START_REQUEST", "start", "eof").1.message, "invalid start request body: eof");
}

// The control plane's bearer rule (no preflight exemption on its own API).

#[test]
fn requests_pass_through_without_auth_configured() {
    assert!(authorized(None, false, None));
}

#[test]
fn requests_without_token_are_rejected_when_auth_configured() {
    assert!(!authorized(Some("secret"), false, None));
}

#[test]
fn requests_with_wrong_token_are_rejected_when_auth_configured() {
    assert!(!authorized(Some("secret"), false, Some("Bearer wrong")));
}

#[test]
fn requests_with_correct_token_are_allowed_when_auth_configured() {
    assert!(authorized(Some("secret"), false, Some("Bearer secret")));
}
