use stt_runtime::manifest::find;
use stt_runtime::sherpad::{
    authorized, is_cors_preflight, missing_file, response_language, ApiError, LanguageStep, LoadStep,
    SherpadState, SwitchStep, TranscribeParams,
};

fn test_state(default_model: Option<&str>) -> SherpadState {
    SherpadState::new(
        "/data/models".to_string(),
        "/data/tmp".to_string(),
        default_model.map(str::to_string),
        None,
    )
}

fn mark_loaded(state: &mut SherpadState, id: &str, language: &str) {
    let dir = state.install_dir(id);
    state.record_loaded(id, dir, language.to_string());
}

#[test]
fn health_is_unavailable_while_the_default_model_is_not_installed() {
    let state = test_state(Some("parakeet-tdt-0.6b-v2"));
    let health = state.health();
    assert_eq!(health.http_status, 503);
    assert_eq!(health.status, "model_not_loaded");
    assert_eq!(health.model, "parakeet-tdt-0.6b-v2");
    assert_eq!(state.config(), ("parakeet-tdt-0.6b-v2".to_string(), false));
}

#[test]
fn health_is_unavailable_while_the_default_model_is_installed_but_not_loaded() {
    let mut state = test_state(Some("parakeet-tdt-0.6b-v2"));
    let dir = state.install_dir("parakeet-tdt-0.6b-v2");
    state.record_installed("parakeet-tdt-0.6b-v2", dir);
    assert_eq!(state.health().http_status, 503);
}

#[test]
fn health_is_ok_once_the_default_model_is_loaded() {
    let mut state = test_state(Some("parakeet-tdt-0.6b-v2"));
    mark_loaded(&mut state, "parakeet-tdt-0.6b-v2", "en");
    let health = state.health();
    assert_eq!(health.http_status, 200);
    assert_eq!(health.status, "ok");
    assert!(state.config().1);
}

#[test]
fn health_is_ok_without_a_default_model() {
    let state = test_state(None);
    let health = state.health();
    assert_eq!(health.http_status, 200);
    assert_eq!(health.status, "ok");
    assert_eq!(health.model, "");
    assert!(!state.config().1);
}

#[test]
fn set_model_language_reports_unchanged_without_rebuilding() {
    let mut state = test_state(None);
    mark_loaded(&mut state, "sense-voice-multi", "auto");
    assert!(matches!(state.language_step("sense-voice-multi", "auto"), Ok(LanguageStep::Unchanged)));
    match state.language_step("sense-voice-multi", "zh") {
        Ok(LanguageStep::Rebuild { dir, language }) => {
            assert_eq!(dir, "/data/models/sense-voice-multi");
            assert_eq!(language, "zh");
        }
        other => panic!("unexpected {other:?}"),
    }
}

#[test]
fn set_model_language_rejects_a_language_the_model_does_not_support() {
    let mut state = test_state(None);
    mark_loaded(&mut state, "sense-voice-multi", "auto");
    let err = state.language_step("sense-voice-multi", "fr").unwrap_err();
    assert_eq!(err.status(), 400);
}

#[test]
fn set_model_language_rejects_a_model_that_was_never_installed() {
    let state = test_state(None);
    let err = state.language_step("sense-voice-multi", "en").unwrap_err();
    assert_eq!(err.status(), 400);
}

#[test]
fn set_model_language_rejects_an_unknown_model_id() {
    let state = test_state(None);
    let err = state.language_step("not-a-real-model", "en").unwrap_err();
    assert_eq!(err.status(), 404);
    assert!(matches!(err, ApiError::NotFound(m) if m == "unknown model id 'not-a-real-model'"));
}

#[test]
fn admin_switch_model_swaps_the_default_without_reloading_an_already_loaded_model() {
    let mut state = test_state(Some("parakeet-tdt-0.6b-v2"));
    mark_loaded(&mut state, "parakeet-tdt-0.6b-v2", "en");
    mark_loaded(&mut state, "sense-voice-multi", "auto");
    assert!(matches!(state.switch_default("sense-voice-multi"), Ok(SwitchStep::Switched)));
    assert_eq!(state.default_model().as_deref(), Some("sense-voice-multi"));
}

#[test]
fn admin_switch_to_an_installed_model_loads_it_first() {
    let mut state = test_state(None);
    let dir = state.install_dir("whisper-tiny-en");
    state.record_installed("whisper-tiny-en", dir);
    match state.switch_default("whisper-tiny-en") {
        Ok(SwitchStep::LoadFirst { dir, language }) => {
            assert_eq!(dir, "/data/models/whisper-tiny-en");
            assert_eq!(language, "en");
        }
        other => panic!("unexpected {other:?}"),
    }
    assert_eq!(state.default_model(), None);
}

#[test]
fn unload_refuses_the_current_default_model() {
    let mut state = test_state(Some("sense-voice-multi"));
    mark_loaded(&mut state, "sense-voice-multi", "auto");
    assert_eq!(state.unload("sense-voice-multi").unwrap_err().status(), 400);
    assert!(state.is_model_loaded("sense-voice-multi"));
}

#[test]
fn unload_succeeds_for_a_non_default_loaded_model() {
    let mut state = test_state(Some("sense-voice-multi"));
    mark_loaded(&mut state, "sense-voice-multi", "auto");
    mark_loaded(&mut state, "parakeet-tdt-0.6b-v2", "auto");
    assert!(state.unload("parakeet-tdt-0.6b-v2").is_ok());
    assert!(!state.is_model_loaded("parakeet-tdt-0.6b-v2"));
    let views = state.model_views();
    let p = views.iter().find(|v| v.id == "parakeet-tdt-0.6b-v2").unwrap();
    assert_eq!(p.status, "installed");
}

#[test]
fn unload_of_unknown_model_is_not_found() {
    let mut state = test_state(Some("sense-voice-multi"));
    mark_loaded(&mut state, "sense-voice-multi", "auto");
    assert_eq!(state.unload("not-a-real-model").unwrap_err().status(), 404);
}

#[test]
fn load_step_follows_the_registry() {
    let mut state = test_state(None);
    assert_eq!(state.load_step("nope").unwrap_err().status(), 404);
    assert_eq!(state.load_step("whisper-base-en").unwrap_err().status(), 400);
    state.record_pulled("whisper-base-en", "/x".to_string()).unwrap();
    assert!(matches!(state.load_step("whisper-base-en"), Ok(LoadStep::Build { .. })));
    mark_loaded(&mut state, "whisper-base-en", "en");
    assert!(matches!(state.load_step("whisper-base-en"), Ok(LoadStep::AlreadyLoaded)));
    assert_eq!(state.loaded_ids(), vec!["whisper-base-en".to_string()]);
    state.delete_model("whisper-base-en").unwrap();
    assert!(state.loaded_ids().is_empty());
}

#[test]
fn missing_file_field_returns_400() {
    let err = missing_file();
    assert_eq!(err.status(), 400);
    assert!(matches!(err, ApiError::BadRequest(ref m) if m == "missing 'file' field"));
}

#[test]
fn no_default_model_and_no_model_field_returns_400() {
    let state = test_state(None);
    assert_eq!(state.resolve_model(None).unwrap_err().status(), 400);
    assert_eq!(state.resolve_model(Some("x".to_string())).unwrap(), "x");
    let state = test_state(Some("whisper-tiny-en"));
    assert_eq!(state.resolve_model(None).unwrap(), "whisper-tiny-en");
}

#[test]
fn transcribe_form_fields_set_the_parameters() {
    let mut p = TranscribeParams::new();
    assert_eq!(p.response_format, "json");
    p.apply_field("model", Some("whisper-tiny-en".to_string()));
    p.apply_field("timestamp_granularities[]", Some("segment".to_string()));
    assert!(!p.want_word_timestamps);
    p.apply_field("timestamp_granularities[]", Some("word".to_string()));
    p.apply_field("response_format", Some("text".to_string()));
    p.apply_field("other", Some("x".to_string()));
    assert_eq!(p.model.as_deref(), Some("whisper-tiny-en"));
    assert!(p.want_word_timestamps);
    assert!(p.wants_text());
}

#[test]
fn json_responses_report_no_language_for_auto_models() {
    assert_eq!(response_language(&find("sense-voice-multi").unwrap()), None);
    assert_eq!(response_language(&find("whisper-tiny-en").unwrap()), Some("en"));
}

#[test]
fn browser_cors_preflight_is_recognized_without_authorization() {
    assert!(is_cors_preflight(true, true, true));
    assert!(authorized(Some("secret"), true, None));
}

#[test]
fn ordinary_options_request_is_not_treated_as_cors_preflight() {
    assert!(!is_cors_preflight(true, false, false));
}

#[test]
fn authenticated_get_is_still_a_real_api_request() {
    assert!(!is_cors_preflight(false, true, false));
    assert!(authorized(Some("secret"), false, Some("Bearer secret")));
    assert!(!authorized(Some("secret"), false, Some("Bearer wrong")));
    assert!(!authorized(Some("secret"), false, None));
    assert!(authorized(None, false, None));
}

#[test]
fn tmp_dir_is_the_configured_scratch_directory() {
    let mut state = test_state(Some("whisper-tiny-en"));
    assert_eq!(state.tmp_dir(), "/data/tmp");
    let dir = state.install_dir("whisper-tiny-en");
    state.record_installed("whisper-tiny-en", dir);
    assert_eq!(state.tmp_dir(), "/data/tmp");
}
