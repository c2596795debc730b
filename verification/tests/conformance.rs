use stt_runtime::conformance::{
    bearer_token, endpoint, run_checks, skip_model_not_cached, skip_not_installed, start_failed,
    ConfigOutcome, ConformanceOutcome, HttpOutcome, TranscribeOutcome,
};
use stt_runtime::catalog::{ProviderId, RuntimeVariant};
use stt_runtime::conformance::prepare_check;
use stt_runtime::error::RuntimeError;
use stt_runtime::hardware::HardwareReport;
use stt_runtime::launch::LaunchBuilder;
use stt_runtime::manager::RuntimeManager;
use stt_runtime::providers::cache::FileProbe;
use stt_runtime::types::{DescriptorAuth, RuntimeConnectionDescriptor};

fn descriptor() -> RuntimeConnectionDescriptor {
    RuntimeConnectionDescriptor {
        schema_version: 1,
        provider: "faster-whisper".to_string(),
        protocol: "voice-typer-v1".to_string(),
        transport: "http".to_string(),
        base_url: "http://127.0.0.1:5000".to_string(),
        streaming: None,
        auth: Some(DescriptorAuth { auth_type: "token".to_string(), value: "tok".to_string() }),
    }
}

fn status(code: u16, text: &str) -> HttpOutcome {
    HttpOutcome::Status { code, text: text.to_string() }
}

#[test]
fn a_conformant_provider_passes_every_check() {
    let outcome = run_checks(
        &descriptor(),
        status(200, "200 OK"),
        ConfigOutcome::Parsed { has_model: true },
        status(401, "401 Unauthorized"),
        TranscribeOutcome::Transcript("And so, my fellow Americans, ask not what your country can do".to_string()),
    );
    assert!(outcome.all_passed());
    let ConformanceOutcome::Ran { checks } = outcome else { panic!() };
    let names: Vec<&str> = checks.iter().map(|c| c.name).collect();
    assert_eq!(
        names,
        vec![
            "descriptor.schemaVersion",
            "descriptor.protocol",
            "descriptor.baseUrl",
            "GET /health",
            "GET /v1/config",
            "auth enforcement",
            "transcribe (no model field)",
        ]
    );
    assert_eq!(checks[6].detail, "And so, my fellow Americans, ask not wha...");
}

#[test]
fn each_violation_fails_its_own_check() {
    let mut d = descriptor();
    d.schema_version = 2;
    d.protocol = "other".to_string();
    d.base_url = String::new();
    let outcome = run_checks(
        &d,
        status(503, "503 Service Unavailable"),
        ConfigOutcome::Parsed { has_model: false },
        status(200, "200 OK"),
        TranscribeOutcome::Transcript("   ".to_string()),
    );
    assert!(!outcome.all_passed());
    let ConformanceOutcome::Ran { checks } = outcome else { panic!() };
    assert!(checks.iter().all(|c| !c.passed));
    assert_eq!(checks[0].detail, "expected 1, got 2");
    assert_eq!(checks[2].detail, "empty");
    assert_eq!(checks[4].detail, "missing 'model' field");
    assert_eq!(checks[5].detail, "expected 401, got 200 OK (token not enforced)");
    assert_eq!(checks[6].detail, "'text' was empty");
}

#[test]
fn skips_and_start_failures_are_visible() {
    assert!(skip_not_installed().all_passed());
    match skip_model_not_cached("Systran/faster-whisper-small") {
        ConformanceOutcome::Skipped { reason } => assert_eq!(
            reason,
            "default model 'Systran/faster-whisper-small' not already cached in this environment"
        ),
        _ => panic!(),
    }
    let failed = start_failed(&RuntimeError::RuntimeStartFailed("timeout".to_string()));
    assert!(!failed.all_passed());
    assert_eq!(bearer_token(&descriptor()), "tok");
    assert_eq!(endpoint("http://h", "/health"), "http://h/health");
}

fn manager() -> RuntimeManager {
    RuntimeManager::new(
        None,
        HardwareReport {
            has_nvidia_gpu: false,
            gpu_name: None,
            driver_version: None,
            vram_bytes: None,
            cpu_cores: 2,
            cpu_architecture: "x86_64".to_string(),
            total_ram_bytes: 1 << 30,
        },
    )
}

fn skipped_reason(r: Result<ProviderId, ConformanceOutcome>) -> String {
    match r {
        Err(ConformanceOutcome::Skipped { reason }) => reason,
        _ => panic!("expected a skip"),
    }
}

#[test]
fn a_run_skips_an_invalid_id_an_uninstalled_runtime_and_an_uncached_model() {
    let mut m = manager();
    let present = FileProbe::Present { is_file: true, len: 10 };
    assert_eq!(
        skipped_reason(prepare_check(&mut m, "bad/id", "x", &present)),
        "invalid provider id: invalid provider ID: provider ID contains invalid characters: bad/id"
    );
    let model = "Systran/faster-whisper-small";
    assert_eq!(
        skipped_reason(prepare_check(&mut m, "faster-whisper", model, &present)),
        "runtime not locally installed in this environment"
    );
    let id = ProviderId::new("faster-whisper".to_string()).unwrap();
    m.register_install(
        &id,
        RuntimeVariant::Cpu,
        LaunchBuilder::RawSource { runtime_dir: "/rt".to_string(), python: "python3".to_string() },
    );
    assert_eq!(
        skipped_reason(prepare_check(&mut m, "faster-whisper", model, &FileProbe::NotFound)),
        "default model 'Systran/faster-whisper-small' not already cached in this environment"
    );
    assert_eq!(m.selected_model(&id), None);
    let ready = prepare_check(&mut m, "faster-whisper", model, &present).ok().unwrap();
    assert_eq!(ready.as_str(), "faster-whisper");
    assert_eq!(m.selected_model(&id).as_deref(), Some(model));
}
