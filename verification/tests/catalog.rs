use stt_runtime::catalog::{catalog, find_model, find_provider, list_providers, ProviderId, RuntimeVariant};
use stt_runtime::error::RuntimeError;
use stt_runtime::hardware::HardwareReport;

fn hardware(has_nvidia_gpu: bool) -> HardwareReport {
    HardwareReport {
        has_nvidia_gpu,
        gpu_name: None,
        driver_version: None,
        vram_bytes: None,
        cpu_cores: 8,
        cpu_architecture: "x86_64".to_string(),
        total_ram_bytes: 16 * 1024 * 1024 * 1024,
    }
}

#[test]
fn rejects_path_traversal_provider_ids() {
    assert!(ProviderId::new("../etc/passwd".to_string()).is_err());
    assert!(ProviderId::new("foo/bar".to_string()).is_err());
    assert!(ProviderId::new("".to_string()).is_err());
    assert!(ProviderId::new("faster-whisper".to_string()).is_ok());
}

#[test]
fn find_provider_rejects_unknown_id() {
    let id = ProviderId::new("does-not-exist".to_string()).unwrap();
    assert!(matches!(
        find_provider(&id),
        Err(RuntimeError::ProviderNotFound(_))
    ));
}

#[test]
fn find_provider_returns_faster_whisper() {
    let id = ProviderId::new("faster-whisper".to_string()).unwrap();
    assert_eq!(find_provider(&id).unwrap().id, "faster-whisper");
}

#[test]
fn provider_id_errors_say_why() {
    match ProviderId::new(String::new()) {
        Err(RuntimeError::InvalidProviderId(m)) => assert_eq!(m, "provider ID cannot be empty"),
        other => panic!("unexpected {other:?}"),
    }
    match ProviderId::new("a".repeat(129)) {
        Err(RuntimeError::InvalidProviderId(m)) => assert_eq!(m, "provider ID too long"),
        other => panic!("unexpected {other:?}"),
    }
    match ProviderId::new("a b".to_string()) {
        Err(RuntimeError::InvalidProviderId(m)) => {
            assert_eq!(m, "provider ID contains invalid characters: a b")
        }
        other => panic!("unexpected {other:?}"),
    }
    assert!(ProviderId::new("a".repeat(128)).is_ok());
    assert!(ProviderId::new("under_score-9".to_string()).is_ok());
}

#[test]
fn runtime_variant_names_round_trip() {
    for v in [RuntimeVariant::Cpu, RuntimeVariant::Gpu] {
        assert_eq!(RuntimeVariant::parse(v.as_str()), Some(v));
    }
    assert_eq!(RuntimeVariant::parse("cuda"), None);
    assert_eq!(RuntimeVariant::parse("CPU"), None);
}

#[test]
fn catalog_lists_faster_whisper_with_its_curated_models() {
    let entries = catalog();
    assert_eq!(entries.len(), 1);
    let e = &entries[0];
    assert_eq!(e.protocol, "voice-typer-v1");
    assert_eq!(e.transport, "http");
    assert_eq!(e.health_path, "/health");
    assert_eq!(e.default_model, "Systran/faster-whisper-small");
    let ids: Vec<&str> = e.models.iter().map(|m| m.id.as_str()).collect();
    assert_eq!(
        ids,
        vec![
            "Systran/faster-whisper-tiny",
            "Systran/faster-whisper-base",
            "Systran/faster-whisper-small",
            "Systran/faster-whisper-medium",
            "Systran/faster-whisper-large-v3",
        ]
    );
    assert_eq!(find_model(e, "Systran/faster-whisper-large-v3").unwrap().display_name, "Large v3");
    assert!(find_model(e, "not-a-real-model").is_none());
}

#[test]
fn every_provider_is_compatible_on_any_machine() {
    for gpu in [true, false] {
        let infos = list_providers(&hardware(gpu));
        assert_eq!(infos.len(), 1);
        assert_eq!(infos[0].id, "faster-whisper");
        assert_eq!(infos[0].display_name, "Faster Whisper");
        assert!(infos[0].compatible);
        assert!(infos[0].compatibility_reason.is_none());
    }
}
