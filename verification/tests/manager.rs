use stt_runtime::catalog::{ProviderId, RuntimeVariant};
use stt_runtime::error::RuntimeError;
use stt_runtime::hardware::HardwareReport;
use stt_runtime::launch::{LaunchBuilder, StartOptions};
use stt_runtime::manager::{
    InstallOperationStatus, InstallOutcome, ModelPullOutcome, RuntimeManager, StartStep,
};
use stt_runtime::providers::cache::FileProbe;
use stt_runtime::supervisor::{ExitPoll, RuntimeStatus};

fn hardware() -> HardwareReport {
    HardwareReport {
        has_nvidia_gpu: false,
        gpu_name: None,
        driver_version: None,
        vram_bytes: None,
        cpu_cores: 4,
        cpu_architecture: "x86_64".to_string(),
        total_ram_bytes: 8 << 30,
    }
}

fn fw() -> ProviderId {
    ProviderId::new("faster-whisper".to_string()).unwrap()
}

fn fake_launch() -> LaunchBuilder {
    LaunchBuilder::RawSource { runtime_dir: "/rt".to_string(), python: "python3".to_string() }
}

fn manager_with_faster_whisper_installed(idle_timeout_ms: Option<u64>) -> RuntimeManager {
    let mut m = RuntimeManager::new(idle_timeout_ms, hardware());
    m.register_install(&fw(), RuntimeVariant::Cpu, fake_launch());
    m
}

/// Runs the three start steps the way the daemon does, with `port` as the
/// allocated port and the spawn reported healthy.
fn start(m: &mut RuntimeManager, id: &ProviderId, options: &StartOptions, port: u16, now: u64)
    -> Result<stt_runtime::types::RuntimeConnectionDescriptor, RuntimeError>
{
    match m.start(id, options, now)? {
        StartStep::Running(d) => Ok(d),
        StartStep::AllocatePort { .. } => {
            let spec = m.prepare_launch(id, options, port, "/models")?;
            m.record_started(id, port, spec.auth_token, None, now)
        }
    }
}

#[test]
fn start_stop_and_status_lifecycle() {
    let mut manager = manager_with_faster_whisper_installed(None);
    let id = fw();
    assert_eq!(manager.status(&id), RuntimeStatus::Stopped);

    let descriptor = start(&mut manager, &id, &StartOptions::default(), 41001, 0).unwrap();
    assert_eq!(descriptor.provider, "faster-whisper");
    assert_eq!(descriptor.protocol, "voice-typer-v1");
    assert!(descriptor.base_url.starts_with("http://127.0.0.1:"));
    assert_eq!(manager.status(&id), RuntimeStatus::Running);

    let refetched = manager.descriptor(&id, 5).unwrap();
    assert_eq!(refetched.base_url, descriptor.base_url);

    manager.stop(&id).unwrap();
    assert_eq!(manager.status(&id), RuntimeStatus::Stopped);
}

#[test]
fn start_is_idempotent_while_already_running() {
    let mut manager = manager_with_faster_whisper_installed(None);
    let id = fw();
    let first = start(&mut manager, &id, &StartOptions::default(), 41002, 0).unwrap();
    let second = start(&mut manager, &id, &StartOptions::default(), 49999, 10).unwrap();
    assert_eq!(
        first.base_url, second.base_url,
        "second start should reuse the running instance, not spawn a new one"
    );
}

#[test]
fn a_crashed_instance_is_replaced_on_the_next_start() {
    let mut manager = manager_with_faster_whisper_installed(None);
    let id = fw();
    start(&mut manager, &id, &StartOptions::default(), 41003, 0).unwrap();
    manager.observe(&id, ExitPoll::Exited);
    assert_eq!(manager.status(&id), RuntimeStatus::Crashed);
    assert!(matches!(manager.descriptor(&id, 1), Err(RuntimeError::RuntimeNotRunning(_))));
    match manager.start(&id, &StartOptions::default(), 2).unwrap() {
        StartStep::AllocatePort { bind_host } => assert_eq!(bind_host, "127.0.0.1"),
        other => panic!("unexpected {other:?}"),
    }
    assert_eq!(manager.status(&id), RuntimeStatus::Stopped);
}

#[test]
fn stop_without_start_is_an_error() {
    let mut manager = manager_with_faster_whisper_installed(None);
    assert!(matches!(manager.stop(&fw()), Err(RuntimeError::RuntimeNotRunning(_))));
}

#[test]
fn start_rejects_unknown_provider() {
    let mut manager = manager_with_faster_whisper_installed(None);
    let id = ProviderId::new("does-not-exist".to_string()).unwrap();
    assert!(matches!(
        manager.start(&id, &StartOptions::default(), 0),
        Err(RuntimeError::ProviderNotFound(_))
    ));
}

#[test]
fn start_rejects_uninstalled_provider() {
    let manager = RuntimeManager::new(None, hardware());
    assert!(matches!(
        manager.prepare_launch(&fw(), &StartOptions::default(), 41004, "/models"),
        Err(RuntimeError::ProviderNotInstalled(_))
    ));
}

#[test]
fn sweep_idle_stops_instances_past_the_timeout_and_leaves_fresh_ones() {
    let mut manager = manager_with_faster_whisper_installed(Some(50));
    let id = fw();
    start(&mut manager, &id, &StartOptions::default(), 41005, 1000).unwrap();
    assert_eq!(manager.status(&id), RuntimeStatus::Running);
    assert!(manager.sweep_idle(1020).is_empty());
    let stopped = manager.sweep_idle(1150);
    assert_eq!(stopped, vec!["faster-whisper".to_string()]);
    assert_eq!(manager.status(&id), RuntimeStatus::Stopped);
}

#[test]
fn touch_resets_the_idle_clock() {
    let mut manager = manager_with_faster_whisper_installed(Some(150));
    let id = fw();
    start(&mut manager, &id, &StartOptions::default(), 41006, 0).unwrap();
    manager.touch(&id, 100).unwrap();
    let stopped = manager.sweep_idle(200);
    assert!(stopped.is_empty(), "touch() should have reset the idle clock: {stopped:?}");
    assert_eq!(manager.status(&id), RuntimeStatus::Running);
    assert!(matches!(
        manager.touch(&ProviderId::new("other".to_string()).unwrap(), 1),
        Err(RuntimeError::RuntimeNotRunning(_))
    ));
}

#[test]
fn sweep_idle_disabled_never_stops_anything() {
    let mut manager = manager_with_faster_whisper_installed(None);
    let id = fw();
    start(&mut manager, &id, &StartOptions::default(), 41007, 0).unwrap();
    assert!(manager.sweep_idle(u64::MAX).is_empty());
    assert_eq!(manager.status(&id), RuntimeStatus::Running);
}

#[test]
fn select_model_validates_against_the_provider_catalog() {
    let mut manager = manager_with_faster_whisper_installed(None);
    let id = fw();
    assert_eq!(manager.selected_model(&id), None);
    assert!(matches!(
        manager.select_model(&id, "not-a-real-model"),
        Err(RuntimeError::ModelNotFound(_))
    ));
    manager.select_model(&id, "Systran/faster-whisper-tiny").unwrap();
    assert_eq!(manager.selected_model(&id), Some("Systran/faster-whisper-tiny".to_string()));
}

#[test]
fn verify_and_remove_model_validate_against_the_catalog() {
    let manager = manager_with_faster_whisper_installed(None);
    let id = fw();
    assert!(matches!(
        manager.verify_model(&id, "not-a-real-model", &FileProbe::NotFound),
        Err(RuntimeError::ModelNotFound(_))
    ));
    assert!(matches!(
        manager.remove_model(&id, "not-a-real-model"),
        Err(RuntimeError::ModelNotFound(_))
    ));
    let bogus = ProviderId::new("not-a-real-provider".to_string()).unwrap();
    assert!(matches!(
        manager.verify_model(&bogus, "Systran/faster-whisper-tiny", &FileProbe::NotFound),
        Err(RuntimeError::ProviderNotFound(_))
    ));
    assert_eq!(manager.verify_model(&id, "Systran/faster-whisper-tiny", &FileProbe::NotFound).unwrap(), None);
    assert_eq!(
        manager
            .verify_model(&id, "Systran/faster-whisper-tiny", &FileProbe::Present { is_file: true, len: 12 })
            .unwrap(),
        Some(12)
    );
    assert!(manager.remove_model(&id, "Systran/faster-whisper-tiny").is_ok());
}

#[test]
fn begin_model_pull_returns_cached_instantly_when_weights_already_present() {
    let mut manager = manager_with_faster_whisper_installed(None);
    let (outcome, started) = manager
        .begin_model_pull(&fw(), "Systran/faster-whisper-tiny", &FileProbe::Present { is_file: true, len: 3 })
        .unwrap();
    assert!(matches!(outcome, ModelPullOutcome::Cached));
    assert!(!started);
}

#[test]
fn begin_model_pull_rejects_an_unknown_model() {
    let mut manager = manager_with_faster_whisper_installed(None);
    assert!(matches!(
        manager.begin_model_pull(&fw(), "not-a-real-model", &FileProbe::NotFound),
        Err(RuntimeError::ModelNotFound(_))
    ));
}

#[test]
fn begin_model_pull_tracks_one_download_per_model() {
    let mut manager = manager_with_faster_whisper_installed(None);
    let (first, started) = manager
        .begin_model_pull(&fw(), "Systran/faster-whisper-tiny", &FileProbe::NotFound)
        .unwrap();
    assert!(started);
    let ModelPullOutcome::Downloading { operation_id } = first else { panic!("expected a download") };
    let (second, started_again) = manager
        .begin_model_pull(&fw(), "Systran/faster-whisper-tiny", &FileProbe::NotFound)
        .unwrap();
    assert!(!started_again);
    assert!(matches!(second, ModelPullOutcome::Downloading { operation_id: ref o } if *o == operation_id));
    let op = manager.install_operation(&operation_id).unwrap();
    assert_eq!(op.model_id.as_deref(), Some("Systran/faster-whisper-tiny"));
    assert!(op.variant.is_none());
    assert_eq!(op.status, InstallOperationStatus::Downloading);
}

#[test]
fn start_threads_device_and_compute_type_into_the_launch_builder() {
    let mut manager = manager_with_faster_whisper_installed(None);
    let id = fw();
    let options = StartOptions {
        device: Some("cpu".to_string()),
        compute_type: Some("int8".to_string()),
        ..StartOptions::default()
    };
    assert!(matches!(manager.start(&id, &options, 0).unwrap(), StartStep::AllocatePort { .. }));
    let spec = manager.prepare_launch(&id, &options, 41008, "/models").unwrap();
    assert!(spec.env.contains(&("VOICE_TYPER_DEVICE".to_string(), "cpu".to_string())));
    assert!(spec.env.contains(&("VOICE_TYPER_COMPUTE_TYPE".to_string(), "int8".to_string())));
    assert!(spec.env.contains(&("VOICE_TYPER_PORT".to_string(), "41008".to_string())));
    assert_eq!(spec.health_path, "/health");
    assert_eq!(spec.auth_token.len(), 36);
}

#[test]
fn start_passes_the_selected_model_to_the_launch() {
    let mut manager = manager_with_faster_whisper_installed(None);
    let id = fw();
    manager.select_model(&id, "Systran/faster-whisper-base").unwrap();
    let spec = manager.prepare_launch(&id, &StartOptions::default(), 41009, "/m").unwrap();
    assert!(spec.env.contains(&("VOICE_TYPER_MODEL".to_string(), "Systran/faster-whisper-base".to_string())));
    assert!(spec.env.contains(&(
        "VOICE_TYPER_MODEL_DIR".to_string(),
        "/m/faster-whisper/Systran/faster-whisper-base".to_string()
    )));
}

#[test]
fn start_rejects_a_non_loopback_bind_host_that_isnt_the_wildcard() {
    let mut manager = manager_with_faster_whisper_installed(None);
    let options = StartOptions {
        bind_host: Some("192.168.1.5".to_string()),
        auth_token: Some("secret".to_string()),
        ..StartOptions::default()
    };
    match manager.start(&fw(), &options, 0) {
        Err(RuntimeError::InvalidStartOptions(m)) => assert_eq!(
            m,
            "unsupported bind_host \"192.168.1.5\": expected a loopback host, or \"0.0.0.0\" for LAN mode"
        ),
        other => panic!("unexpected {other:?}"),
    }
}

#[test]
fn start_rejects_wildcard_bind_host_without_an_auth_token() {
    let mut manager = manager_with_faster_whisper_installed(None);
    for token in [None, Some("  ".to_string())] {
        let options = StartOptions {
            bind_host: Some("0.0.0.0".to_string()),
            auth_token: token,
            ..StartOptions::default()
        };
        assert!(matches!(
            manager.start(&fw(), &options, 0),
            Err(RuntimeError::InvalidStartOptions(_))
        ));
    }
}

#[test]
fn start_rejects_cuda_device_when_the_registered_variant_is_cpu() {
    let mut manager = manager_with_faster_whisper_installed(None);
    let options = StartOptions { device: Some("cuda".to_string()), ..StartOptions::default() };
    match manager.start(&fw(), &options, 0) {
        Err(RuntimeError::InvalidStartOptions(m)) => assert_eq!(
            m,
            "device \"cuda\" was requested but the currently-registered faster-whisper build is the cpu variant, which cannot run CUDA inference; install the gpu variant first"
        ),
        other => panic!("unexpected {other:?}"),
    }
}

#[test]
fn start_accepts_cuda_device_when_the_registered_variant_is_gpu() {
    let mut manager = RuntimeManager::new(None, hardware());
    manager.register_install(&fw(), RuntimeVariant::Gpu, fake_launch());
    let options = StartOptions { device: Some("cuda".to_string()), ..StartOptions::default() };
    assert!(start(&mut manager, &fw(), &options, 41010, 0).is_ok());
}

#[test]
fn start_accepts_wildcard_bind_host_with_an_auth_token_and_keeps_descriptor_loopback() {
    let mut manager = manager_with_faster_whisper_installed(None);
    let options = StartOptions {
        bind_host: Some("0.0.0.0".to_string()),
        auth_token: Some("shared-secret".to_string()),
        ..StartOptions::default()
    };
    match manager.start(&fw(), &options, 0).unwrap() {
        StartStep::AllocatePort { bind_host } => assert_eq!(bind_host, "0.0.0.0"),
        other => panic!("unexpected {other:?}"),
    }
    let spec = manager.prepare_launch(&fw(), &options, 41011, "/m").unwrap();
    assert!(spec.env.contains(&("VOICE_TYPER_HOST".to_string(), "0.0.0.0".to_string())));
    assert_eq!(spec.auth_token, "shared-secret");
    let descriptor = manager.record_started(&fw(), 41011, spec.auth_token, None, 0).unwrap();
    assert_eq!(descriptor.base_url, "http://127.0.0.1:41011");
    assert_eq!(descriptor.auth.unwrap().value, "shared-secret");
}

#[test]
fn begin_install_rejects_unknown_provider() {
    let mut manager = RuntimeManager::new(None, hardware());
    let id = ProviderId::new("does-not-exist".to_string()).unwrap();
    assert!(matches!(
        manager.begin_install(&id, RuntimeVariant::Cpu, None),
        Err(RuntimeError::ProviderNotFound(_))
    ));
}

#[test]
fn uninstall_variant_rejects_unknown_provider() {
    let mut manager = RuntimeManager::new(None, hardware());
    let id = ProviderId::new("does-not-exist".to_string()).unwrap();
    assert!(matches!(manager.uninstall_variant(&id), Err(RuntimeError::ProviderNotFound(_))));
}

#[test]
fn install_operation_returns_none_for_an_unknown_operation_id() {
    let manager = RuntimeManager::new(None, hardware());
    assert!(manager.install_operation("not-a-real-op-id").is_none());
}

#[test]
fn begin_install_returns_installed_immediately_when_the_variant_is_already_cached() {
    let mut manager = RuntimeManager::new(None, hardware());
    let (outcome, started) = manager.begin_install(&fw(), RuntimeVariant::Cpu, Some(fake_launch())).unwrap();
    assert!(!started);
    match outcome {
        InstallOutcome::Installed { provider_id, variant } => {
            assert_eq!(provider_id, "faster-whisper");
            assert_eq!(variant, "cpu");
        }
        other => panic!("unexpected {other:?}"),
    }
    assert!(manager.is_installed(&fw()));
}

#[test]
fn begin_install_downloads_and_completes_when_nothing_is_cached_locally() {
    let mut manager = RuntimeManager::new(None, hardware());
    let (outcome, started) = manager.begin_install(&fw(), RuntimeVariant::Gpu, None).unwrap();
    assert!(started);
    let InstallOutcome::Downloading { operation_id, variant } = outcome else { panic!("expected a download") };
    assert_eq!(variant, "gpu");
    let (again, started_again) = manager.begin_install(&fw(), RuntimeVariant::Gpu, None).unwrap();
    assert!(!started_again);
    assert!(matches!(again, InstallOutcome::Downloading { operation_id: ref o, .. } if *o == operation_id));

    manager.record_progress(&operation_id, 10, Some(40));
    let op = manager.install_operation(&operation_id).unwrap();
    assert_eq!((op.downloaded_bytes, op.total_bytes), (10, Some(40)));

    manager.register_install(&fw(), RuntimeVariant::Gpu, fake_launch());
    manager.finish_operation(&operation_id, Ok(()));
    assert_eq!(manager.install_operation(&operation_id).unwrap().status, InstallOperationStatus::Complete);
    assert!(manager.is_installed(&fw()));
}

#[test]
fn a_failed_download_records_its_error() {
    let mut manager = RuntimeManager::new(None, hardware());
    let (outcome, _) = manager.begin_install(&fw(), RuntimeVariant::Cpu, None).unwrap();
    let InstallOutcome::Downloading { operation_id, .. } = outcome else { panic!() };
    manager.finish_operation(&operation_id, Err("download failed: 404".to_string()));
    let op = manager.install_operation(&operation_id).unwrap();
    assert_eq!(op.status, InstallOperationStatus::Failed);
    assert_eq!(op.error.as_deref(), Some("download failed: 404"));
    // A failed download no longer blocks a new one.
    let (_, started) = manager.begin_install(&fw(), RuntimeVariant::Cpu, None).unwrap();
    assert!(started);
}

#[test]
fn finished_operations_are_evicted_but_in_flight_ones_stay() {
    let mut manager = RuntimeManager::new(None, hardware());
    let mut ids = Vec::new();
    for _ in 0..9 {
        let (outcome, _) = manager.begin_install(&fw(), RuntimeVariant::Cpu, None).unwrap();
        let InstallOutcome::Downloading { operation_id, .. } = outcome else { panic!() };
        manager.finish_operation(&operation_id, Ok(()));
        ids.push(operation_id);
    }
    // Nine finished operations exceed the eight kept, but nothing is
    // trimmed until the next download is tracked.
    assert!(ids.iter().all(|id| manager.install_operation(id).is_some()));
    let (pending, _) = manager.begin_model_pull(&fw(), "Systran/faster-whisper-tiny", &FileProbe::NotFound).unwrap();
    let ModelPullOutcome::Downloading { operation_id: pending } = pending else { panic!() };
    // Only the oldest finished one went: eight finished ones stay.
    assert!(manager.install_operation(&ids[0]).is_none());
    assert!(ids[1..].iter().all(|id| manager.install_operation(id).is_some()));
    // In-flight downloads survive any number of evictions.
    let mut last = Vec::new();
    for _ in 0..10 {
        let (outcome, _) = manager.begin_install(&fw(), RuntimeVariant::Gpu, None).unwrap();
        let InstallOutcome::Downloading { operation_id, .. } = outcome else { panic!() };
        manager.finish_operation(&operation_id, Err("x".to_string()));
        last.push(operation_id);
    }
    assert_eq!(manager.install_operation(&pending).unwrap().status, InstallOperationStatus::Downloading);
    // The newest finished operations are the ones kept.
    assert!(last[2..].iter().all(|id| manager.install_operation(id).is_some()));
}

#[test]
fn eight_finished_operations_are_all_kept() {
    let mut manager = RuntimeManager::new(None, hardware());
    let mut ids = Vec::new();
    for _ in 0..8 {
        let (outcome, _) = manager.begin_install(&fw(), RuntimeVariant::Cpu, None).unwrap();
        let InstallOutcome::Downloading { operation_id, .. } = outcome else { panic!() };
        manager.finish_operation(&operation_id, Ok(()));
        ids.push(operation_id);
    }
    manager.begin_model_pull(&fw(), "Systran/faster-whisper-base", &FileProbe::NotFound).unwrap();
    assert!(ids.iter().all(|id| manager.install_operation(id).is_some()));
}

#[test]
fn uninstall_variant_removes_a_previously_cached_copy() {
    let mut manager = manager_with_faster_whisper_installed(None);
    start(&mut manager, &fw(), &StartOptions::default(), 41012, 0).unwrap();
    let stopped = manager.uninstall_variant(&fw()).unwrap();
    assert_eq!(stopped.unwrap().port, 41012);
    assert_eq!(manager.status(&fw()), RuntimeStatus::Stopped);
    assert!(manager.is_installed(&fw()));
}

#[test]
fn uninstall_cascades_and_removes_every_cached_variant_not_just_the_registered_one() {
    let mut manager = manager_with_faster_whisper_installed(None);
    start(&mut manager, &fw(), &StartOptions::default(), 41013, 0).unwrap();
    let (stopped, result) = manager.uninstall(&fw());
    assert!(stopped.is_some());
    assert!(result.is_ok());
    assert!(!manager.is_installed(&fw()));
    let (stopped, result) = manager.uninstall(&fw());
    assert!(stopped.is_none());
    assert!(matches!(result, Err(RuntimeError::ProviderNotInstalled(_))));
}

#[test]
fn preferred_variant_keeps_the_registered_build() {
    let mut manager = RuntimeManager::new(None, HardwareReport { has_nvidia_gpu: true, ..hardware() });
    assert_eq!(manager.preferred_variant(&fw(), None), RuntimeVariant::Gpu);
    manager.register_install(&fw(), RuntimeVariant::Cpu, fake_launch());
    assert_eq!(manager.preferred_variant(&fw(), None), RuntimeVariant::Cpu);
    assert_eq!(manager.preferred_variant(&fw(), Some(RuntimeVariant::Gpu)), RuntimeVariant::Gpu);
}

#[test]
fn a_stopped_provider_reads_stopped_and_cannot_be_stopped_again() {
    let mut manager = manager_with_faster_whisper_installed(None);
    start(&mut manager, &fw(), &StartOptions::default(), 41020, 0).unwrap();
    assert_eq!(manager.status(&fw()), RuntimeStatus::Running);
    manager.stop(&fw()).unwrap();
    assert_eq!(manager.status(&fw()), RuntimeStatus::Stopped);
    assert!(matches!(manager.stop(&fw()), Err(RuntimeError::RuntimeNotRunning(_))));
}

#[test]
fn a_fresh_install_operation_reads_back_as_just_started() {
    let mut manager = RuntimeManager::new(None, hardware());
    let (outcome, started) = manager.begin_install(&fw(), RuntimeVariant::Cpu, None).unwrap();
    assert!(started);
    let InstallOutcome::Downloading { operation_id, .. } = outcome else { panic!() };
    let op = manager.install_operation(&operation_id).unwrap();
    assert_eq!(op.operation_id, operation_id);
    assert_eq!(op.provider_id, "faster-whisper");
    assert_eq!(op.variant.as_deref(), Some("cpu"));
    assert_eq!(op.model_id, None);
    assert_eq!(op.status, InstallOperationStatus::Downloading);
    assert_eq!((op.downloaded_bytes, op.total_bytes, op.error), (0, None, None));
}
