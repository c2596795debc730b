use stt_runtime::catalog::RuntimeVariant;
use stt_runtime::error::RuntimeError;
use stt_runtime::launch::{LaunchBuilder, StartOptions};
use stt_runtime::providers::cache::FileProbe;
use stt_runtime::providers::faster_whisper::{
    asset_name, cached_model_dir, detect_runtime_kind, install, install_local, locate_runtime_dir,
    packaged_executable_name, packaged_launch_builder, python_candidates, raw_source_launch_builder,
    read_packaged_variant_sentinel, release_base_url, resolve_download_runtime, resolve_python,
    runtime_dir_candidates, verify_cached_model, LocalRuntime, RuntimeDirProbe, RuntimeKind,
};
use stt_runtime::providers::faster_whisper::{cached_variant_dir, cached_variant_exe_path};
use stt_runtime::providers::Platform;

fn env_has(env: &[(String, String)], k: &str, v: &str) -> bool {
    env.contains(&(k.to_string(), v.to_string()))
}

fn env_key(env: &[(String, String)], k: &str) -> bool {
    env.iter().any(|(key, _)| key == k)
}

#[test]
fn python_candidate_order_matches_what_a_stdlib_venv_actually_provides() {
    assert_eq!(python_candidates(Platform::Windows), ["python", "python3"]);
    assert_eq!(python_candidates(Platform::Unix), ["python3", "python"]);
}

#[test]
fn asset_name_follows_the_os_variant_naming_convention() {
    assert_eq!(
        asset_name(RuntimeVariant::Cpu, Platform::Windows),
        "faster-whisper-runtime-windows-cpu.exe"
    );
    assert_eq!(
        asset_name(RuntimeVariant::Cpu, Platform::Unix),
        "faster-whisper-runtime-linux-cpu"
    );
    assert!(asset_name(RuntimeVariant::Gpu, Platform::Unix).contains("-gpu"));
    assert!(asset_name(RuntimeVariant::Gpu, Platform::Windows).contains("-gpu"));
}

#[test]
fn raw_source_launch_builder_passes_port_auth_and_model_through_env() {
    let builder = raw_source_launch_builder("/runtime".to_string(), "python3".to_string());
    let launch = builder.build(
        5123,
        "tok-abc",
        Some("Systran/faster-whisper-tiny"),
        &StartOptions::default(),
        "/models",
    );

    assert_eq!(launch.program, "python3");
    assert_eq!(launch.args, vec!["run_sidecar.py".to_string()]);
    assert_eq!(launch.cwd, Some("/runtime".to_string()));
    assert!(env_has(&launch.env, "VOICE_TYPER_PORT", "5123"));
    assert!(env_has(&launch.env, "VOICE_TYPER_AUTH_TOKEN", "tok-abc"));
    assert!(env_has(&launch.env, "VOICE_TYPER_MODEL", "Systran/faster-whisper-tiny"));
    assert!(
        env_key(&launch.env, "VOICE_TYPER_MODEL_DIR"),
        "expected an explicit VOICE_TYPER_MODEL_DIR alongside VOICE_TYPER_MODEL"
    );
    assert!(env_has(
        &launch.env,
        "VOICE_TYPER_MODEL_DIR",
        "/models/faster-whisper/Systran/faster-whisper-tiny"
    ));
}

#[test]
fn packaged_launch_builder_spawns_the_exe_directly_with_no_args() {
    let builder = packaged_launch_builder(
        "/runtime/voice-typer-backend.exe".to_string(),
        "/runtime".to_string(),
    );
    let launch = builder.build(5123, "tok-abc", None, &StartOptions::default(), "/models");

    assert_eq!(launch.program, "/runtime/voice-typer-backend.exe");
    assert!(launch.args.is_empty(), "packaged exe needs no script argument");
    assert_eq!(launch.cwd, Some("/runtime".to_string()));
    assert!(env_has(&launch.env, "VOICE_TYPER_PORT", "5123"));
    assert!(env_has(&launch.env, "VOICE_TYPER_AUTH_TOKEN", "tok-abc"));
}

#[test]
fn launch_builder_passes_device_and_compute_type_through_env_when_set() {
    let builder = raw_source_launch_builder("/runtime".to_string(), "python3".to_string());
    let options = StartOptions {
        device: Some("cpu".to_string()),
        compute_type: Some("int8".to_string()),
        ..StartOptions::default()
    };
    let launch = builder.build(5123, "tok-abc", None, &options, "/models");

    assert!(env_has(&launch.env, "VOICE_TYPER_DEVICE", "cpu"));
    assert!(env_has(&launch.env, "VOICE_TYPER_COMPUTE_TYPE", "int8"));
}

#[test]
fn launch_builder_binds_loopback_by_default_and_the_requested_host_when_set() {
    let builder = raw_source_launch_builder("/runtime".to_string(), "python3".to_string());

    let default_launch = builder.build(5123, "tok-abc", None, &StartOptions::default(), "/models");
    assert!(env_has(&default_launch.env, "VOICE_TYPER_HOST", "127.0.0.1"));

    let lan_options = StartOptions {
        bind_host: Some("0.0.0.0".to_string()),
        auth_token: Some("shared-secret".to_string()),
        ..StartOptions::default()
    };
    let lan_launch = builder.build(5123, "tok-abc", None, &lan_options, "/models");
    assert!(env_has(&lan_launch.env, "VOICE_TYPER_HOST", "0.0.0.0"));
}

#[test]
fn launch_builder_omits_device_and_compute_type_when_not_set() {
    let builder = raw_source_launch_builder("/runtime".to_string(), "python3".to_string());
    let launch = builder.build(5123, "tok-abc", None, &StartOptions::default(), "/models");

    assert!(!env_key(&launch.env, "VOICE_TYPER_DEVICE"));
    assert!(!env_key(&launch.env, "VOICE_TYPER_COMPUTE_TYPE"));
}

#[test]
fn launch_builder_omits_model_env_var_when_none_selected() {
    let builder = raw_source_launch_builder("/runtime".to_string(), "python3".to_string());
    let launch = builder.build(5123, "tok-abc", None, &StartOptions::default(), "/models");
    assert!(!env_key(&launch.env, "VOICE_TYPER_MODEL"));
}

#[test]
fn launch_env_is_in_the_documented_order() {
    let builder = raw_source_launch_builder("/rt".to_string(), "python".to_string());
    let options = StartOptions {
        device: Some("cuda".to_string()),
        compute_type: Some("float16".to_string()),
        ..StartOptions::default()
    };
    let launch = builder.build(80, "t", Some("m"), &options, "/root");
    let keys: Vec<&str> = launch.env.iter().map(|(k, _)| k.as_str()).collect();
    assert_eq!(
        keys,
        vec![
            "VOICE_TYPER_HOST",
            "VOICE_TYPER_AUTH_TOKEN",
            "VOICE_TYPER_MODEL",
            "VOICE_TYPER_MODEL_DIR",
            "VOICE_TYPER_DEVICE",
            "VOICE_TYPER_COMPUTE_TYPE",
            "VOICE_TYPER_PORT",
        ]
    );
}

fn probe(packaged: bool, sidecar: bool, main: bool) -> RuntimeDirProbe {
    RuntimeDirProbe {
        packaged_is_file: packaged,
        sidecar_is_file: sidecar,
        app_main_is_file: main,
    }
}

#[test]
fn detect_runtime_kind_prefers_packaged_over_raw_source_when_both_present() {
    assert_eq!(
        detect_runtime_kind("/d", Platform::Unix, probe(true, true, true)),
        Some(RuntimeKind::Packaged(format!("/d/{}", packaged_executable_name(Platform::Unix))))
    );
}

#[test]
fn detect_runtime_kind_falls_back_to_raw_source_when_no_packaged_exe() {
    assert_eq!(
        detect_runtime_kind("/d", Platform::Unix, probe(false, true, true)),
        Some(RuntimeKind::RawSource)
    );
    assert_eq!(detect_runtime_kind("/d", Platform::Unix, probe(false, true, false)), None);
}

#[test]
fn detect_runtime_kind_none_when_neither_form_present() {
    assert_eq!(detect_runtime_kind("/d", Platform::Windows, probe(false, false, false)), None);
}

#[test]
fn locate_runtime_dir_honors_the_env_var_override() {
    let candidates = runtime_dir_candidates(Some("/opt/bin"), Some("/work"));
    assert_eq!(
        candidates,
        vec![
            "/opt/bin/runtimes/faster-whisper".to_string(),
            "/work/runtimes/faster-whisper".to_string()
        ]
    );
    let usable: Vec<(String, bool)> = candidates.into_iter().map(|c| (c, true)).collect();
    assert_eq!(
        locate_runtime_dir(Some(("/override".to_string(), true)), &usable),
        Some("/override".to_string())
    );
    assert_eq!(locate_runtime_dir(Some(("/nonexistent/path/for/sure".to_string(), false)), &usable), None);
    assert_eq!(
        locate_runtime_dir(None, &vec![("/a".to_string(), false), ("/b".to_string(), true)]),
        Some("/b".to_string())
    );
    assert_eq!(locate_runtime_dir(None, &vec![("/a".to_string(), false)]), None);
}

fn local(located: Option<(String, RuntimeKind)>, sentinel: Option<RuntimeVariant>, cached: bool) -> LocalRuntime {
    LocalRuntime {
        located,
        sentinel,
        python: Some("python3".to_string()),
        cached_is_file: cached,
    }
}

fn program_of(b: &LaunchBuilder) -> String {
    b.build(5123, "tok-abc", None, &StartOptions::default(), "/models").program
}

#[test]
fn install_local_finds_a_previously_cached_variant_when_no_dev_source_present() {
    let builder = install_local(&local(None, None, true), "/cache", RuntimeVariant::Gpu, Platform::Unix)
        .expect("expected the cached gpu variant to be found");
    let launch = builder.build(5123, "tok-abc", None, &StartOptions::default(), "/models");
    assert_eq!(launch.args, Vec::<String>::new());
    assert_eq!(
        launch.program,
        "/cache/faster-whisper/gpu/faster-whisper-runtime-linux-gpu"
    );
    assert_eq!(launch.cwd, Some("/cache/faster-whisper/gpu".to_string()));
}

#[test]
fn install_local_finds_nothing_when_cache_and_dev_source_are_both_absent() {
    assert!(install_local(&local(None, None, false), "/cache", RuntimeVariant::Cpu, Platform::Unix).is_none());
}

#[test]
fn install_local_falls_through_to_a_cached_variant_when_the_packaged_exe_sentinel_says_the_other_variant() {
    let packaged = Some(("/dev".to_string(), RuntimeKind::Packaged("/dev/voice-typer-backend".to_string())));
    let b = install_local(&local(packaged, Some(RuntimeVariant::Cpu), true), "/cache", RuntimeVariant::Gpu, Platform::Unix)
        .expect("expected the cached gpu variant");
    assert!(program_of(&b).contains(&asset_name(RuntimeVariant::Gpu, Platform::Unix)));
}

#[test]
fn install_local_returns_none_when_packaged_sentinel_mismatches_and_no_cache_exists() {
    let packaged = Some(("/dev".to_string(), RuntimeKind::Packaged("/dev/voice-typer-backend".to_string())));
    assert!(install_local(&local(packaged, Some(RuntimeVariant::Cpu), false), "/cache", RuntimeVariant::Gpu, Platform::Unix).is_none());
}

#[test]
fn install_local_still_returns_the_packaged_exe_when_its_sentinel_matches() {
    let packaged = Some(("/dev".to_string(), RuntimeKind::Packaged("/dev/voice-typer-backend".to_string())));
    let b = install_local(&local(packaged, Some(RuntimeVariant::Gpu), false), "/cache", RuntimeVariant::Gpu, Platform::Unix).unwrap();
    assert!(program_of(&b).contains(packaged_executable_name(Platform::Unix)));
}

#[test]
fn install_local_still_returns_the_packaged_exe_when_no_sentinel_is_present() {
    let packaged = Some(("/dev".to_string(), RuntimeKind::Packaged("/dev/voice-typer-backend".to_string())));
    let b = install_local(&local(packaged, None, false), "/cache", RuntimeVariant::Gpu, Platform::Unix).unwrap();
    assert!(program_of(&b).contains(packaged_executable_name(Platform::Unix)));
}

#[test]
fn install_local_uses_raw_source_only_with_an_interpreter() {
    let raw = Some(("/src".to_string(), RuntimeKind::RawSource));
    let b = install_local(&local(raw.clone(), None, false), "/cache", RuntimeVariant::Cpu, Platform::Unix).unwrap();
    assert_eq!(program_of(&b), "python3");
    let no_python = LocalRuntime { located: raw, sentinel: None, python: None, cached_is_file: false };
    assert!(install_local(&no_python, "/cache", RuntimeVariant::Cpu, Platform::Unix).is_none());
}

#[test]
fn sentinel_contents_are_trimmed_and_parsed() {
    assert_eq!(read_packaged_variant_sentinel(Some("gpu\n")), Some(RuntimeVariant::Gpu));
    assert_eq!(read_packaged_variant_sentinel(Some("  cpu ")), Some(RuntimeVariant::Cpu));
    assert_eq!(read_packaged_variant_sentinel(Some("tpu")), None);
    assert_eq!(read_packaged_variant_sentinel(None), None);
}

#[test]
fn resolve_python_takes_the_first_working_candidate() {
    assert_eq!(resolve_python(Platform::Unix, [true, true]).unwrap(), "python3");
    assert_eq!(resolve_python(Platform::Unix, [false, true]).unwrap(), "python");
    assert_eq!(resolve_python(Platform::Windows, [true, false]).unwrap(), "python");
    match resolve_python(Platform::Unix, [false, false]) {
        Err(RuntimeError::ProviderNotInstalled(m)) => {
            assert_eq!(m, "no python3/python interpreter found on PATH")
        }
        other => panic!("unexpected {other:?}"),
    }
}

#[test]
fn install_reports_why_nothing_usable_was_found() {
    match install(None, Ok("python3")) {
        Err(RuntimeError::ProviderNotInstalled(m)) => assert_eq!(
            m,
            "faster-whisper runtime not found locally (set STT_FASTER_WHISPER_RUNTIME_DIR, or place it at <binary-dir>/runtimes/faster-whisper)"
        ),
        other => panic!("unexpected {other:?}"),
    }
    match install(Some(("/x".to_string(), None)), Ok("python3")) {
        Err(RuntimeError::ProviderNotInstalled(m)) => {
            assert_eq!(m, "/x contains neither a packaged executable nor raw Python source")
        }
        other => panic!("unexpected {other:?}"),
    }
    let b = install(Some(("/x".to_string(), Some(RuntimeKind::RawSource))), Ok("python")).unwrap();
    assert_eq!(program_of(&b), "python");
}

#[test]
fn release_base_url_honors_the_env_var_override() {
    assert_eq!(release_base_url(Some("http://127.0.0.1:9".to_string()), "0.1.0"), "http://127.0.0.1:9");
    assert_eq!(
        release_base_url(None, "0.1.0"),
        "https://github.com/mariuszRep/stt-server/releases/download/v0.1.0"
    );
}

#[test]
fn cached_model_dir_nests_under_the_model_root_and_honors_the_env_override() {
    assert_eq!(
        cached_model_dir("/root", "Systran/faster-whisper-tiny"),
        "/root/faster-whisper/Systran/faster-whisper-tiny"
    );
}

#[test]
fn verify_cached_model_treats_an_empty_weights_file_as_not_verified() {
    assert_eq!(verify_cached_model(&FileProbe::Present { is_file: true, len: 0 }).unwrap(), None);
    assert_eq!(verify_cached_model(&FileProbe::NotFound).unwrap(), None);
    assert_eq!(verify_cached_model(&FileProbe::Present { is_file: true, len: 12 }).unwrap(), Some(12));
    assert!(matches!(
        verify_cached_model(&FileProbe::Failed("denied".to_string())),
        Err(RuntimeError::Io(m)) if m == "denied"
    ));
}

#[test]
fn download_runtime_prefers_dev_copy_then_cpu_then_gpu_cache() {
    let raw = Some(("/src".to_string(), RuntimeKind::RawSource));
    let d = resolve_download_runtime(&raw, &Some("python3".to_string()), true, true, "/c", Platform::Unix).unwrap();
    assert_eq!(d.program, "python3");
    assert_eq!(d.args, vec!["run_sidecar.py".to_string()]);
    assert_eq!(d.cwd, "/src");
    let d = resolve_download_runtime(&raw, &None, false, true, "/c", Platform::Unix).unwrap();
    assert_eq!(d.program, "/c/faster-whisper/gpu/faster-whisper-runtime-linux-gpu");
    let d = resolve_download_runtime(&None, &None, true, true, "/c", Platform::Unix).unwrap();
    assert_eq!(d.program, "/c/faster-whisper/cpu/faster-whisper-runtime-linux-cpu");
    assert!(resolve_download_runtime(&None, &None, false, false, "/c", Platform::Unix).is_none());
}

#[test]
fn cpu_and_gpu_builds_are_cached_side_by_side() {
    let cpu = cached_variant_dir("/cache", RuntimeVariant::Cpu);
    let gpu = cached_variant_dir("/cache", RuntimeVariant::Gpu);
    assert_eq!(cpu, "/cache/faster-whisper/cpu");
    assert_eq!(gpu, "/cache/faster-whisper/gpu");
    assert_ne!(
        cached_variant_exe_path("/cache", RuntimeVariant::Cpu, Platform::Unix),
        cached_variant_exe_path("/cache", RuntimeVariant::Gpu, Platform::Unix)
    );
}
