use stt_runtime::catalog::catalog;
use stt_runtime::error::RuntimeError;
use stt_runtime::launch::StartOptions;
use stt_runtime::manifest::{find, models, ModelFiles};
use stt_runtime::providers::cache::{
    model_cache_env_var, model_dir, provider_env_prefix, provider_model_root,
    runtime_cache_env_var, variant_dir, verify_files_present, FileProbe,
};
use stt_runtime::providers::sherpa_onnx;
use stt_runtime::providers::{registry, Platform, ProviderEngine};

#[test]
fn every_catalog_provider_has_an_engine() {
    let engines = registry();
    assert!(catalog()
        .iter()
        .all(|entry| engines.iter().any(|(id, _)| *id == entry.id)));
}

#[test]
fn registry_maps_each_engine_to_its_own_id() {
    for (id, engine) in registry() {
        assert_eq!(id, engine.provider_id());
    }
    assert_eq!(ProviderEngine::SherpaOnnx.provider_id(), "sherpa-onnx");
}

#[test]
fn env_prefixes_upper_case_and_replace_punctuation() {
    assert_eq!(provider_env_prefix("faster-whisper"), "FASTER_WHISPER");
    assert_eq!(provider_env_prefix("sherpa-onnx"), "SHERPA_ONNX");
    assert_eq!(runtime_cache_env_var("sherpa-onnx"), "STT_SHERPA_ONNX_CACHE_DIR");
    assert_eq!(model_cache_env_var("faster-whisper"), "STT_FASTER_WHISPER_MODEL_DIR");
}

#[test]
fn cache_layout_nests_provider_then_variant_or_model() {
    assert_eq!(variant_dir("/r", "sherpa-onnx", "cpu"), "/r/sherpa-onnx/cpu");
    assert_eq!(provider_model_root("/m", "sherpa-onnx"), "/m/sherpa-onnx");
    assert_eq!(model_dir("/m", "sherpa-onnx", "whisper-tiny-en"), "/m/sherpa-onnx/whisper-tiny-en");
}

#[test]
fn files_present_needs_every_file_non_empty() {
    let ok = vec![
        FileProbe::Present { is_file: true, len: 10 },
        FileProbe::Present { is_file: true, len: 5 },
    ];
    assert_eq!(verify_files_present(&ok).unwrap(), Some(15));
    let empty = vec![FileProbe::Present { is_file: true, len: 10 }, FileProbe::Present { is_file: true, len: 0 }];
    assert_eq!(verify_files_present(&empty).unwrap(), None);
    let dir = vec![FileProbe::Present { is_file: false, len: 10 }];
    assert_eq!(verify_files_present(&dir).unwrap(), None);
    let missing = vec![FileProbe::NotFound, FileProbe::Failed("x".to_string())];
    assert_eq!(verify_files_present(&missing).unwrap(), None);
    let failing = vec![FileProbe::Failed("denied".to_string()), FileProbe::NotFound];
    assert!(matches!(verify_files_present(&failing), Err(RuntimeError::Io(m)) if m == "denied"));
    assert_eq!(verify_files_present(&vec![]).unwrap(), Some(0));
}

#[test]
fn manifest_lists_the_four_curated_models() {
    let ids: Vec<&str> = models().iter().map(|m| m.id).collect();
    assert_eq!(
        ids,
        vec!["sense-voice-multi", "whisper-tiny-en", "whisper-base-en", "parakeet-tdt-0.6b-v2"]
    );
    let sv = find("sense-voice-multi").unwrap();
    assert_eq!(sv.languages, vec!["auto", "zh", "en", "ja", "ko", "yue"]);
    assert_eq!(sv.default_language, "auto");
    assert!(matches!(find("parakeet-tdt-0.6b-v2").unwrap().files, ModelFiles::Transducer { .. }));
    assert!(find("nope").is_none());
}

#[test]
fn sherpa_required_files_follow_the_model_family() {
    let p = sherpa_onnx::required_paths("/m", "whisper-tiny-en").unwrap();
    assert_eq!(
        p,
        vec![
            "/m/sherpa-onnx/whisper-tiny-en/tiny.en-encoder.int8.onnx",
            "/m/sherpa-onnx/whisper-tiny-en/tiny.en-decoder.int8.onnx",
            "/m/sherpa-onnx/whisper-tiny-en/tiny.en-tokens.txt",
        ]
    );
    assert_eq!(sherpa_onnx::required_paths("/m", "parakeet-tdt-0.6b-v2").unwrap().len(), 4);
    assert_eq!(sherpa_onnx::required_paths("/m", "sense-voice-multi").unwrap().len(), 2);
    match sherpa_onnx::required_paths("/m", "nope") {
        Err(RuntimeError::DownloadFailed(m)) => assert_eq!(m, "unknown sherpa-onnx model id: nope"),
        other => panic!("unexpected {other:?}"),
    }
}

#[test]
fn sherpa_verify_cached_model_checks_the_manifest_first() {
    let probes = vec![
        FileProbe::Present { is_file: true, len: 3 },
        FileProbe::Present { is_file: true, len: 4 },
    ];
    assert_eq!(sherpa_onnx::verify_cached_model("sense-voice-multi", &probes).unwrap(), Some(7));
    assert!(matches!(
        sherpa_onnx::verify_cached_model("nope", &probes),
        Err(RuntimeError::DownloadFailed(_))
    ));
}

#[test]
fn sherpa_install_local_prefers_the_dev_binary() {
    let b = sherpa_onnx::install_local(Some("/dev/sherpad".to_string()), true, "/c", Platform::Unix).unwrap();
    let launch = b.build(7000, "tok", Some("whisper-tiny-en"), &StartOptions::default(), "/m");
    assert_eq!(launch.program, "/dev/sherpad");
    assert!(launch.args.is_empty());
    assert_eq!(launch.cwd, None);
    assert!(launch.env.contains(&("VOICE_TYPER_MODEL_DIR".to_string(), "/m/sherpa-onnx".to_string())));
    assert!(launch.env.contains(&("VOICE_TYPER_MODEL".to_string(), "whisper-tiny-en".to_string())));
    assert!(launch.env.contains(&("VOICE_TYPER_PORT".to_string(), "7000".to_string())));
    let b = sherpa_onnx::install_local(None, true, "/c", Platform::Windows).unwrap();
    let launch = b.build(7000, "tok", None, &StartOptions::default(), "/m");
    assert_eq!(launch.program, "/c/sherpa-onnx/cpu/sherpad.exe");
    assert!(sherpa_onnx::install_local(None, false, "/c", Platform::Unix).is_none());
}

#[test]
fn sherpa_asset_and_archive_names() {
    assert_eq!(sherpa_onnx::asset_name(Platform::Unix), "sherpad-linux-cpu");
    assert_eq!(sherpa_onnx::asset_name(Platform::Windows), "sherpad-windows-cpu.exe");
    let plan = sherpa_onnx::archive_plan("whisper-base-en").unwrap();
    assert_eq!(plan.archive_name, "whisper-base-en.tar.bz2");
    assert_eq!(plan.archive_root, "sherpa-onnx-whisper-base.en");
    assert!(plan.url.ends_with("sherpa-onnx-whisper-base.en.tar.bz2"));
    assert!(sherpa_onnx::archive_plan("nope").is_err());
}

#[test]
fn sherpa_dev_binary_search_order() {
    let (o, c) = sherpa_onnx::dev_binary_candidates(Some("/over"), Some("/bin"), Some("/cwd"), Platform::Unix);
    assert_eq!(o, Some("/over/sherpad".to_string()));
    assert!(c.is_empty());
    let (o, c) = sherpa_onnx::dev_binary_candidates(None, Some("/bin"), Some("/cwd"), Platform::Unix);
    assert!(o.is_none());
    assert_eq!(
        c,
        vec![
            "/bin/runtimes/sherpa-onnx/sherpad".to_string(),
            "/cwd/runtimes/sherpa-onnx/target/release/sherpad".to_string()
        ]
    );
}
