use stt_runtime::hardware::{detect, parse_mib_to_bytes, parse_nvidia_smi_csv, snapshot_memory};
use stt_runtime::recommend::recommend;
use stt_runtime::hardware::HardwareReport;

#[test]
fn parse_mib_to_bytes_handles_real_nvidia_smi_output() {
    assert_eq!(parse_mib_to_bytes("4096 MiB"), Some(4096 * 1024 * 1024));
}

#[test]
fn parse_mib_to_bytes_rejects_unexpected_shapes() {
    assert_eq!(parse_mib_to_bytes(""), None);
    assert_eq!(parse_mib_to_bytes("N/A"), None);
    assert_eq!(parse_mib_to_bytes("4096 GiB"), None);
    assert_eq!(parse_mib_to_bytes("not-a-number MiB"), None);
}

#[test]
fn parse_mib_to_bytes_accepts_no_space_and_plus_sign() {
    assert_eq!(parse_mib_to_bytes("12MiB"), Some(12 * 1024 * 1024));
    assert_eq!(parse_mib_to_bytes("+1 MiB"), Some(1024 * 1024));
    assert_eq!(parse_mib_to_bytes("0 MiB"), Some(0));
}

#[test]
fn nvidia_smi_csv_first_line_is_parsed_field_by_field() {
    let g = parse_nvidia_smi_csv(
        "NVIDIA GeForce RTX 3060 , 550.54.14, 12288 MiB, 11000 MiB\nsecond gpu, x, 1 MiB, 1 MiB\n",
    )
    .unwrap();
    assert_eq!(g.name.as_deref(), Some("NVIDIA GeForce RTX 3060"));
    assert_eq!(g.driver_version.as_deref(), Some("550.54.14"));
    assert_eq!(g.total_bytes, Some(12288 * 1024 * 1024));
    assert_eq!(g.free_bytes, Some(11000 * 1024 * 1024));
}

#[test]
fn nvidia_smi_csv_short_or_blank_output() {
    assert!(parse_nvidia_smi_csv("").is_none());
    assert!(parse_nvidia_smi_csv("   \nfoo").is_none());
    let g = parse_nvidia_smi_csv("Only A Name").unwrap();
    assert_eq!(g.name.as_deref(), Some("Only A Name"));
    assert!(g.driver_version.is_none());
    assert!(g.total_bytes.is_none());
    assert!(g.free_bytes.is_none());
    let g = parse_nvidia_smi_csv("gpu, drv, N/A, 5 MiB, extra").unwrap();
    assert!(g.total_bytes.is_none());
    // The fourth field is the whole rest of the line.
    assert!(g.free_bytes.is_none());
}

#[test]
fn detect_never_panics_and_reports_at_least_one_cpu_core() {
    let report = detect(None, None, "x86_64");
    assert!(report.cpu_cores >= 1);
    assert!(!report.has_nvidia_gpu);
    let report = detect(Some("RTX, 1.0, 2048 MiB, 1024 MiB"), Some(12), "x86_64");
    assert_eq!(report.cpu_cores, 12);
    assert!(report.has_nvidia_gpu);
    assert_eq!(report.vram_bytes, Some(2048 * 1024 * 1024));
}

#[test]
fn snapshot_memory_never_panics_and_reports_plausible_ram() {
    let snapshot = snapshot_memory(None);
    assert!(snapshot.total_ram_bytes > 0);
    assert!(snapshot.available_ram_bytes <= snapshot.total_ram_bytes);
    assert!(snapshot.total_vram_bytes.is_none());
    let snapshot = snapshot_memory(Some("gpu, drv, 100 MiB, 40 MiB"));
    assert_eq!(snapshot.total_vram_bytes, Some(100 * 1024 * 1024));
    assert_eq!(snapshot.available_vram_bytes, Some(40 * 1024 * 1024));
}

#[test]
fn detect_reports_a_non_empty_cpu_architecture() {
    assert!(!detect(None, Some(4), "aarch64").cpu_architecture.is_empty());
}

fn hardware(has_nvidia_gpu: bool) -> HardwareReport {
    HardwareReport {
        has_nvidia_gpu,
        gpu_name: if has_nvidia_gpu { Some("Test GPU".to_string()) } else { None },
        driver_version: None,
        vram_bytes: None,
        cpu_cores: 8,
        cpu_architecture: "x86_64".to_string(),
        total_ram_bytes: 16 * 1024 * 1024 * 1024,
    }
}

#[test]
fn recommends_faster_whisper_first_with_nvidia_gpu() {
    let recommendations = recommend(&hardware(true));

    assert_eq!(recommendations.len(), 2);
    assert_eq!(recommendations[0].provider_id, "faster-whisper");
    assert_eq!(recommendations[0].device, "cuda");
    assert_eq!(recommendations[1].provider_id, "sherpa-onnx");
}

#[test]
fn recommends_parakeet_first_without_nvidia_gpu() {
    let recommendations = recommend(&hardware(false));

    assert_eq!(recommendations.len(), 2);
    assert_eq!(recommendations[0].provider_id, "sherpa-onnx");
    assert_eq!(recommendations[0].model_id, "parakeet-tdt-0.6b-v2");
    assert_eq!(recommendations[1].provider_id, "faster-whisper");
}

#[test]
fn recommendations_name_only_curated_models() {
    let fw = stt_runtime::catalog::catalog().into_iter().find(|e| e.id == "faster-whisper").unwrap();
    for has_gpu in [true, false] {
        for r in recommend(&hardware(has_gpu)) {
            let curated = if r.provider_id == "sherpa-onnx" {
                stt_runtime::manifest::find(&r.model_id).is_some()
            } else {
                r.provider_id == "faster-whisper"
                    && stt_runtime::catalog::find_model(&fw, &r.model_id).is_some()
            };
            assert!(curated, "{} / {} is not curated", r.provider_id, r.model_id);
        }
    }
    assert_eq!(recommend(&hardware(true))[0].model_id, "Systran/faster-whisper-small");
    assert_eq!(recommend(&hardware(false))[1].model_id, "Systran/faster-whisper-tiny");
}

#[test]
fn parse_mib_to_bytes_answers_none_for_a_size_too_large_for_bytes() {
    assert_eq!(parse_mib_to_bytes("18446744073709551615 MiB"), None);
    assert_eq!(parse_mib_to_bytes("17592186044415 MiB"), Some(17592186044415 * 1048576));
    assert_eq!(parse_mib_to_bytes("17592186044416 MiB"), None);
}

#[test]
fn detect_never_panics_on_an_oversized_report_and_counts_at_least_one_core() {
    let report = detect(Some("RTX, 550.1, 99999999999999999 MiB, 1 MiB\n"), Some(0), "x86_64");
    assert!(report.has_nvidia_gpu);
    assert_eq!(report.vram_bytes, None);
    assert_eq!(report.cpu_cores, 1);
    let snap = snapshot_memory(Some("RTX, 550.1, 99999999999999999 MiB, 2 MiB"));
    assert_eq!(snap.total_vram_bytes, None);
    assert_eq!(snap.available_vram_bytes, Some(2 * 1048576));
}
