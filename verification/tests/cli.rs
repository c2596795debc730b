use stt_runtime::cli::{
    bench_selects, check_row, is_wav_clip, idle_timeout_ms, model_query_path, poll_step, request_error_message,
    run_config, skip_row, start_has_body, urlencoding_component, wav_duration_parts, PollStep,
    RunArgs,
};

#[test]
fn urlencoding_keeps_unreserved_and_encodes_the_rest() {
    assert_eq!(urlencoding_component("Systran/faster-whisper-small"), "Systran%2Ffaster-whisper-small");
    assert_eq!(urlencoding_component("a b~c.d_e"), "a%20b~c.d_e");
    assert_eq!(urlencoding_component("é"), "%C3%A9");
    assert_eq!(urlencoding_component(""), "");
    assert_eq!(
        model_query_path("/v1/models/pull", "faster-whisper", "Systran/x"),
        "/v1/models/pull?provider=faster-whisper&model=Systran%2Fx"
    );
}

#[test]
fn polling_reads_progress_completion_and_failure() {
    match poll_step("downloading", Some(5), Some(10), None) {
        PollStep::Progress(m) => assert_eq!(m, "\r  5/10 bytes"),
        other => panic!("{other:?}"),
    }
    match poll_step("downloading", None, Some(0), None) {
        PollStep::Progress(m) => assert_eq!(m, "\r  0 bytes"),
        other => panic!("{other:?}"),
    }
    assert!(matches!(poll_step("complete", None, None, None), PollStep::Complete));
    match poll_step("failed", None, None, None) {
        PollStep::Failed(m) => assert_eq!(m, "operation failed: operation failed"),
        other => panic!("{other:?}"),
    }
    match poll_step("weird", None, None, None) {
        PollStep::Unexpected(m) => assert_eq!(m, "unexpected operation status: weird"),
        other => panic!("{other:?}"),
    }
}

#[test]
fn daemon_errors_are_rendered_with_defaults() {
    assert_eq!(
        request_error_message(Some("PROVIDER_NOT_FOUND"), Some("provider not found: x"), "404 Not Found"),
        "[PROVIDER_NOT_FOUND] provider not found: x (404 Not Found)"
    );
    assert_eq!(request_error_message(None, None, "500"), "[ERROR] request failed (500)");
}

#[test]
fn table_rows_pad_like_the_format_widths() {
    assert_eq!(
        check_row("faster-whisper", true, "GET /health", "200 OK"),
        format!("PASS  {:<16} {:<28} {}", "faster-whisper", "GET /health", "200 OK")
    );
    assert_eq!(
        skip_row("a-very-long-provider-name", "why"),
        format!("SKIP  {:<16} {}", "a-very-long-provider-name", "why")
    );
}

#[test]
fn bench_filters_and_start_bodies() {
    assert!(bench_selects(None, None, "p", "m"));
    assert!(bench_selects(Some("p"), Some("m"), "p", "m"));
    assert!(!bench_selects(Some("q"), None, "p", "m"));
    assert!(!start_has_body(&None, &None, &None, &None));
    assert!(start_has_body(&None, &None, &Some("0.0.0.0".to_string()), &None));
}

fn wav(byte_rate: u32, data: &[u8]) -> Vec<u8> {
    let mut v = Vec::new();
    v.extend_from_slice(b"RIFF");
    v.extend_from_slice(&(36 + data.len() as u32).to_le_bytes());
    v.extend_from_slice(b"WAVE");
    v.extend_from_slice(b"fmt ");
    v.extend_from_slice(&16u32.to_le_bytes());
    v.extend_from_slice(&1u16.to_le_bytes());
    v.extend_from_slice(&1u16.to_le_bytes());
    v.extend_from_slice(&16000u32.to_le_bytes());
    v.extend_from_slice(&byte_rate.to_le_bytes());
    v.extend_from_slice(&2u16.to_le_bytes());
    v.extend_from_slice(&16u16.to_le_bytes());
    v.extend_from_slice(b"data");
    v.extend_from_slice(&(data.len() as u32).to_le_bytes());
    v.extend_from_slice(data);
    v
}

#[test]
fn wav_header_gives_data_length_and_byte_rate() {
    let bytes = wav(32000, &[0u8; 64000]);
    assert_eq!(wav_duration_parts(&bytes), Some((64000, 32000)));
    assert_eq!(wav_duration_parts(&wav(0, &[0u8; 10])), None);
    assert_eq!(wav_duration_parts(b"RIFF"), None);
    let mut not_wave = wav(32000, &[0u8; 8]);
    not_wave[8] = b'X';
    assert_eq!(wav_duration_parts(&not_wave), None);
}

#[test]
fn run_arguments_become_the_server_config() {
    let args = RunArgs {
        host: "127.0.0.1".to_string(),
        port: 8080,
        model_dir: None,
        default_model: None,
        max_sessions: 16,
        log_level: "info".to_string(),
        idle_timeout_secs: 600,
        allow_remote: false,
        auth_token: None,
    };
    let c = run_config(args, "/data/models".to_string());
    assert_eq!(c.model_dir, "/data/models");
    assert!(c.validate().is_ok());
    assert_eq!(idle_timeout_ms(600), Some(600_000));
    assert_eq!(idle_timeout_ms(0), None);
    assert_eq!(idle_timeout_ms(u64::MAX), Some(u64::MAX));
}

#[test]
fn bench_takes_files_with_a_wav_extension_in_any_case() {
    assert!(is_wav_clip("clip.wav"));
    assert!(is_wav_clip("CLIP.WAV"));
    assert!(is_wav_clip("a.b.WaV"));
    assert!(!is_wav_clip(".wav"));
    assert!(!is_wav_clip("clip.wave"));
    assert!(!is_wav_clip("clip.mp3"));
    assert!(!is_wav_clip("wav"));
    assert!(!is_wav_clip("clip.wav.txt"));
    for name in ["x.wav", "x.Wav", ".wav", "..wav", "x.wav.", "x.mp3", "wav", "a.WAV"] {
        let by_path = std::path::Path::new(name)
            .extension()
            .is_some_and(|ext| ext.eq_ignore_ascii_case("wav"));
        assert_eq!(is_wav_clip(name), by_path, "{name}");
    }
}
