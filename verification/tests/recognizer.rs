use stt_runtime::manifest::find;
use stt_runtime::recognizer::{build_config, path_str, FamilyConfig};

#[test]
fn sense_voice_config_uses_its_model_file_default_language_and_itn() {
    let entry = find("sense-voice-multi").unwrap();
    let config = build_config(&entry, "/models/sense-voice-multi", 4);
    match config.family {
        FamilyConfig::SenseVoice(c) => {
            assert_eq!(c.model, "/models/sense-voice-multi/model.int8.onnx");
            assert_eq!(c.language, "auto");
            assert!(c.use_itn);
        }
        other => panic!("unexpected family {other:?}"),
    }
    assert_eq!(config.tokens, "/models/sense-voice-multi/tokens.txt");
    assert_eq!(config.num_threads, 4);
    assert!(!config.debug);
    assert_eq!(config.provider, "cpu");
}

#[test]
fn whisper_config_transcribes_with_token_timestamps() {
    let entry = find("whisper-tiny-en").unwrap();
    let config = build_config(&entry, "/m/w", 2);
    match config.family {
        FamilyConfig::Whisper(c) => {
            assert_eq!(c.encoder, "/m/w/tiny.en-encoder.int8.onnx");
            assert_eq!(c.decoder, "/m/w/tiny.en-decoder.int8.onnx");
            assert_eq!(c.language, "en");
            assert_eq!(c.task, "transcribe");
            assert_eq!(c.tail_paddings, -1);
            assert!(c.enable_token_timestamps);
            assert!(!c.enable_segment_timestamps);
        }
        other => panic!("unexpected family {other:?}"),
    }
    assert_eq!(config.tokens, "/m/w/tiny.en-tokens.txt");
}

#[test]
fn transducer_config_names_all_three_graphs() {
    let entry = find("parakeet-tdt-0.6b-v2").unwrap();
    let config = build_config(&entry, "/p/", 1);
    match config.family {
        FamilyConfig::Transducer(c) => {
            assert_eq!(c.encoder, "/p/encoder.int8.onnx");
            assert_eq!(c.decoder, "/p/decoder.int8.onnx");
            assert_eq!(c.joiner, "/p/joiner.int8.onnx");
        }
        other => panic!("unexpected family {other:?}"),
    }
    assert_eq!(config.tokens, "/p/tokens.txt");
}

#[test]
fn path_str_joins_a_relative_file_onto_its_directory() {
    assert_eq!(path_str("/a/b", "c.onnx"), "/a/b/c.onnx");
    assert_eq!(path_str("/a/b/", "c.onnx"), "/a/b/c.onnx");
}
