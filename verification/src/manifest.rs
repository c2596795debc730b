//! The curated catalog of sherpa-onnx speech-recognition models: a small,
//! hand-picked set of known-good entries with their download location,
//! archive layout, file family and languages.
use vstd::prelude::*;

use crate::text::str_eq;

verus! {

/// Which model family an entry belongs to, and the files (relative to the
/// extracted archive root) its recognizer needs.
#[derive(Debug, Clone, Copy)]
pub enum ModelFiles {
    SenseVoice { model: &'static str, tokens: &'static str },
    Whisper { encoder: &'static str, decoder: &'static str, tokens: &'static str },
    /// NeMo-exported transducer models: separate encoder, decoder and
    /// joiner graphs.
    Transducer {
        encoder: &'static str,
        decoder: &'static str,
        joiner: &'static str,
        tokens: &'static str,
    },
}

pub enum ModelFilesView {
    SenseVoice { model: Seq<char>, tokens: Seq<char> },
    Whisper { encoder: Seq<char>, decoder: Seq<char>, tokens: Seq<char> },
    Transducer { encoder: Seq<char>, decoder: Seq<char>, joiner: Seq<char>, tokens: Seq<char> },
}

impl View for ModelFiles {
    type V = ModelFilesView;

    open spec fn view(&self) -> ModelFilesView {
        match *self {
            ModelFiles::SenseVoice { model, tokens } => ModelFilesView::SenseVoice {
                model: model@,
                tokens: tokens@,
            },
            ModelFiles::Whisper { encoder, decoder, tokens } => ModelFilesView::Whisper {
                encoder: encoder@,
                decoder: decoder@,
                tokens: tokens@,
            },
            ModelFiles::Transducer { encoder, decoder, joiner, tokens } => ModelFilesView::Transducer {
                encoder: encoder@,
                decoder: decoder@,
                joiner: joiner@,
                tokens: tokens@,
            },
        }
    }
}

/// One curated model.
#[derive(Debug, Clone)]
pub struct ModelEntry {
    /// Stable id used in the API and CLI, e.g. `sense-voice-multi`.
    pub id: &'static str,
    pub description: &'static str,
    /// Language tags this model covers; `auto` for auto-detecting models.
    pub languages: Vec<&'static str>,
    pub download_url: &'static str,
    /// Size of the `.tar.bz2` download.
    pub download_bytes: u64,
    /// Top-level directory the archive extracts to.
    pub archive_root: &'static str,
    pub files: ModelFiles,
    /// The language used when a request names none.
    pub default_language: &'static str,
}

pub struct ModelEntryView {
    pub id: Seq<char>,
    pub description: Seq<char>,
    pub languages: Seq<Seq<char>>,
    pub download_url: Seq<char>,
    pub download_bytes: u64,
    pub archive_root: Seq<char>,
    pub files: ModelFilesView,
    pub default_language: Seq<char>,
}

pub open spec fn str_seq_view(v: Seq<&'static str>) -> Seq<Seq<char>> {
    v.map_values(|s: &'static str| s@)
}

impl View for ModelEntry {
    type V = ModelEntryView;

    open spec fn view(&self) -> ModelEntryView {
        ModelEntryView {
            id: self.id@,
            description: self.description@,
            languages: str_seq_view(self.languages@),
            download_url: self.download_url@,
            download_bytes: self.download_bytes,
            archive_root: self.archive_root@,
            files: self.files@,
            default_language: self.default_language@,
        }
    }
}

impl ModelEntry {
    pub fn duplicate(&self) -> (r: ModelEntry)
        ensures
            r@ == self@,
    {
        ModelEntry {
            id: self.id,
            description: self.description,
            languages: self.languages.clone(),
            download_url: self.download_url,
            download_bytes: self.download_bytes,
            archive_root: self.archive_root,
            files: self.files,
            default_language: self.default_language,
        }
    }
}

/// The curated models, in catalog order.
pub open spec fn spec_models() -> Seq<ModelEntryView> {
    seq![
        ModelEntryView {
            id: "sense-voice-multi"@,
            description: "SenseVoice, multilingual (zh/en/ja/ko/yue), int8 quantized. Default general-purpose pick."@,
            languages: seq!["auto"@, "zh"@, "en"@, "ja"@, "ko"@, "yue"@],
            download_url: "https://github.com/k2-fsa/sherpa-onnx/releases/download/asr-models/sherpa-onnx-sense-voice-zh-en-ja-ko-yue-int8-2024-07-17.tar.bz2"@,
            download_bytes: 163_002_883,
            archive_root: "sherpa-onnx-sense-voice-zh-en-ja-ko-yue-int8-2024-07-17"@,
            files: ModelFilesView::SenseVoice { model: "model.int8.onnx"@, tokens: "tokens.txt"@ },
            default_language: "auto"@,
        },
        ModelEntryView {
            id: "whisper-tiny-en"@,
            description: "Whisper tiny.en, int8 quantized. Smallest/fastest English-only option."@,
            languages: seq!["en"@],
            download_url: "https://github.com/k2-fsa/sherpa-onnx/releases/download/asr-models/sherpa-onnx-whisper-tiny.en.tar.bz2"@,
            download_bytes: 118_071_777,
            archive_root: "sherpa-onnx-whisper-tiny.en"@,
            files: ModelFilesView::Whisper {
                encoder: "tiny.en-encoder.int8.onnx"@,
                decoder: "tiny.en-decoder.int8.onnx"@,
                tokens: "tiny.en-tokens.txt"@,
            },
            default_language: "en"@,
        },
        ModelEntryView {
            id: "whisper-base-en"@,
            description: "Whisper base.en, int8 quantized. Better accuracy than tiny.en, still English-only."@,
            languages: seq!["en"@],
            download_url: "https://github.com/k2-fsa/sherpa-onnx/releases/download/asr-models/sherpa-onnx-whisper-base.en.tar.bz2"@,
            download_bytes: 208_576_005,
            archive_root: "sherpa-onnx-whisper-base.en"@,
            files: ModelFilesView::Whisper {
                encoder: "base.en-encoder.int8.onnx"@,
                decoder: "base.en-decoder.int8.onnx"@,
                tokens: "base.en-tokens.txt"@,
            },
            default_language: "en"@,
        },
        ModelEntryView {
            id: "parakeet-tdt-0.6b-v2"@,
            description: "NVIDIA Parakeet TDT 0.6B v2, int8 quantized. Transducer decoding (no autoregressive decoder loop) \u{2014} the speed candidate under validate-parakeet-performance. English only."@,
            languages: seq!["en"@],
            download_url: "https://github.com/k2-fsa/sherpa-onnx/releases/download/asr-models/sherpa-onnx-nemo-parakeet-tdt-0.6b-v2-int8.tar.bz2"@,
            download_bytes: 482_468_385,
            archive_root: "sherpa-onnx-nemo-parakeet-tdt-0.6b-v2-int8"@,
            files: ModelFilesView::Transducer {
                encoder: "encoder.int8.onnx"@,
                decoder: "decoder.int8.onnx"@,
                joiner: "joiner.int8.onnx"@,
                tokens: "tokens.txt"@,
            },
            default_language: "en"@,
        },
    ]
}

/// The curated models.
pub fn models() -> (r: Vec<ModelEntry>)
    ensures
        r@.map_values(|m: ModelEntry| m@) == spec_models(),
{
    let mut r: Vec<ModelEntry> = Vec::new();
    let mut langs: Vec<&'static str> = Vec::new();
    langs.push("auto");
    langs.push("zh");
    langs.push("en");
    langs.push("ja");
    langs.push("ko");
    langs.push("yue");
    assert(str_seq_view(langs@) =~= seq!["auto"@, "zh"@, "en"@, "ja"@, "ko"@, "yue"@]);
    r.push(
        ModelEntry {
            id: "sense-voice-multi",
            description: "SenseVoice, multilingual (zh/en/ja/ko/yue), int8 quantized. Default general-purpose pick.",
            languages: langs,
            download_url: "https://github.com/k2-fsa/sherpa-onnx/releases/download/asr-models/sherpa-onnx-sense-voice-zh-en-ja-ko-yue-int8-2024-07-17.tar.bz2",
            download_bytes: 163_002_883,
            archive_root: "sherpa-onnx-sense-voice-zh-en-ja-ko-yue-int8-2024-07-17",
            files: ModelFiles::SenseVoice { model: "model.int8.onnx", tokens: "tokens.txt" },
            default_language: "auto",
        },
    );
    let mut en1: Vec<&'static str> = Vec::new();
    en1.push("en");
    assert(str_seq_view(en1@) =~= seq!["en"@]);
    r.push(
        ModelEntry {
            id: "whisper-tiny-en",
            description: "Whisper tiny.en, int8 quantized. Smallest/fastest English-only option.",
            languages: en1,
            download_url: "https://github.com/k2-fsa/sherpa-onnx/releases/download/asr-models/sherpa-onnx-whisper-tiny.en.tar.bz2",
            download_bytes: 118_071_777,
            archive_root: "sherpa-onnx-whisper-tiny.en",
            files: ModelFiles::Whisper {
                encoder: "tiny.en-encoder.int8.onnx",
                decoder: "tiny.en-decoder.int8.onnx",
                tokens: "tiny.en-tokens.txt",
            },
            default_language: "en",
        },
    );
    let mut en2: Vec<&'static str> = Vec::new();
    en2.push("en");
    assert(str_seq_view(en2@) =~= seq!["en"@]);
    r.push(
        ModelEntry {
            id: "whisper-base-en",
            description: "Whisper base.en, int8 quantized. Better accuracy than tiny.en, still English-only.",
            languages: en2,
            download_url: "https://github.com/k2-fsa/sherpa-onnx/releases/download/asr-models/sherpa-onnx-whisper-base.en.tar.bz2",
            download_bytes: 208_576_005,
            archive_root: "sherpa-onnx-whisper-base.en",
            files: ModelFiles::Whisper {
                encoder: "base.en-encoder.int8.onnx",
                decoder: "base.en-decoder.int8.onnx",
                tokens: "base.en-tokens.txt",
            },
            default_language: "en",
        },
    );
    let mut en3: Vec<&'static str> = Vec::new();
    en3.push("en");
    assert(str_seq_view(en3@) =~= seq!["en"@]);
    r.push(
        ModelEntry {
            id: "parakeet-tdt-0.6b-v2",
            description: "NVIDIA Parakeet TDT 0.6B v2, int8 quantized. Transducer decoding (no autoregressive decoder loop) \u{2014} the speed candidate under validate-parakeet-performance. English only.",
            languages: en3,
            download_url: "https://github.com/k2-fsa/sherpa-onnx/releases/download/asr-models/sherpa-onnx-nemo-parakeet-tdt-0.6b-v2-int8.tar.bz2",
            download_bytes: 482_468_385,
            archive_root: "sherpa-onnx-nemo-parakeet-tdt-0.6b-v2-int8",
            files: ModelFiles::Transducer {
                encoder: "encoder.int8.onnx",
                decoder: "decoder.int8.onnx",
                joiner: "joiner.int8.onnx",
                tokens: "tokens.txt",
            },
            default_language: "en",
        },
    );
    assert(r@.map_values(|m: ModelEntry| m@) =~= spec_models());
    r
}

/// Whether the catalog has a model with id `id`.
pub open spec fn manifest_has(id: Seq<char>) -> bool {
    exists|i: int| 0 <= i < spec_models().len() && (#[trigger] spec_models()[i]).id == id
}

/// The first catalog model with id `id` (meaningful when
/// `manifest_has(id)`).
pub open spec fn manifest_entry(id: Seq<char>) -> ModelEntryView {
    spec_models()[first_index_of(id)]
}

pub open spec fn first_index_of(id: Seq<char>) -> int {
    choose|i: int|
        0 <= i < spec_models().len() && (#[trigger] spec_models()[i]).id == id && forall|j: int|
            0 <= j < i ==> (#[trigger] spec_models()[j]).id != id
}

/// The catalog model with id `id`, if any.
pub fn find(id: &str) -> (r: Option<ModelEntry>)
    ensures
        match r {
            Some(m) => manifest_has(id@) && m@ == manifest_entry(id@),
            None => !manifest_has(id@),
        },
{
    let all = models();
    let mut i: usize = 0;
    while i < all.len()
        invariant
            all@.map_values(|m: ModelEntry| m@) == spec_models(),
            i <= all@.len(),
            forall|j: int| 0 <= j < i ==> (#[trigger] spec_models()[j]).id != id@,
        decreases all.len() - i,
    {
        assert(all@.map_values(|m: ModelEntry| m@)[i as int] == all@[i as int]@);
        if str_eq(all[i].id, id) {
            proof {
                let k = first_index_of(id@);
                assert(spec_models()[i as int].id == id@);
                if k < i {
                    assert(spec_models()[k].id != id@);
                }
                if k > i {
                    assert(spec_models()[i as int].id != id@);
                }
            }
            return Some(all[i].duplicate());
        }
        i += 1;
    }
    None
}

} // verus!
