//! The offline recognizer configuration `sherpad` builds for a curated
//! model: which of the model family's files go where, in which language,
//! on how many threads. The values are handed to the sherpa-onnx
//! recognizer as they are.
use vstd::prelude::*;

use crate::config::{join_path, path_join};
use crate::manifest::{ModelEntry, ModelEntryView, ModelFiles, ModelFilesView};
use crate::text::owned;

verus! {

/// SenseVoice settings: the model file, its language, inverse text
/// normalization.
#[derive(Debug)]
pub struct SenseVoiceConfig {
    pub model: String,
    pub language: String,
    pub use_itn: bool,
}

/// Whisper settings.
#[derive(Debug)]
pub struct WhisperConfig {
    pub encoder: String,
    pub decoder: String,
    pub language: String,
    pub task: String,
    /// `-1`: the recognizer's own default padding.
    pub tail_paddings: i32,
    pub enable_token_timestamps: bool,
    pub enable_segment_timestamps: bool,
}

/// Transducer settings: its three graphs.
#[derive(Debug)]
pub struct TransducerConfig {
    pub encoder: String,
    pub decoder: String,
    pub joiner: String,
}

/// The family-specific part; every other family keeps the recognizer's
/// defaults.
#[derive(Debug)]
pub enum FamilyConfig {
    SenseVoice(SenseVoiceConfig),
    Whisper(WhisperConfig),
    Transducer(TransducerConfig),
}

/// An offline recognizer's configuration.
#[derive(Debug)]
pub struct RecognizerConfig {
    pub family: FamilyConfig,
    pub tokens: String,
    pub num_threads: i32,
    pub debug: bool,
    /// Execution provider (`cpu`).
    pub provider: String,
}

pub enum FamilyView {
    SenseVoice { model: Seq<char>, language: Seq<char>, use_itn: bool },
    Whisper {
        encoder: Seq<char>,
        decoder: Seq<char>,
        language: Seq<char>,
        task: Seq<char>,
        tail_paddings: i32,
        enable_token_timestamps: bool,
        enable_segment_timestamps: bool,
    },
    Transducer { encoder: Seq<char>, decoder: Seq<char>, joiner: Seq<char> },
}

pub struct RecognizerConfigView {
    pub family: FamilyView,
    pub tokens: Seq<char>,
    pub num_threads: i32,
    pub debug: bool,
    pub provider: Seq<char>,
}

impl View for FamilyConfig {
    type V = FamilyView;

    open spec fn view(&self) -> FamilyView {
        match self {
            FamilyConfig::SenseVoice(c) => FamilyView::SenseVoice {
                model: c.model@,
                language: c.language@,
                use_itn: c.use_itn,
            },
            FamilyConfig::Whisper(c) => FamilyView::Whisper {
                encoder: c.encoder@,
                decoder: c.decoder@,
                language: c.language@,
                task: c.task@,
                tail_paddings: c.tail_paddings,
                enable_token_timestamps: c.enable_token_timestamps,
                enable_segment_timestamps: c.enable_segment_timestamps,
            },
            FamilyConfig::Transducer(c) => FamilyView::Transducer {
                encoder: c.encoder@,
                decoder: c.decoder@,
                joiner: c.joiner@,
            },
        }
    }
}

impl View for RecognizerConfig {
    type V = RecognizerConfigView;

    open spec fn view(&self) -> RecognizerConfigView {
        RecognizerConfigView {
            family: self.family@,
            tokens: self.tokens@,
            num_threads: self.num_threads,
            debug: self.debug,
            provider: self.provider@,
        }
    }
}

/// The configuration of `entry`'s recognizer from its files extracted
/// under `install_dir`: each family's files at `<install_dir>/<file>`,
/// SenseVoice and Whisper in the entry's default language (SenseVoice
/// with inverse text normalization; Whisper transcribing, with token
/// timestamps and the default tail padding), on `num_threads` threads, on
/// the CPU, without debug output.
pub open spec fn spec_build_config(
    entry: ModelEntryView,
    install_dir: Seq<char>,
    num_threads: i32,
) -> RecognizerConfigView {
    let (family, tokens) = match entry.files {
        ModelFilesView::SenseVoice { model, tokens } => (
            FamilyView::SenseVoice {
                model: path_join(install_dir, model),
                language: entry.default_language,
                use_itn: true,
            },
            tokens,
        ),
        ModelFilesView::Whisper { encoder, decoder, tokens } => (
            FamilyView::Whisper {
                encoder: path_join(install_dir, encoder),
                decoder: path_join(install_dir, decoder),
                language: entry.default_language,
                task: "transcribe"@,
                tail_paddings: -1i32,
                enable_token_timestamps: true,
                enable_segment_timestamps: false,
            },
            tokens,
        ),
        ModelFilesView::Transducer { encoder, decoder, joiner, tokens } => (
            FamilyView::Transducer {
                encoder: path_join(install_dir, encoder),
                decoder: path_join(install_dir, decoder),
                joiner: path_join(install_dir, joiner),
            },
            tokens,
        ),
    };
    RecognizerConfigView {
        family,
        tokens: path_join(install_dir, tokens),
        num_threads,
        debug: false,
        provider: "cpu"@,
    }
}

/// `<dir>/<rel>`: a model file's full path.
pub fn path_str(dir: &str, rel: &str) -> (r: String)
    ensures
        r@ == path_join(dir@, rel@),
{
    join_path(dir, rel)
}

/// Builds [`spec_build_config`] for `entry`.
pub fn build_config(entry: &ModelEntry, install_dir: &str, num_threads: i32) -> (r: RecognizerConfig)
    ensures
        r@ == spec_build_config(entry@, install_dir@, num_threads),
{
    let (family, tokens) = match entry.files {
        ModelFiles::SenseVoice { model, tokens } => (
            FamilyConfig::SenseVoice(
                SenseVoiceConfig {
                    model: path_str(install_dir, model),
                    language: owned(entry.default_language),
                    use_itn: true,
                },
            ),
            tokens,
        ),
        ModelFiles::Whisper { encoder, decoder, tokens } => (
            FamilyConfig::Whisper(
                WhisperConfig {
                    encoder: path_str(install_dir, encoder),
                    decoder: path_str(install_dir, decoder),
                    language: owned(entry.default_language),
                    task: owned("transcribe"),
                    tail_paddings: -1,
                    enable_token_timestamps: true,
                    enable_segment_timestamps: false,
                },
            ),
            tokens,
        ),
        ModelFiles::Transducer { encoder, decoder, joiner, tokens } => (
            FamilyConfig::Transducer(
                TransducerConfig {
                    encoder: path_str(install_dir, encoder),
                    decoder: path_str(install_dir, decoder),
                    joiner: path_str(install_dir, joiner),
                },
            ),
            tokens,
        ),
    };
    RecognizerConfig {
        family,
        tokens: path_str(install_dir, tokens),
        num_threads,
        debug: false,
        provider: owned("cpu"),
    }
}

} // verus!
