//! Error types of the control plane, each with the message its `Display`
//! form shows and, for [`SttError`], the structured error code reported
//! over the API.
use vstd::prelude::*;

use crate::text::concat;

verus! {

/// Errors from provider/model catalog, install, and process-supervision
/// operations. Payloads are human-readable detail strings (an I/O error is
/// carried as its rendered message).
#[derive(Debug, Clone)]
pub enum RuntimeError {
    InvalidProviderId(String),
    ProviderNotFound(String),
    ProviderNotInstalled(String),
    ModelNotFound(String),
    RuntimeNotRunning(String),
    RuntimeStartFailed(String),
    Io(String),
    DownloadFailed(String),
    UnsupportedVariant(String),
    InstallOperationNotFound(String),
    InvalidStartOptions(String),
    Internal(String),
}

/// The fixed text each `RuntimeError` message starts with.
pub open spec fn runtime_error_prefix(e: RuntimeError) -> Seq<char> {
    match e {
        RuntimeError::InvalidProviderId(_) => "invalid provider ID: "@,
        RuntimeError::ProviderNotFound(_) => "provider not found: "@,
        RuntimeError::ProviderNotInstalled(_) => "provider not installed: "@,
        RuntimeError::ModelNotFound(_) => "model not found for provider: "@,
        RuntimeError::RuntimeNotRunning(_) => "runtime not running: "@,
        RuntimeError::RuntimeStartFailed(_) => "runtime failed to start: "@,
        RuntimeError::Io(_) => "IO error: "@,
        RuntimeError::DownloadFailed(_) => "download failed: "@,
        RuntimeError::UnsupportedVariant(_) => "unsupported variant: "@,
        RuntimeError::InstallOperationNotFound(_) => "install operation not found: "@,
        RuntimeError::InvalidStartOptions(_) => "invalid start options: "@,
        RuntimeError::Internal(_) => "internal error: "@,
    }
}

/// The detail string a `RuntimeError` carries.
pub open spec fn runtime_error_detail(e: RuntimeError) -> Seq<char> {
    match e {
        RuntimeError::InvalidProviderId(m) => m@,
        RuntimeError::ProviderNotFound(m) => m@,
        RuntimeError::ProviderNotInstalled(m) => m@,
        RuntimeError::ModelNotFound(m) => m@,
        RuntimeError::RuntimeNotRunning(m) => m@,
        RuntimeError::RuntimeStartFailed(m) => m@,
        RuntimeError::Io(m) => m@,
        RuntimeError::DownloadFailed(m) => m@,
        RuntimeError::UnsupportedVariant(m) => m@,
        RuntimeError::InstallOperationNotFound(m) => m@,
        RuntimeError::InvalidStartOptions(m) => m@,
        RuntimeError::Internal(m) => m@,
    }
}

impl RuntimeError {
    /// The rendered message, e.g. `"provider not found: whisper"`.
    pub fn message(&self) -> (r: String)
        ensures
            r@ == runtime_error_prefix(*self) + runtime_error_detail(*self),
    {
        match self {
            RuntimeError::InvalidProviderId(m) => concat("invalid provider ID: ", m.as_str()),
            RuntimeError::ProviderNotFound(m) => concat("provider not found: ", m.as_str()),
            RuntimeError::ProviderNotInstalled(m) => concat(
                "provider not installed: ",
                m.as_str(),
            ),
            RuntimeError::ModelNotFound(m) => concat("model not found for provider: ", m.as_str()),
            RuntimeError::RuntimeNotRunning(m) => concat("runtime not running: ", m.as_str()),
            RuntimeError::RuntimeStartFailed(m) => concat(
                "runtime failed to start: ",
                m.as_str(),
            ),
            RuntimeError::Io(m) => concat("IO error: ", m.as_str()),
            RuntimeError::DownloadFailed(m) => concat("download failed: ", m.as_str()),
            RuntimeError::UnsupportedVariant(m) => concat("unsupported variant: ", m.as_str()),
            RuntimeError::InstallOperationNotFound(m) => concat(
                "install operation not found: ",
                m.as_str(),
            ),
            RuntimeError::InvalidStartOptions(m) => concat(
                "invalid start options: ",
                m.as_str(),
            ),
            RuntimeError::Internal(m) => concat("internal error: ", m.as_str()),
        }
    }
}

/// Canonical error type of the control plane's common layer. I/O and
/// serialization failures carry their rendered message.
#[derive(Debug, Clone)]
pub enum SttError {
    InvalidModelId(String),
    ModelNotFound(String),
    ModelAlreadyLoaded(String),
    ModelVerificationFailed(String),
    AdapterError(String),
    AudioError(String),
    TranscriptionError(String),
    SessionError(String),
    ConfigError(String),
    IoError(String),
    SerializationError(String),
    InternalError(String),
}

/// The structured code of each `SttError` variant.
pub open spec fn stt_error_code(e: SttError) -> Seq<char> {
    match e {
        SttError::InvalidModelId(_) => "INVALID_MODEL_ID"@,
        SttError::ModelNotFound(_) => "MODEL_NOT_FOUND"@,
        SttError::ModelAlreadyLoaded(_) => "MODEL_ALREADY_LOADED"@,
        SttError::ModelVerificationFailed(_) => "MODEL_VERIFICATION_FAILED"@,
        SttError::AdapterError(_) => "ADAPTER_ERROR"@,
        SttError::AudioError(_) => "AUDIO_ERROR"@,
        SttError::TranscriptionError(_) => "TRANSCRIPTION_ERROR"@,
        SttError::SessionError(_) => "SESSION_ERROR"@,
        SttError::ConfigError(_) => "CONFIG_ERROR"@,
        SttError::IoError(_) => "IO_ERROR"@,
        SttError::SerializationError(_) => "SERIALIZATION_ERROR"@,
        SttError::InternalError(_) => "INTERNAL_ERROR"@,
    }
}

/// The fixed text each `SttError` message starts with.
pub open spec fn stt_error_prefix(e: SttError) -> Seq<char> {
    match e {
        SttError::InvalidModelId(_) => "invalid model ID: "@,
        SttError::ModelNotFound(_) => "model not found: "@,
        SttError::ModelAlreadyLoaded(_) => "model already loaded: "@,
        SttError::ModelVerificationFailed(_) => "model verification failed: "@,
        SttError::AdapterError(_) => "adapter error: "@,
        SttError::AudioError(_) => "audio error: "@,
        SttError::TranscriptionError(_) => "transcription error: "@,
        SttError::SessionError(_) => "session error: "@,
        SttError::ConfigError(_) => "configuration error: "@,
        SttError::IoError(_) => "IO error: "@,
        SttError::SerializationError(_) => "serialization error: "@,
        SttError::InternalError(_) => "internal error: "@,
    }
}

/// The detail string an `SttError` carries.
pub open spec fn stt_error_detail(e: SttError) -> Seq<char> {
    match e {
        SttError::InvalidModelId(m) => m@,
        SttError::ModelNotFound(m) => m@,
        SttError::ModelAlreadyLoaded(m) => m@,
        SttError::ModelVerificationFailed(m) => m@,
        SttError::AdapterError(m) => m@,
        SttError::AudioError(m) => m@,
        SttError::TranscriptionError(m) => m@,
        SttError::SessionError(m) => m@,
        SttError::ConfigError(m) => m@,
        SttError::IoError(m) => m@,
        SttError::SerializationError(m) => m@,
        SttError::InternalError(m) => m@,
    }
}

impl SttError {
    /// The error code for structured error responses.
    pub fn code(&self) -> (r: &'static str)
        ensures
            r@ == stt_error_code(*self),
    {
        match self {
            SttError::InvalidModelId(_) => "INVALID_MODEL_ID",
            SttError::ModelNotFound(_) => "MODEL_NOT_FOUND",
            SttError::ModelAlreadyLoaded(_) => "MODEL_ALREADY_LOADED",
            SttError::ModelVerificationFailed(_) => "MODEL_VERIFICATION_FAILED",
            SttError::AdapterError(_) => "ADAPTER_ERROR",
            SttError::AudioError(_) => "AUDIO_ERROR",
            SttError::TranscriptionError(_) => "TRANSCRIPTION_ERROR",
            SttError::SessionError(_) => "SESSION_ERROR",
            SttError::ConfigError(_) => "CONFIG_ERROR",
            SttError::IoError(_) => "IO_ERROR",
            SttError::SerializationError(_) => "SERIALIZATION_ERROR",
            SttError::InternalError(_) => "INTERNAL_ERROR",
        }
    }

    /// The rendered message, e.g. `"configuration error: port cannot be 0"`.
    pub fn message(&self) -> (r: String)
        ensures
            r@ == stt_error_prefix(*self) + stt_error_detail(*self),
    {
        match self {
            SttError::InvalidModelId(m) => concat("invalid model ID: ", m.as_str()),
            SttError::ModelNotFound(m) => concat("model not found: ", m.as_str()),
            SttError::ModelAlreadyLoaded(m) => concat("model already loaded: ", m.as_str()),
            SttError::ModelVerificationFailed(m) => concat(
                "model verification failed: ",
                m.as_str(),
            ),
            SttError::AdapterError(m) => concat("adapter error: ", m.as_str()),
            SttError::AudioError(m) => concat("audio error: ", m.as_str()),
            SttError::TranscriptionError(m) => concat("transcription error: ", m.as_str()),
            SttError::SessionError(m) => concat("session error: ", m.as_str()),
            SttError::ConfigError(m) => concat("configuration error: ", m.as_str()),
            SttError::IoError(m) => concat("IO error: ", m.as_str()),
            SttError::SerializationError(m) => concat("serialization error: ", m.as_str()),
            SttError::InternalError(m) => concat("internal error: ", m.as_str()),
        }
    }
}

/// Structured error response for API endpoints.
#[derive(Debug, Clone)]
pub struct ErrorResponse {
    pub code: String,
    pub message: String,
}

impl ErrorResponse {
    /// The response describing `err`: its code and its rendered message.
    pub fn from_error(err: &SttError) -> (r: ErrorResponse)
        ensures
            r.code@ == stt_error_code(*err),
            r.message@ == stt_error_prefix(*err) + stt_error_detail(*err),
    {
        ErrorResponse { code: crate::text::owned(err.code()), message: err.message() }
    }

    /// `"[CODE] message"`, the response's display form.
    pub fn render(&self) -> (r: String)
        ensures
            r@ == "["@ + self.code@ + "] "@ + self.message@,
    {
        let mut r = concat("[", self.code.as_str());
        r.append("] ");
        r.append(self.message.as_str());
        r
    }
}

/// Errors of an engine adapter.
#[derive(Debug, Clone)]
pub enum AdapterError {
    ModelNotFound(String),
    ModelLoadFailed(String),
    ModelVerificationFailed(String),
    TranscriptionFailed(String),
    SessionError(String),
    InternalError(String),
    /// An I/O failure (its rendered message).
    IoError(String),
    NotSupported(String),
}

pub open spec fn adapter_error_prefix(e: AdapterError) -> Seq<char> {
    match e {
        AdapterError::ModelNotFound(_) => "model not found: "@,
        AdapterError::ModelLoadFailed(_) => "model load failed: "@,
        AdapterError::ModelVerificationFailed(_) => "model verification failed: "@,
        AdapterError::TranscriptionFailed(_) => "transcription failed: "@,
        AdapterError::SessionError(_) => "session error: "@,
        AdapterError::InternalError(_) => "adapter internal error: "@,
        AdapterError::IoError(_) => "IO error: "@,
        AdapterError::NotSupported(_) => "not supported: "@,
    }
}

pub open spec fn adapter_error_detail(e: AdapterError) -> Seq<char> {
    match e {
        AdapterError::ModelNotFound(m) => m@,
        AdapterError::ModelLoadFailed(m) => m@,
        AdapterError::ModelVerificationFailed(m) => m@,
        AdapterError::TranscriptionFailed(m) => m@,
        AdapterError::SessionError(m) => m@,
        AdapterError::InternalError(m) => m@,
        AdapterError::IoError(m) => m@,
        AdapterError::NotSupported(m) => m@,
    }
}

/// The common-layer error an adapter error becomes: load failures and
/// unsupported operations are adapter errors, the rest keep their kind.
pub open spec fn spec_adapter_to_stt(e: AdapterError) -> SttError {
    match e {
        AdapterError::ModelNotFound(m) => SttError::ModelNotFound(m),
        AdapterError::ModelLoadFailed(m) => SttError::AdapterError(m),
        AdapterError::ModelVerificationFailed(m) => SttError::ModelVerificationFailed(m),
        AdapterError::TranscriptionFailed(m) => SttError::TranscriptionError(m),
        AdapterError::SessionError(m) => SttError::SessionError(m),
        AdapterError::InternalError(m) => SttError::InternalError(m),
        AdapterError::IoError(m) => SttError::IoError(m),
        AdapterError::NotSupported(m) => SttError::AdapterError(m),
    }
}

impl AdapterError {
    /// The rendered message, e.g. `"not supported: realtime"`.
    pub fn message(&self) -> (r: String)
        ensures
            r@ == adapter_error_prefix(*self) + adapter_error_detail(*self),
    {
        match self {
            AdapterError::ModelNotFound(m) => concat("model not found: ", m.as_str()),
            AdapterError::ModelLoadFailed(m) => concat("model load failed: ", m.as_str()),
            AdapterError::ModelVerificationFailed(m) => concat(
                "model verification failed: ",
                m.as_str(),
            ),
            AdapterError::TranscriptionFailed(m) => concat("transcription failed: ", m.as_str()),
            AdapterError::SessionError(m) => concat("session error: ", m.as_str()),
            AdapterError::InternalError(m) => concat("adapter internal error: ", m.as_str()),
            AdapterError::IoError(m) => concat("IO error: ", m.as_str()),
            AdapterError::NotSupported(m) => concat("not supported: ", m.as_str()),
        }
    }

    /// The common-layer error this becomes (see [`spec_adapter_to_stt`]).
    pub fn into_stt_error(self) -> (r: SttError)
        ensures
            r == spec_adapter_to_stt(self),
    {
        match self {
            AdapterError::ModelNotFound(m) => SttError::ModelNotFound(m),
            AdapterError::ModelLoadFailed(m) => SttError::AdapterError(m),
            AdapterError::ModelVerificationFailed(m) => SttError::ModelVerificationFailed(m),
            AdapterError::TranscriptionFailed(m) => SttError::TranscriptionError(m),
            AdapterError::SessionError(m) => SttError::SessionError(m),
            AdapterError::InternalError(m) => SttError::InternalError(m),
            AdapterError::IoError(m) => SttError::IoError(m),
            AdapterError::NotSupported(m) => SttError::AdapterError(m),
        }
    }
}

/// Handle of a realtime transcription session an adapter holds the
/// context of.
#[derive(Debug, Clone)]
pub struct RealtimeContext {
    pub session_id: String,
    pub model_id: u64,
    pub sample_rate: u32,
    pub language: Option<String>,
}

} // verus!
