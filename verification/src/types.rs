//! Shared data types of the control plane: validated model identifiers,
//! the runtime connection descriptor handed to SDK clients, and health
//! responses.
use vstd::prelude::*;

use crate::error::SttError;
use crate::text::{byte_len, byte_len_exceeds, chars_of, concat, owned};

verus! {

/// Whether `s` holds two consecutive dots.
pub open spec fn has_double_dot(s: Seq<char>) -> bool {
    exists|i: int| 0 <= i < s.len() - 1 && #[trigger] s[i] == '.' && s[i + 1] == '.'
}

/// Whether `s` holds a character or sequence that could escape a
/// directory: `/`, `\`, `..`, or NUL.
pub open spec fn has_path_hazard(s: Seq<char>) -> bool {
    s.contains('/') || s.contains('\\') || has_double_dot(s) || s.contains('\0')
}

/// A model id: non-empty, at most 256 bytes, free of path hazards.
pub open spec fn valid_model_identifier(s: Seq<char>) -> bool {
    s.len() > 0 && byte_len(s) <= 256 && !has_path_hazard(s)
}

fn has_path_hazard_exec(s: &str) -> (r: bool)
    ensures
        r == has_path_hazard(s@),
{
    let v = chars_of(s);
    let mut i: usize = 0;
    while i < v.len()
        invariant
            v@ == s@,
            i <= v@.len(),
            forall|j: int| 0 <= j < i ==> v@[j] != '/' && v@[j] != '\\' && v@[j] != '\0',
            forall|j: int| 0 <= j < i && j + 1 < v@.len() ==> !(#[trigger] v@[j] == '.' && v@[j + 1] == '.'),
        decreases v.len() - i,
    {
        let c = v[i];
        if c == '/' || c == '\\' || c == '\0' {
            assert(s@[i as int] == c);
            return true;
        }
        if c == '.' && i + 1 < v.len() && v[i + 1] == '.' {
            assert(s@[i as int] == '.' && s@[i + 1] == '.');
            return true;
        }
        i += 1;
    }
    proof {
        assert(!s@.contains('/'));
        assert(!s@.contains('\\'));
        assert(!s@.contains('\0'));
        assert(!has_double_dot(s@));
    }
    false
}

/// Model identifier (safe, validated string).
#[derive(Debug)]
pub struct ModelIdentifier {
    id: String,
}

impl View for ModelIdentifier {
    type V = Seq<char>;

    open spec fn view(&self) -> Seq<char> {
        self.spec_id()
    }
}

impl ModelIdentifier {
    pub closed spec fn spec_id(&self) -> Seq<char> {
        self.id@
    }

    /// Validates `id`: rejected when empty, longer than 256 bytes, or when
    /// it holds `/`, `\`, `..` or NUL.
    pub fn new(id: String) -> (r: Result<ModelIdentifier, SttError>)
        ensures
            match r {
                Ok(m) => m@ == id@ && valid_model_identifier(id@),
                Err(SttError::InvalidModelId(m)) => {
                    &&& !valid_model_identifier(id@)
                    &&& id@.len() == 0 ==> m@ == "model ID cannot be empty"@
                    &&& (id@.len() > 0 && byte_len(id@) > 256) ==> m@ == "model ID too long"@
                    &&& (id@.len() > 0 && byte_len(id@) <= 256) ==> m@
                        == "model ID contains invalid characters: "@ + id@
                },
                Err(_) => false,
            },
    {
        let s = id.as_str();
        if s.is_empty() {
            return Err(SttError::InvalidModelId(owned("model ID cannot be empty")));
        }
        if byte_len_exceeds(s, 256) {
            return Err(SttError::InvalidModelId(owned("model ID too long")));
        }
        if has_path_hazard_exec(s) {
            return Err(
                SttError::InvalidModelId(concat("model ID contains invalid characters: ", s)),
            );
        }
        Ok(ModelIdentifier { id })
    }

    pub fn as_str(&self) -> (r: &str)
        ensures
            r@ == self@,
    {
        self.id.as_str()
    }
}

/// Model verification result.
#[derive(Debug)]
pub struct ModelVerification {
    pub valid: bool,
    pub checksum: Option<String>,
    pub error: Option<String>,
}

/// Schema version of [`RuntimeConnectionDescriptor`].
pub const RUNTIME_DESCRIPTOR_SCHEMA_VERSION: u32 = 1;

/// The `streaming` block of a managed runtime's `GET /v1/config` response.
#[derive(Debug)]
pub struct StreamingCapability {
    pub enabled: bool,
    pub endpoint: String,
    pub protocol_version: u32,
    pub encodings: Vec<String>,
    pub sample_rates: Vec<u32>,
    pub resample: bool,
    pub channels: Vec<u16>,
}

pub struct StreamingCapabilityView {
    pub enabled: bool,
    pub endpoint: Seq<char>,
    pub protocol_version: u32,
    pub encodings: Seq<Seq<char>>,
    pub sample_rates: Seq<u32>,
    pub resample: bool,
    pub channels: Seq<u16>,
}

impl View for StreamingCapability {
    type V = StreamingCapabilityView;

    open spec fn view(&self) -> StreamingCapabilityView {
        StreamingCapabilityView {
            enabled: self.enabled,
            endpoint: self.endpoint@,
            protocol_version: self.protocol_version,
            encodings: self.encodings@.map_values(|e: String| e@),
            sample_rates: self.sample_rates@,
            resample: self.resample,
            channels: self.channels@,
        }
    }
}

/// A copy of a vector of strings.
pub fn copy_strings(v: &Vec<String>) -> (r: Vec<String>)
    ensures
        r@.map_values(|e: String| e@) == v@.map_values(|e: String| e@),
{
    let mut r: Vec<String> = Vec::new();
    let mut i: usize = 0;
    while i < v.len()
        invariant
            i <= v@.len(),
            r@.len() == i,
            forall|k: int| 0 <= k < i ==> (#[trigger] r@[k])@ == v@[k]@,
        decreases v.len() - i,
    {
        r.push(v[i].clone());
        i += 1;
    }
    assert(r@.map_values(|e: String| e@) =~= v@.map_values(|e: String| e@));
    r
}

impl StreamingCapability {
    pub fn duplicate(&self) -> (r: StreamingCapability)
        ensures
            r@ == self@,
    {
        StreamingCapability {
            enabled: self.enabled,
            endpoint: self.endpoint.clone(),
            protocol_version: self.protocol_version,
            encodings: copy_strings(&self.encodings),
            sample_rates: self.sample_rates.clone(),
            resample: self.resample,
            channels: self.channels.clone(),
        }
    }
}

pub open spec fn streaming_view(s: Option<StreamingCapability>) -> Option<StreamingCapabilityView> {
    match s {
        Some(c) => Some(c@),
        None => None,
    }
}

/// A copy of an optional streaming block.
pub fn copy_streaming(s: &Option<StreamingCapability>) -> (r: Option<StreamingCapability>)
    ensures
        streaming_view(r) == streaming_view(*s),
{
    match s {
        Some(c) => Some(c.duplicate()),
        None => None,
    }
}

/// Auth material a client must present to the managed runtime.
#[derive(Debug)]
pub struct DescriptorAuth {
    pub auth_type: String,
    pub value: String,
}

/// Versioned connection descriptor for a local runtime: everything a
/// client needs to reach a runtime the control plane started.
#[derive(Debug)]
pub struct RuntimeConnectionDescriptor {
    pub schema_version: u32,
    pub provider: String,
    pub protocol: String,
    pub transport: String,
    pub base_url: String,
    pub streaming: Option<StreamingCapability>,
    pub auth: Option<DescriptorAuth>,
}

/// Health check response.
#[derive(Debug)]
pub struct HealthResponse {
    pub status: String,
    pub version: String,
}

/// Readiness check response.
#[derive(Debug)]
pub struct ReadinessResponse {
    pub ready: bool,
    pub reason: Option<String>,
}

impl HealthResponse {
    /// The control plane's own health: always `ok`, with its version.
    pub fn ok(version: &str) -> (r: HealthResponse)
        ensures
            r.status@ == "ok"@,
            r.version@ == version@,
    {
        HealthResponse { status: owned("ok"), version: owned(version) }
    }
}

impl ReadinessResponse {
    /// The control plane is ready as soon as it serves requests.
    pub fn ready() -> (r: ReadinessResponse)
        ensures
            r.ready,
            r.reason.is_none(),
    {
        ReadinessResponse { ready: true, reason: None }
    }
}

} // verus!
