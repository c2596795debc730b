//! Curated provider catalog, validated provider identifiers, hardware
//! build variants, and compatibility evaluation.
use vstd::prelude::*;

use crate::error::RuntimeError;
use crate::hardware::HardwareReport;
use crate::text::{
    byte_len, byte_len_exceeds, char_is_ascii_alnum, chars_of, concat, is_ascii_alnum, owned, str_eq,
};

verus! {

/// Characters a provider id may hold.
pub open spec fn is_provider_id_char(c: char) -> bool {
    is_ascii_alnum(c) || c == '-' || c == '_'
}

/// A provider id: non-empty, at most 128 bytes, only ASCII letters,
/// digits, `-` and `_` — never something a path could be built from
/// that escapes its directory.
pub open spec fn valid_provider_id(s: Seq<char>) -> bool {
    &&& s.len() > 0
    &&& byte_len(s) <= 128
    &&& forall|i: int| 0 <= i < s.len() ==> is_provider_id_char(#[trigger] s[i])
}

/// Validated provider identifier — never a raw filesystem path.
#[derive(Debug, Clone)]
pub struct ProviderId {
    id: String,
}

impl View for ProviderId {
    type V = Seq<char>;

    open spec fn view(&self) -> Seq<char> {
        self.spec_id()
    }
}

impl ProviderId {
    pub closed spec fn spec_id(&self) -> Seq<char> {
        self.id@
    }

    /// Validates `id`: rejected when empty, longer than 128 bytes, or
    /// holding a character other than an ASCII letter, digit, `-` or `_`.
    pub fn new(id: String) -> (r: Result<ProviderId, RuntimeError>)
        ensures
            match r {
                Ok(p) => p@ == id@ && valid_provider_id(id@),
                Err(RuntimeError::InvalidProviderId(m)) => {
                    &&& !valid_provider_id(id@)
                    &&& id@.len() == 0 ==> m@ == "provider ID cannot be empty"@
                    &&& (id@.len() > 0 && byte_len(id@) > 128) ==> m@ == "provider ID too long"@
                    &&& (id@.len() > 0 && byte_len(id@) <= 128) ==> m@
                        == "provider ID contains invalid characters: "@ + id@
                },
                Err(_) => false,
            },
    {
        let s = id.as_str();
        if s.is_empty() {
            return Err(RuntimeError::InvalidProviderId(owned("provider ID cannot be empty")));
        }
        if byte_len_exceeds(s, 128) {
            return Err(RuntimeError::InvalidProviderId(owned("provider ID too long")));
        }
        let v = chars_of(s);
        let mut i: usize = 0;
        while i < v.len()
            invariant
                v@ == id@,
                s@ == id@,
                id@.len() > 0,
                byte_len(id@) <= 128,
                i <= v@.len(),
                forall|j: int| 0 <= j < i ==> is_provider_id_char(#[trigger] v@[j]),
            decreases v.len() - i,
        {
            let c = v[i];
            if !(char_is_ascii_alnum(c) || c == '-' || c == '_') {
                assert(!is_provider_id_char(id@[i as int]));
                return Err(
                    RuntimeError::InvalidProviderId(
                        concat("provider ID contains invalid characters: ", s),
                    ),
                );
            }
            i += 1;
        }
        Ok(ProviderId { id })
    }

    pub fn as_str(&self) -> (r: &str)
        ensures
            r@ == self@,
    {
        self.id.as_str()
    }

    /// The id as an owned string (its display form).
    pub fn to_string(&self) -> (r: String)
        ensures
            r@ == self@,
    {
        self.id.clone()
    }
}

/// Which hardware build of a provider runtime: CPU-only (small, always
/// compatible) or GPU (bundles CUDA/cuDNN).
#[derive(Debug, Clone, Copy, PartialEq, Eq, Structural)]
pub enum RuntimeVariant {
    Cpu,
    Gpu,
}

/// The wire name of a variant.
pub open spec fn variant_name(v: RuntimeVariant) -> Seq<char> {
    match v {
        RuntimeVariant::Cpu => "cpu"@,
        RuntimeVariant::Gpu => "gpu"@,
    }
}

impl RuntimeVariant {
    pub fn as_str(&self) -> (r: &'static str)
        ensures
            r@ == variant_name(*self),
    {
        match self {
            RuntimeVariant::Cpu => "cpu",
            RuntimeVariant::Gpu => "gpu",
        }
    }

    /// `"cpu"` or `"gpu"`, exactly; anything else is not a variant.
    pub fn parse(s: &str) -> (r: Option<RuntimeVariant>)
        ensures
            r == (if s@ == "cpu"@ {
                Some(RuntimeVariant::Cpu)
            } else if s@ == "gpu"@ {
                Some(RuntimeVariant::Gpu)
            } else {
                None
            }),
    {
        if str_eq(s, "cpu") {
            Some(RuntimeVariant::Cpu)
        } else if str_eq(s, "gpu") {
            Some(RuntimeVariant::Gpu)
        } else {
            None
        }
    }
}

/// A curated model choice for a provider.
#[derive(Debug, Clone)]
pub struct ModelEntry {
    pub id: String,
    pub display_name: String,
}

pub struct ModelEntryView {
    pub id: Seq<char>,
    pub display_name: Seq<char>,
}

impl ModelEntry {
    pub fn duplicate(&self) -> (r: ModelEntry)
        ensures
            r@ == self@,
    {
        ModelEntry { id: self.id.clone(), display_name: self.display_name.clone() }
    }
}

impl View for ModelEntry {
    type V = ModelEntryView;

    open spec fn view(&self) -> ModelEntryView {
        ModelEntryView { id: self.id@, display_name: self.display_name@ }
    }
}

/// A single curated provider's static metadata.
#[derive(Debug, Clone)]
pub struct CatalogEntry {
    pub id: String,
    pub display_name: String,
    /// Value written into a connection descriptor's `protocol`.
    pub protocol: String,
    /// Value written into a connection descriptor's `transport`.
    pub transport: String,
    /// Path polled on the runtime's own port to confirm it's healthy.
    pub health_path: String,
    pub models: Vec<ModelEntry>,
    pub default_model: String,
}

pub struct CatalogEntryView {
    pub id: Seq<char>,
    pub display_name: Seq<char>,
    pub protocol: Seq<char>,
    pub transport: Seq<char>,
    pub health_path: Seq<char>,
    pub models: Seq<ModelEntryView>,
    pub default_model: Seq<char>,
}

impl CatalogEntry {
    pub fn duplicate(&self) -> (r: CatalogEntry)
        ensures
            r@ == self@,
    {
        let mut models: Vec<ModelEntry> = Vec::new();
        let mut i: usize = 0;
        while i < self.models.len()
            invariant
                i <= self.models@.len(),
                models@.len() == i,
                forall|k: int| 0 <= k < i ==> (#[trigger] models@[k])@ == self.models@[k]@,
            decreases self.models.len() - i,
        {
            models.push(self.models[i].duplicate());
            i += 1;
        }
        assert(models@.map_values(|m: ModelEntry| m@) =~= self.models@.map_values(
            |m: ModelEntry| m@,
        ));
        CatalogEntry {
            id: self.id.clone(),
            display_name: self.display_name.clone(),
            protocol: self.protocol.clone(),
            transport: self.transport.clone(),
            health_path: self.health_path.clone(),
            models,
            default_model: self.default_model.clone(),
        }
    }
}

impl View for CatalogEntry {
    type V = CatalogEntryView;

    open spec fn view(&self) -> CatalogEntryView {
        CatalogEntryView {
            id: self.id@,
            display_name: self.display_name@,
            protocol: self.protocol@,
            transport: self.transport@,
            health_path: self.health_path@,
            models: self.models@.map_values(|m: ModelEntry| m@),
            default_model: self.default_model@,
        }
    }
}

pub open spec fn model_view(id: Seq<char>, display_name: Seq<char>) -> ModelEntryView {
    ModelEntryView { id, display_name }
}

/// The faster-whisper entry's curated models.
pub open spec fn faster_whisper_models() -> Seq<ModelEntryView> {
    seq![
        model_view("Systran/faster-whisper-tiny"@, "Tiny"@),
        model_view("Systran/faster-whisper-base"@, "Base"@),
        model_view("Systran/faster-whisper-small"@, "Small"@),
        model_view("Systran/faster-whisper-medium"@, "Medium"@),
        model_view("Systran/faster-whisper-large-v3"@, "Large v3"@),
    ]
}

/// The curated catalog.
pub open spec fn spec_catalog() -> Seq<CatalogEntryView> {
    seq![
        CatalogEntryView {
            id: "faster-whisper"@,
            display_name: "Faster Whisper"@,
            protocol: "voice-typer-v1"@,
            transport: "http"@,
            health_path: "/health"@,
            models: faster_whisper_models(),
            default_model: "Systran/faster-whisper-small"@,
        },
    ]
}

fn model_entry(id: &str, display_name: &str) -> (m: ModelEntry)
    ensures
        m@ == model_view(id@, display_name@),
{
    ModelEntry { id: owned(id), display_name: owned(display_name) }
}

/// The curated provider catalog.
pub fn catalog() -> (r: Vec<CatalogEntry>)
    ensures
        r@.map_values(|e: CatalogEntry| e@) == spec_catalog(),
{
    let mut models: Vec<ModelEntry> = Vec::new();
    models.push(model_entry("Systran/faster-whisper-tiny", "Tiny"));
    models.push(model_entry("Systran/faster-whisper-base", "Base"));
    models.push(model_entry("Systran/faster-whisper-small", "Small"));
    models.push(model_entry("Systran/faster-whisper-medium", "Medium"));
    models.push(model_entry("Systran/faster-whisper-large-v3", "Large v3"));
    assert(models@.map_values(|m: ModelEntry| m@) =~= faster_whisper_models());
    let entry = CatalogEntry {
        id: owned("faster-whisper"),
        display_name: owned("Faster Whisper"),
        protocol: owned("voice-typer-v1"),
        transport: owned("http"),
        health_path: owned("/health"),
        models,
        default_model: owned("Systran/faster-whisper-small"),
    };
    let mut r: Vec<CatalogEntry> = Vec::new();
    r.push(entry);
    assert(r@.map_values(|e: CatalogEntry| e@) =~= spec_catalog());
    r
}

/// Whether a catalog entry has id `id`.
pub open spec fn catalog_has(id: Seq<char>) -> bool {
    exists|i: int| 0 <= i < spec_catalog().len() && (#[trigger] spec_catalog()[i]).id == id
}

/// The catalog entry with id `id` (meaningful when `catalog_has(id)`).
pub open spec fn catalog_entry(id: Seq<char>) -> CatalogEntryView {
    spec_catalog()[choose|i: int| 0 <= i < spec_catalog().len() && (#[trigger] spec_catalog()[i]).id == id]
}

/// Whether `entry` lists a model with id `model_id`.
pub open spec fn entry_has_model(entry: CatalogEntryView, model_id: Seq<char>) -> bool {
    exists|i: int| 0 <= i < entry.models.len() && (#[trigger] entry.models[i]).id == model_id
}

/// Provider catalog entry as reported over the control-plane API, with
/// compatibility evaluated against the current machine's hardware.
#[derive(Debug, Clone)]
pub struct ProviderInfo {
    pub id: String,
    pub display_name: String,
    pub protocol: String,
    pub transport: String,
    pub compatible: bool,
    pub compatibility_reason: Option<String>,
}

/// Every catalog entry runs on every machine today (CPU fallback is
/// unconditional): hardware only changes which variant and device get used
/// at start, never eligibility. The seam later providers with real
/// minimum requirements hook into.
pub fn evaluate_compatibility(entry: &CatalogEntry, hardware: &HardwareReport) -> (r: (
    bool,
    Option<String>,
))
    ensures
        r.0 && r.1.is_none(),
{
    (true, None)
}

/// The catalog, each entry paired with its compatibility on `hardware`.
pub fn list_providers(hardware: &HardwareReport) -> (r: Vec<ProviderInfo>)
    ensures
        r@.len() == spec_catalog().len(),
        forall|i: int|
            0 <= i < r@.len() ==> {
                let info = #[trigger] r@[i];
                let e = spec_catalog()[i];
                &&& info.id@ == e.id
                &&& info.display_name@ == e.display_name
                &&& info.protocol@ == e.protocol
                &&& info.transport@ == e.transport
                &&& info.compatible
                &&& info.compatibility_reason.is_none()
            },
{
    let entries = catalog();
    let mut out: Vec<ProviderInfo> = Vec::new();
    let mut i: usize = 0;
    while i < entries.len()
        invariant
            entries@.map_values(|e: CatalogEntry| e@) == spec_catalog(),
            i <= entries@.len(),
            out@.len() == i,
            forall|k: int|
                0 <= k < i ==> {
                    let info = #[trigger] out@[k];
                    let e = spec_catalog()[k];
                    &&& info.id@ == e.id
                    &&& info.display_name@ == e.display_name
                    &&& info.protocol@ == e.protocol
                    &&& info.transport@ == e.transport
                    &&& info.compatible
                    &&& info.compatibility_reason.is_none()
                },
        decreases entries.len() - i,
    {
        let entry = &entries[i];
        assert(entries@.map_values(|e: CatalogEntry| e@)[i as int] == entry@);
        let (compatible, reason) = evaluate_compatibility(entry, hardware);
        out.push(
            ProviderInfo {
                id: entry.id.clone(),
                display_name: entry.display_name.clone(),
                protocol: entry.protocol.clone(),
                transport: entry.transport.clone(),
                compatible,
                compatibility_reason: reason,
            },
        );
        i += 1;
    }
    out
}

/// The catalog entry for `id`; `ProviderNotFound(id)` when there is none.
pub fn find_provider(id: &ProviderId) -> (r: Result<CatalogEntry, RuntimeError>)
    ensures
        match r {
            Ok(e) => catalog_has(id@) && e@ == catalog_entry(id@),
            Err(RuntimeError::ProviderNotFound(m)) => !catalog_has(id@) && m@ == id@,
            Err(_) => false,
        },
{
    let entries = catalog();
    let mut i: usize = 0;
    while i < entries.len()
        invariant
            entries@.map_values(|e: CatalogEntry| e@) == spec_catalog(),
            i <= entries@.len(),
            forall|k: int| 0 <= k < i ==> (#[trigger] spec_catalog()[k]).id != id@,
        decreases entries.len() - i,
    {
        assert(entries@.map_values(|e: CatalogEntry| e@)[i as int] == entries@[i as int]@);
        if str_eq(entries[i].id.as_str(), id.as_str()) {
            let e = entries[i].duplicate();
            proof {
                assert(spec_catalog()[i as int].id == id@);
                let j = choose|j: int|
                    0 <= j < spec_catalog().len() && (#[trigger] spec_catalog()[j]).id == id@;
                assert(spec_catalog().len() == 1);
            }
            return Ok(e);
        }
        i += 1;
    }
    Err(RuntimeError::ProviderNotFound(id.to_string()))
}

/// The first model of `entry` with id `model_id`, if it lists one.
pub fn find_model(entry: &CatalogEntry, model_id: &str) -> (r: Option<ModelEntry>)
    ensures
        match r {
            Some(m) => m@.id == model_id@ && entry_has_model(entry@, model_id@) && exists|i: int|
                0 <= i < entry@.models.len() && entry@.models[i] == m@ && forall|j: int|
                    0 <= j < i ==> (#[trigger] entry@.models[j]).id != model_id@,
            None => !entry_has_model(entry@, model_id@),
        },
{
    let mut i: usize = 0;
    while i < entry.models.len()
        invariant
            i <= entry.models@.len(),
            forall|k: int| 0 <= k < i ==> (#[trigger] entry@.models[k]).id != model_id@,
        decreases entry.models.len() - i,
    {
        assert(entry@.models[i as int] == entry.models@[i as int]@);
        if str_eq(entry.models[i].id.as_str(), model_id) {
            return Some(entry.models[i].duplicate());
        }
        i += 1;
    }
    None
}

/// A valid provider id never names a path: it holds no `/`, `\` or `.`,
/// so `..` and nested components are impossible.
pub proof fn law_provider_ids_cannot_traverse(s: Seq<char>)
    requires
        valid_provider_id(s),
    ensures
        !s.contains('/'),
        !s.contains('\\'),
        !s.contains('.'),
{
    if s.contains('/') {
        let i = choose|i: int| 0 <= i < s.len() && s[i] == '/';
        assert(is_provider_id_char(s[i]));
    }
    if s.contains('\\') {
        let i = choose|i: int| 0 <= i < s.len() && s[i] == '\\';
        assert(is_provider_id_char(s[i]));
    }
    if s.contains('.') {
        let i = choose|i: int| 0 <= i < s.len() && s[i] == '.';
        assert(is_provider_id_char(s[i]));
    }
}

/// A variant's wire name parses back to that variant.
pub proof fn law_variant_name_round_trips(v: RuntimeVariant)
    ensures
        (if variant_name(v) == "cpu"@ {
            Some(RuntimeVariant::Cpu)
        } else if variant_name(v) == "gpu"@ {
            Some(RuntimeVariant::Gpu)
        } else {
            None
        }) == Some(v),
{
    reveal_strlit("cpu");
    reveal_strlit("gpu");
    assert("cpu"@[0] != "gpu"@[0]);
}

} // verus!
