//! Engine-agnostic Local Provider Protocol conformance checks: given what
//! a started provider answered, which checks pass. Skips are explicit
//! outcomes, never silent.
use vstd::prelude::*;

use crate::error::{runtime_error_detail, runtime_error_prefix, RuntimeError};
use crate::text::{chars_of, concat, decimal, owned, push_decimal, string_of_range, trimmed, is_blank};
use crate::catalog::{catalog_entry, catalog_has, entry_has_model, valid_provider_id, ProviderId};
use crate::manager::RuntimeManager;
use crate::providers::cache::FileProbe;
use crate::providers::faster_whisper::spec_weights_status;
use crate::text::byte_len;
use crate::types::RuntimeConnectionDescriptor;

verus! {

/// One named check and its result.
#[derive(Debug)]
pub struct CheckResult {
    pub name: &'static str,
    pub passed: bool,
    pub detail: String,
}

/// A provider's conformance: skipped (with why) or run (with its checks).
#[derive(Debug)]
pub enum ConformanceOutcome {
    Skipped { reason: String },
    Ran { checks: Vec<CheckResult> },
}

pub struct CheckView {
    pub name: Seq<char>,
    pub passed: bool,
    pub detail: Seq<char>,
}

impl View for CheckResult {
    type V = CheckView;

    open spec fn view(&self) -> CheckView {
        CheckView { name: self.name@, passed: self.passed, detail: self.detail@ }
    }
}

pub open spec fn checks_view(v: Seq<CheckResult>) -> Seq<CheckView> {
    v.map_values(|c: CheckResult| c@)
}

/// Whether every check passed.
pub fn every_check_passed(checks: &Vec<CheckResult>) -> (r: bool)
    ensures
        r == forall|i: int| 0 <= i < checks@.len() ==> (#[trigger] checks@[i]).passed,
{
    let mut i: usize = 0;
    while i < checks.len()
        invariant
            i <= checks@.len(),
            forall|j: int| 0 <= j < i ==> (#[trigger] checks@[j]).passed,
        decreases checks.len() - i,
    {
        if !checks[i].passed {
            assert(!checks@[i as int].passed);
            return false;
        }
        i += 1;
    }
    true
}

impl ConformanceOutcome {
    /// A skip counts as passing; a run passes when every check did.
    pub fn all_passed(&self) -> (r: bool)
        ensures
            r == match self {
                ConformanceOutcome::Skipped { .. } => true,
                ConformanceOutcome::Ran { checks } => forall|i: int|
                    0 <= i < checks@.len() ==> (#[trigger] checks@[i]).passed,
            },
    {
        match self {
            ConformanceOutcome::Skipped { .. } => true,
            ConformanceOutcome::Ran { checks } => every_check_passed(checks),
        }
    }
}

pub open spec fn check(name: Seq<char>, passed: bool, detail: Seq<char>) -> CheckView {
    CheckView { name, passed, detail }
}

/// A passing check.
pub fn ok(name: &'static str, detail: String) -> (r: CheckResult)
    ensures
        r@ == check(name@, true, detail@),
{
    CheckResult { name, passed: true, detail }
}

/// A failing check.
pub fn fail(name: &'static str, detail: String) -> (r: CheckResult)
    ensures
        r@ == check(name@, false, detail@),
{
    CheckResult { name, passed: false, detail }
}

/// Why a provider is skipped: its catalog id is not a valid provider id.
pub fn skip_invalid_id(e: &RuntimeError) -> (r: ConformanceOutcome)
    ensures
        r matches ConformanceOutcome::Skipped { reason } && reason@ == "invalid provider id: "@
            + runtime_error_prefix(*e) + runtime_error_detail(*e),
{
    let m = e.message();
    ConformanceOutcome::Skipped { reason: concat("invalid provider id: ", m.as_str()) }
}

/// Why a provider is skipped: no runtime is installed locally.
pub fn skip_not_installed() -> (r: ConformanceOutcome)
    ensures
        r matches ConformanceOutcome::Skipped { reason } && reason@
            == "runtime not locally installed in this environment"@,
{
    ConformanceOutcome::Skipped { reason: owned("runtime not locally installed in this environment") }
}

/// Why a provider is skipped: its default model is not cached (a
/// conformance run never downloads anything).
pub fn skip_model_not_cached(default_model: &str) -> (r: ConformanceOutcome)
    ensures
        r matches ConformanceOutcome::Skipped { reason } && reason@ == "default model '"@
            + default_model@ + "' not already cached in this environment"@,
{
    let mut m = concat("default model '", default_model);
    m.append("' not already cached in this environment");
    ConformanceOutcome::Skipped { reason: m }
}

/// Why a provider is skipped: selecting its default model failed.
pub fn skip_select_failed(e: &RuntimeError) -> (r: ConformanceOutcome)
    ensures
        r matches ConformanceOutcome::Skipped { reason } && reason@ == "select_model failed: "@
            + runtime_error_prefix(*e) + runtime_error_detail(*e),
{
    let m = e.message();
    ConformanceOutcome::Skipped { reason: concat("select_model failed: ", m.as_str()) }
}

/// A run that stopped at a failed start.
pub fn start_failed(e: &RuntimeError) -> (r: ConformanceOutcome)
    ensures
        r matches ConformanceOutcome::Ran { checks } && checks_view(checks@) == seq![
            check("start"@, false, runtime_error_prefix(*e) + runtime_error_detail(*e)),
        ],
{
    let mut checks: Vec<CheckResult> = Vec::new();
    checks.push(fail("start", e.message()));
    assert(checks_view(checks@) =~= seq![
        check("start"@, false, runtime_error_prefix(*e) + runtime_error_detail(*e)),
    ]);
    ConformanceOutcome::Ran { checks }
}

/// The bearer token a descriptor carries (empty when it has none).
pub fn bearer_token(d: &RuntimeConnectionDescriptor) -> (r: String)
    ensures
        r@ == (match d.auth {
            Some(a) => a.value@,
            None => Seq::<char>::empty(),
        }),
{
    match &d.auth {
        Some(a) => a.value.clone(),
        None => String::new(),
    }
}

/// `<base url><path>`: an endpoint of a started runtime.
pub fn endpoint(base_url: &str, path: &str) -> (r: String)
    ensures
        r@ == base_url@ + path@,
{
    concat(base_url, path)
}

/// What an HTTP request got: a status (its code and rendered text), or a
/// transport error message.
#[derive(Debug)]
pub enum HttpOutcome {
    Status { code: u16, text: String },
    Failed(String),
}

/// What a request whose body is read as JSON got.
#[derive(Debug)]
pub enum ConfigOutcome {
    /// The body parsed; whether it has a top-level `model` field.
    Parsed { has_model: bool },
    /// The body did not parse (error message).
    BadBody(String),
    /// The request itself failed (error message).
    Failed(String),
}

/// What the transcription request with the token got.
#[derive(Debug)]
pub enum TranscribeOutcome {
    /// A success status and a JSON body; its `text` field when it is a
    /// string (empty otherwise).
    Transcript(String),
    /// A success status whose body did not parse (error message).
    BadBody(String),
    /// A non-success status (rendered).
    Status(String),
    /// The request itself failed (error message).
    Failed(String),
}

pub open spec fn is_success(code: u16) -> bool {
    200 <= code && code <= 299
}

pub open spec fn spec_health_check(o: HttpOutcome) -> CheckView {
    match o {
        HttpOutcome::Status { code, text } => check("GET /health"@, is_success(code), text@),
        HttpOutcome::Failed(m) => check("GET /health"@, false, m@),
    }
}

pub open spec fn spec_config_check(o: ConfigOutcome) -> CheckView {
    match o {
        ConfigOutcome::Parsed { has_model } => if has_model {
            check("GET /v1/config"@, true, "has 'model'"@)
        } else {
            check("GET /v1/config"@, false, "missing 'model' field"@)
        },
        ConfigOutcome::BadBody(m) => check("GET /v1/config"@, false, m@),
        ConfigOutcome::Failed(m) => check("GET /v1/config"@, false, m@),
    }
}

pub open spec fn spec_auth_check(o: HttpOutcome) -> CheckView {
    match o {
        HttpOutcome::Status { code, text } => if code == 401 {
            check("auth enforcement"@, true, "401 without token"@)
        } else {
            check(
                "auth enforcement"@,
                false,
                "expected 401, got "@ + text@ + " (token not enforced)"@,
            )
        },
        HttpOutcome::Failed(m) => check("auth enforcement"@, false, m@),
    }
}

pub open spec fn spec_transcribe_check(o: TranscribeOutcome) -> CheckView {
    match o {
        TranscribeOutcome::Transcript(t) => if trimmed(t@).len() == 0 {
            check("transcribe (no model field)"@, false, "'text' was empty"@)
        } else {
            check(
                "transcribe (no model field)"@,
                true,
                t@.take(if t@.len() < 40 {
                    t@.len() as int
                } else {
                    40
                }) + "..."@,
            )
        },
        TranscribeOutcome::BadBody(m) => check("transcribe (no model field)"@, false, m@),
        TranscribeOutcome::Status(s) => check("transcribe (no model field)"@, false, s@),
        TranscribeOutcome::Failed(m) => check("transcribe (no model field)"@, false, m@),
    }
}

/// The descriptor checks: schema version 1, protocol `voice-typer-v1`, a
/// non-empty base URL.
pub open spec fn spec_descriptor_checks(d: RuntimeConnectionDescriptor) -> Seq<CheckView> {
    seq![
        if d.schema_version == 1 {
            check("descriptor.schemaVersion"@, true, "1"@)
        } else {
            check("descriptor.schemaVersion"@, false, "expected 1, got "@ + decimal(d.schema_version as nat))
        },
        check("descriptor.protocol"@, d.protocol@ == "voice-typer-v1"@, d.protocol@),
        if d.base_url@.len() > 0 {
            check("descriptor.baseUrl"@, true, d.base_url@)
        } else {
            check("descriptor.baseUrl"@, false, "empty"@)
        },
    ]
}

/// The descriptor checks (see [`spec_descriptor_checks`]).
pub fn descriptor_checks(d: &RuntimeConnectionDescriptor) -> (r: Vec<CheckResult>)
    ensures
        checks_view(r@) == spec_descriptor_checks(*d),
{
    let mut checks: Vec<CheckResult> = Vec::new();
    if d.schema_version == 1 {
        checks.push(ok("descriptor.schemaVersion", owned("1")));
    } else {
        let mut m = owned("expected 1, got ");
        push_decimal(&mut m, d.schema_version as u64);
        checks.push(fail("descriptor.schemaVersion", m));
    }
    if crate::text::str_eq(d.protocol.as_str(), "voice-typer-v1") {
        checks.push(ok("descriptor.protocol", d.protocol.clone()));
    } else {
        checks.push(fail("descriptor.protocol", d.protocol.clone()));
    }
    if !d.base_url.as_str().is_empty() {
        checks.push(ok("descriptor.baseUrl", d.base_url.clone()));
    } else {
        checks.push(fail("descriptor.baseUrl", owned("empty")));
    }
    assert(checks_view(checks@) =~= spec_descriptor_checks(*d));
    checks
}

/// The `GET /health` check: passes on a success status.
pub fn health_check(o: HttpOutcome) -> (r: CheckResult)
    ensures
        r@ == spec_health_check(o),
{
    match o {
        HttpOutcome::Status { code, text } => {
            if 200 <= code && code <= 299 {
                ok("GET /health", text)
            } else {
                fail("GET /health", text)
            }
        },
        HttpOutcome::Failed(m) => fail("GET /health", m),
    }
}

/// The `GET /v1/config` check: passes when the body has a `model` field.
pub fn config_check(o: ConfigOutcome) -> (r: CheckResult)
    ensures
        r@ == spec_config_check(o),
{
    match o {
        ConfigOutcome::Parsed { has_model } => {
            if has_model {
                ok("GET /v1/config", owned("has 'model'"))
            } else {
                fail("GET /v1/config", owned("missing 'model' field"))
            }
        },
        ConfigOutcome::BadBody(m) => fail("GET /v1/config", m),
        ConfigOutcome::Failed(m) => fail("GET /v1/config", m),
    }
}

/// The auth check: a transcription without the token must get 401.
pub fn auth_check(o: HttpOutcome) -> (r: CheckResult)
    ensures
        r@ == spec_auth_check(o),
{
    match o {
        HttpOutcome::Status { code, text } => {
            if code == 401 {
                ok("auth enforcement", owned("401 without token"))
            } else {
                let mut m = concat("expected 401, got ", text.as_str());
                m.append(" (token not enforced)");
                fail("auth enforcement", m)
            }
        },
        HttpOutcome::Failed(m) => fail("auth enforcement", m),
    }
}

/// The transcription check: a transcription with the token must produce
/// non-blank text (its first 40 characters are reported).
pub fn transcribe_check(o: TranscribeOutcome) -> (r: CheckResult)
    ensures
        r@ == spec_transcribe_check(o),
{
    match o {
        TranscribeOutcome::Transcript(t) => {
            if is_blank(t.as_str()) {
                fail("transcribe (no model field)", owned("'text' was empty"))
            } else {
                let v = chars_of(t.as_str());
                let n: usize = if v.len() < 40 {
                    v.len()
                } else {
                    40
                };
                let mut m = string_of_range(&v, 0, n);
                m.append("...");
                assert(v@.subrange(0, n as int) =~= t@.take(n as int));
                ok("transcribe (no model field)", m)
            }
        },
        TranscribeOutcome::BadBody(m) => fail("transcribe (no model field)", m),
        TranscribeOutcome::Status(s) => fail("transcribe (no model field)", s),
        TranscribeOutcome::Failed(m) => fail("transcribe (no model field)", m),
    }
}

/// Every check of a started provider, in order: the descriptor's, then
/// `GET /health` and `GET /v1/config` with the token, a transcription
/// without the token (must be refused with 401), and one with it (must
/// produce non-blank text).
pub fn run_checks(
    d: &RuntimeConnectionDescriptor,
    health: HttpOutcome,
    config: ConfigOutcome,
    unauthenticated: HttpOutcome,
    transcribe: TranscribeOutcome,
) -> (r: ConformanceOutcome)
    ensures
        r matches ConformanceOutcome::Ran { checks } && checks_view(checks@)
            == spec_descriptor_checks(*d) + seq![
            spec_health_check(health),
            spec_config_check(config),
            spec_auth_check(unauthenticated),
            spec_transcribe_check(transcribe),
        ],
{
    let mut checks = descriptor_checks(d);
    let ghost first = checks_view(checks@);
    let h = health_check(health);
    let c = config_check(config);
    let a = auth_check(unauthenticated);
    let t = transcribe_check(transcribe);
    let ghost hv = h@;
    let ghost cv = c@;
    let ghost av = a@;
    let ghost tv = t@;
    checks.push(h);
    checks.push(c);
    checks.push(a);
    checks.push(t);
    assert(checks_view(checks@) =~= first + seq![hv, cv, av, tv]);
    ConformanceOutcome::Ran { checks }
}

// ── The run of one provider ─────────────────────────────────────────

/// Why a provider id is refused (see [`ProviderId::new`]).
pub open spec fn invalid_id_detail(id: Seq<char>) -> Seq<char> {
    if id.len() == 0 {
        "provider ID cannot be empty"@
    } else if byte_len(id) > 128 {
        "provider ID too long"@
    } else {
        "provider ID contains invalid characters: "@ + id
    }
}

/// A provider's default model is cached: the catalog lists it for the
/// provider and its weights file is present and non-empty.
pub open spec fn default_model_cached(provider_id: Seq<char>, model_id: Seq<char>, weights: FileProbe) -> bool {
    &&& catalog_has(provider_id)
    &&& entry_has_model(catalog_entry(provider_id), model_id)
    &&& spec_weights_status(weights) matches Ok(Some(_))
}

/// The steps a conformance run takes before starting a provider, on a
/// manager holding whatever is installed locally: a provider whose id is
/// invalid, that is not installed, or whose default model is not already
/// cached (`weights` is the probe of its weights file) is skipped, in that
/// order; otherwise its default model is selected and the provider is
/// ready to start. A run never downloads anything. The caller then
/// starts it, answers a failed start with [`start_failed`], runs
/// [`run_checks`] on what the started runtime answered, and stops it.
pub fn prepare_check(
    manager: &mut RuntimeManager,
    provider_id: &str,
    default_model: &str,
    weights: &FileProbe,
) -> (r: Result<ProviderId, ConformanceOutcome>)
    requires
        old(manager).wf(),
    ensures
        final(manager).wf(),
        final(manager).instances() == old(manager).instances(),
        final(manager).installed() == old(manager).installed(),
        final(manager).operation_log() == old(manager).operation_log(),
        final(manager).idle_timeout() == old(manager).idle_timeout(),
        final(manager).spec_hardware() == old(manager).spec_hardware(),
        !valid_provider_id(provider_id@) ==> {
            &&& r matches Err(ConformanceOutcome::Skipped { reason })
            &&& reason@ == "invalid provider id: "@ + "invalid provider ID: "@ + invalid_id_detail(provider_id@)
            &&& final(manager).selected() == old(manager).selected()
        },
        valid_provider_id(provider_id@) && !old(manager).installed().contains_key(provider_id@) ==> {
            &&& r matches Err(ConformanceOutcome::Skipped { reason })
            &&& reason@ == "runtime not locally installed in this environment"@
            &&& final(manager).selected() == old(manager).selected()
        },
        valid_provider_id(provider_id@) && old(manager).installed().contains_key(provider_id@)
            && !default_model_cached(provider_id@, default_model@, *weights) ==> {
            &&& r matches Err(ConformanceOutcome::Skipped { reason })
            &&& reason@ == "default model '"@ + default_model@ + "' not already cached in this environment"@
            &&& final(manager).selected() == old(manager).selected()
        },
        valid_provider_id(provider_id@) && old(manager).installed().contains_key(provider_id@)
            && default_model_cached(provider_id@, default_model@, *weights) ==> {
            &&& r matches Ok(id)
            &&& id@ == provider_id@
            &&& final(manager).selected() == old(manager).selected().insert(provider_id@, default_model@)
        },
{
    let id = match ProviderId::new(owned(provider_id)) {
        Ok(id) => id,
        Err(e) => return Err(skip_invalid_id(&e)),
    };
    if !manager.is_installed(&id) {
        return Err(skip_not_installed());
    }
    match manager.verify_model(&id, default_model, weights) {
        Ok(Some(_)) => {},
        _ => return Err(skip_model_not_cached(default_model)),
    }
    match manager.select_model(&id, default_model) {
        Ok(()) => Ok(id),
        Err(e) => Err(skip_select_failed(&e)),
    }
}

/// When each of the other checks passes: `GET /v1/config` exactly when its
/// body parsed and has a `model` field; auth enforcement exactly when the
/// request without a token was refused with 401; the transcription exactly
/// when it produced text that is not blank; the descriptor checks exactly
/// when the schema version is 1, the protocol is `voice-typer-v1` and the
/// base URL is not empty.
pub proof fn law_check_pass_conditions(
    config: ConfigOutcome,
    auth: HttpOutcome,
    transcribe: TranscribeOutcome,
    d: RuntimeConnectionDescriptor,
)
    ensures
        spec_config_check(config).passed <==> (config matches ConfigOutcome::Parsed { has_model }
            && has_model),
        spec_auth_check(auth).passed <==> (auth matches HttpOutcome::Status { code, .. } && code
            == 401),
        spec_transcribe_check(transcribe).passed <==> (transcribe matches TranscribeOutcome::Transcript(
            t,
        ) && trimmed(t@).len() > 0),
        spec_descriptor_checks(d).len() == 3,
        spec_descriptor_checks(d)[0].passed <==> d.schema_version == 1,
        spec_descriptor_checks(d)[1].passed <==> d.protocol@ == "voice-typer-v1"@,
        spec_descriptor_checks(d)[2].passed <==> d.base_url@.len() > 0,
{
}

/// The `GET /health` check passes exactly when the runtime answered with a
/// success status (200 through 299): a client error, a server error or a
/// redirect fails it, and so does a request that never got an answer. Its
/// detail is the status text, or the failure message.
pub proof fn law_health_passes_only_on_a_success_status(code: u16, text: String, m: String)
    ensures
        spec_health_check(HttpOutcome::Status { code, text }).passed <==> (200 <= code && code
            <= 299),
        spec_health_check(HttpOutcome::Status { code, text }).name == "GET /health"@,
        spec_health_check(HttpOutcome::Status { code, text }).detail == text@,
        !spec_health_check(HttpOutcome::Failed(m)).passed,
        spec_health_check(HttpOutcome::Failed(m)).name == "GET /health"@,
        spec_health_check(HttpOutcome::Failed(m)).detail == m@,
{
}

} // verus!
